//! Vertex records and the layout that the device is told of them.
//!
//! A vertex record is a run of 32-bit words: its attributes one after the
//! other, each a run of one to four components. The layout names the component
//! count of every attribute; offsets and the stride follow from the counts.
//! What is declared to the device and what is written into the vertex buffer
//! come from the same counts, so the two cannot drift apart.

use vstd::prelude::*;
use crate::command::Command;

verus! {

/// The size of one component in bytes.
pub const COMPONENT_BYTES: usize = 4;

/// The greatest number of attributes in a layout.
pub const MAX_ATTRIBUTES: usize = 16;

/// The number of words in front of attribute `slot`: the sum of the component
/// counts of the attributes before it.
pub open spec fn words_before(components: Seq<u32>, slot: int) -> int
    decreases slot,
{
    if slot <= 0 {
        0
    } else {
        words_before(components, slot - 1) + components[slot - 1] as int
    }
}

/// The number of words in one record.
pub open spec fn record_len(components: Seq<u32>) -> int {
    words_before(components, components.len() as int)
}

/// The distance in bytes between two records that follow each other.
pub open spec fn stride_bytes(components: Seq<u32>) -> int {
    4 * record_len(components)
}

/// The offset in bytes of attribute `slot` within a record.
pub open spec fn offset_bytes(components: Seq<u32>, slot: int) -> int {
    4 * words_before(components, slot)
}

/// At most sixteen attributes, of one to four components each.
pub open spec fn valid_layout(components: Seq<u32>) -> bool {
    &&& components.len() <= MAX_ATTRIBUTES
    &&& forall|i: int| 0 <= i < components.len() ==> 1 <= #[trigger] components[i] <= 4
}

/// What declares a layout to the device: a pointer for every attribute, in
/// the order of the slots, and after them the switch that enables each.
pub open spec fn layout_commands(components: Seq<u32>) -> Seq<Command> {
    let n = components.len() as int;
    Seq::new(
        (2 * n) as nat,
        |i: int|
            if i < n {
                Command::VertexAttribPointer {
                    slot: i as u32,
                    components: components[i],
                    stride: stride_bytes(components) as usize,
                    offset: offset_bytes(components, i) as usize,
                }
            } else {
                Command::EnableVertexAttribArray { slot: (i - n) as u32 }
            },
    )
}

/// In a valid layout no attribute starts beyond four words per slot before it.
pub proof fn lemma_words_before_bounds(components: Seq<u32>, slot: int)
    requires
        valid_layout(components),
        0 <= slot <= components.len(),
    ensures
        slot <= words_before(components, slot) <= 4 * slot,
    decreases slot,
{
    if slot > 0 {
        lemma_words_before_bounds(components, slot - 1);
    }
}

/// Every attribute of a valid layout lies inside the record: it ends where
/// the next one starts, and the last one ends at the stride.
pub proof fn lemma_attribute_inside_record(components: Seq<u32>, slot: int)
    requires
        valid_layout(components),
        0 <= slot < components.len(),
    ensures
        offset_bytes(components, slot) + 4 * components[slot] == offset_bytes(
            components,
            slot + 1,
        ),
        0 <= offset_bytes(components, slot) < offset_bytes(components, slot + 1) <= stride_bytes(
            components,
        ),
    decreases components.len() - slot,
{
    lemma_words_before_bounds(components, slot);
    if slot + 1 < components.len() {
        lemma_attribute_inside_record(components, slot + 1);
    }
}

/// The component counts of the attributes of a vertex record, by slot.
pub struct VertexLayout {
    components: Vec<u32>,
}

impl View for VertexLayout {
    type V = Seq<u32>;

    closed spec fn view(&self) -> Seq<u32> {
        self.components@
    }
}

impl VertexLayout {
    /// Every layout that this type hands out is valid.
    pub open spec fn wf(&self) -> bool {
        valid_layout(self@)
    }

    /// The layout with these component counts, if they make a valid one.
    pub fn new(components: Vec<u32>) -> (layout: Option<VertexLayout>)
        ensures
            layout is Some <==> valid_layout(components@),
            layout matches Some(l) ==> l@ == components@ && l.wf(),
    {
        if components.len() > MAX_ATTRIBUTES {
            return None;
        }
        let mut i: usize = 0;
        while i < components.len()
            invariant
                i <= components.len(),
                forall|j: int| 0 <= j < i ==> 1 <= #[trigger] components@[j] <= 4,
            decreases components.len() - i,
        {
            if components[i] < 1 || components[i] > 4 {
                return None;
            }
            i += 1;
        }
        Some(VertexLayout { components })
    }

    /// The number of attributes.
    pub fn len(&self) -> (n: usize)
        ensures
            n == self@.len(),
    {
        self.components.len()
    }

    /// The component count of attribute `slot`.
    pub fn components(&self, slot: usize) -> (count: u32)
        requires
            slot < self@.len(),
        ensures
            count == self@[slot as int],
    {
        self.components[slot]
    }

    /// The offset in bytes of attribute `slot`; with `slot` the number of
    /// attributes, the size of the record.
    pub fn offset(&self, slot: usize) -> (bytes: usize)
        requires
            self.wf(),
            slot <= self@.len(),
        ensures
            bytes == offset_bytes(self@, slot as int),
            bytes <= 16 * slot,
    {
        let mut words: usize = 0;
        let mut i: usize = 0;
        while i < slot
            invariant
                i <= slot <= self.components@.len(),
                valid_layout(self.components@),
                words == words_before(self.components@, i as int),
            decreases slot - i,
        {
            proof {
                lemma_words_before_bounds(self.components@, i as int);
            }
            let count: u32 = self.components[i];
            words = words + count as usize;
            i += 1;
        }
        proof {
            lemma_words_before_bounds(self.components@, slot as int);
        }
        COMPONENT_BYTES * words
    }

    /// The distance in bytes between two records: what every attribute
    /// pointer of this layout declares as its stride.
    pub fn stride(&self) -> (bytes: usize)
        requires
            self.wf(),
        ensures
            bytes == stride_bytes(self@),
            bytes <= 256,
    {
        self.offset(self.components.len())
    }

    /// The commands that declare this layout for the bound vertex buffer.
    /// They hold no state of their own and may be issued for any number of
    /// meshes.
    pub fn commands(&self) -> (commands: Vec<Command>)
        requires
            self.wf(),
        ensures
            commands@ == layout_commands(self@),
    {
        let n: usize = self.components.len();
        let stride: usize = self.stride();
        let mut commands: Vec<Command> = Vec::new();
        let mut i: usize = 0;
        while i < n
            invariant
                i <= n,
                n == self.components@.len(),
                self.wf(),
                stride == stride_bytes(self@),
                commands@.len() == i,
                forall|j: int| 0 <= j < i ==> commands@[j] == layout_commands(self@)[j],
            decreases n - i,
        {
            let offset: usize = self.offset(i);
            commands.push(
                Command::VertexAttribPointer {
                    slot: i as u32,
                    components: self.components[i],
                    stride,
                    offset,
                },
            );
            i += 1;
        }
        let mut k: usize = 0;
        while k < n
            invariant
                k <= n,
                n == self.components@.len(),
                n <= MAX_ATTRIBUTES,
                commands@.len() == n + k,
                forall|j: int| 0 <= j < n + k ==> commands@[j] == layout_commands(self@)[j],
            decreases n - k,
        {
            commands.push(Command::EnableVertexAttribArray { slot: k as u32 });
            k += 1;
        }
        assert(commands@ =~= layout_commands(self@));
        commands
    }
}

/// The words of the first `slots` attributes, one attribute after the other.
pub open spec fn attribute_words(attributes: Seq<Seq<u32>>, slots: int) -> Seq<u32>
    decreases slots,
{
    if slots <= 0 {
        Seq::empty()
    } else {
        attribute_words(attributes, slots - 1) + attributes[slots - 1]
    }
}

/// The attributes are those of the layout: as many, and each as long as the
/// layout says.
pub open spec fn matches_layout(attributes: Seq<Seq<u32>>, components: Seq<u32>) -> bool {
    &&& attributes.len() == components.len()
    &&& forall|slot: int|
        0 <= slot < components.len() ==> (#[trigger] attributes[slot]).len() == components[slot]
}

/// A vertex record that can be uploaded: it names its layout and writes its
/// words in the order of that layout.
pub trait Vertex: Sized {
    /// The component counts of the attributes, by slot.
    spec fn spec_components() -> Seq<u32>;

    /// The words of each attribute, by slot.
    spec fn spec_attributes(&self) -> Seq<Seq<u32>>;

    /// The layout is valid and the attributes of every record are those of the
    /// layout.
    proof fn lemma_attributes(&self)
        ensures
            valid_layout(Self::spec_components()),
            matches_layout(self.spec_attributes(), Self::spec_components()),
    ;

    /// The layout of the record.
    fn layout() -> (layout: VertexLayout)
        ensures
            layout@ == Self::spec_components(),
            layout.wf(),
    ;

    /// Appends the words of the record, attribute after attribute.
    fn write_words(&self, out: &mut Vec<u32>)
        ensures
            final(out)@ == old(out)@ + attribute_words(
                self.spec_attributes(),
                self.spec_attributes().len() as int,
            ),
    ;

    /// The commands that declare the layout of the record for the bound vertex
    /// buffer: the attribute pointers, and the switches that enable them.
    fn set_vertex_attrib_pointer() -> (commands: Vec<Command>)
        ensures
            commands@ == layout_commands(Self::spec_components()),
    ;
}

/// The words of a record as they stand in the vertex buffer.
pub open spec fn record_words<T: Vertex>(vertex: &T) -> Seq<u32> {
    attribute_words(vertex.spec_attributes(), vertex.spec_attributes().len() as int)
}

/// The words of a run of records: the vertex buffer.
pub open spec fn packed_words<T: Vertex>(vertices: Seq<T>) -> Seq<u32>
    decreases vertices.len(),
{
    if vertices.len() == 0 {
        Seq::empty()
    } else {
        packed_words(vertices.drop_last()) + record_words(&vertices.last())
    }
}

/// The first attributes fill exactly the words in front of the next one.
pub proof fn lemma_attribute_words_len(
    attributes: Seq<Seq<u32>>,
    components: Seq<u32>,
    slots: int,
)
    requires
        matches_layout(attributes, components),
        0 <= slots <= components.len(),
    ensures
        attribute_words(attributes, slots).len() == words_before(components, slots),
    decreases slots,
{
    if slots > 0 {
        lemma_attribute_words_len(attributes, components, slots - 1);
    }
}

/// The words of the first attributes are a prefix of the words of more.
pub proof fn lemma_attribute_words_prefix(attributes: Seq<Seq<u32>>, a: int, b: int)
    requires
        0 <= a <= b,
    ensures
        attribute_words(attributes, a).len() <= attribute_words(attributes, b).len(),
        attribute_words(attributes, b).subrange(0, attribute_words(attributes, a).len() as int)
            == attribute_words(attributes, a),
    decreases b,
{
    if a < b {
        lemma_attribute_words_prefix(attributes, a, b - 1);
    }
    assert(attribute_words(attributes, b).subrange(
        0,
        attribute_words(attributes, a).len() as int,
    ) =~= attribute_words(attributes, a));
}

/// A record is as long as its layout says: its size in bytes is the stride
/// that the attribute pointers declare.
pub proof fn lemma_record_len<T: Vertex>(vertex: &T)
    ensures
        record_words(vertex).len() == record_len(T::spec_components()),
        4 * record_words(vertex).len() == stride_bytes(T::spec_components()),
{
    vertex.lemma_attributes();
    lemma_attribute_words_len(
        vertex.spec_attributes(),
        T::spec_components(),
        T::spec_components().len() as int,
    );
}

/// Within a record, every component of attribute `slot` stands at the offset
/// that the layout declares for the attribute.
pub proof fn lemma_attribute_at_offset<T: Vertex>(vertex: &T, slot: int, component: int)
    requires
        0 <= slot < T::spec_components().len(),
        0 <= component < T::spec_components()[slot],
    ensures
        0 <= words_before(T::spec_components(), slot) + component < record_words(vertex).len(),
        record_words(vertex)[words_before(T::spec_components(), slot) + component]
            == vertex.spec_attributes()[slot][component],
{
    let n = T::spec_components().len() as int;
    let attributes = vertex.spec_attributes();
    vertex.lemma_attributes();
    lemma_attribute_words_len(attributes, T::spec_components(), slot);
    lemma_attribute_words_len(attributes, T::spec_components(), slot + 1);
    lemma_attribute_words_len(attributes, T::spec_components(), n);
    lemma_attribute_words_prefix(attributes, slot + 1, n);
    let at = words_before(T::spec_components(), slot) + component;
    assert(attribute_words(attributes, n).subrange(
        0,
        attribute_words(attributes, slot + 1).len() as int,
    )[at] == attribute_words(attributes, n)[at]);
}

/// A buffer of records is as long as their number times the record length.
pub proof fn lemma_packed_len<T: Vertex>(vertices: Seq<T>)
    ensures
        packed_words(vertices).len() == vertices.len() * record_len(T::spec_components()),
    decreases vertices.len(),
{
    if vertices.len() > 0 {
        lemma_packed_len(vertices.drop_last());
        lemma_record_len(&vertices.last());
        assert(vertices.len() * record_len(T::spec_components()) == (vertices.len() - 1)
            * record_len(T::spec_components()) + record_len(T::spec_components()))
            by (nonlinear_arith);
    }
}

/// The layout contract of a vertex buffer: component `component` of attribute
/// `slot` of record `index` stands `index` strides into the buffer, at the
/// offset that the layout declares for the attribute.
pub proof fn lemma_packed_layout<T: Vertex>(
    vertices: Seq<T>,
    index: int,
    slot: int,
    component: int,
)
    requires
        0 <= index < vertices.len(),
        0 <= slot < T::spec_components().len(),
        0 <= component < T::spec_components()[slot],
    ensures
        0 <= index * record_len(T::spec_components()) + words_before(T::spec_components(), slot)
            + component < packed_words(vertices).len(),
        packed_words(vertices)[index * record_len(T::spec_components()) + words_before(
            T::spec_components(),
            slot,
        ) + component] == vertices[index].spec_attributes()[slot][component],
    decreases vertices.len(),
{
    let stride = record_len(T::spec_components());
    let front = vertices.drop_last();
    lemma_packed_len(front);
    lemma_packed_len(vertices);
    lemma_record_len(&vertices.last());
    if index == vertices.len() - 1 {
        lemma_attribute_at_offset(&vertices.last(), slot, component);
    } else {
        lemma_packed_layout(front, index, slot, component);
        lemma_attribute_at_offset(&vertices[index], slot, component);
        lemma_record_len(&vertices[index]);
        assert((index + 1) * stride <= front.len() * stride) by (nonlinear_arith)
            requires
                index + 1 <= front.len(),
                stride >= 0,
        ;
        assert((index + 1) * stride == index * stride + stride) by (nonlinear_arith);
    }
}

/// Appends the words of an array.
fn push_words<const N: usize>(out: &mut Vec<u32>, words: &[u32; N])
    ensures
        final(out)@ == old(out)@ + words@,
{
    let mut i: usize = 0;
    while i < N
        invariant
            i <= N,
            words@.len() == N,
            out@ == old(out)@ + words@.subrange(0, i as int),
        decreases N - i,
    {
        out.push(words[i]);
        i += 1;
        assert(out@ =~= old(out)@ + words@.subrange(0, i as int));
    }
    assert(words@.subrange(0, N as int) =~= words@);
}

/// The vertex of a lit, textured mesh: 14 words, 56 bytes.
#[derive(Clone, Copy, Debug, PartialEq, Eq)]
pub struct MeshVertex {
    pub position: [u32; 3],
    pub uv: [u32; 2],
    pub normal: [u32; 3],
    pub tangent: [u32; 3],
    pub bitangent: [u32; 3],
}

impl MeshVertex {
    pub fn new(
        position: [u32; 3],
        uv: [u32; 2],
        normal: [u32; 3],
        tangent: [u32; 3],
        bitangent: [u32; 3],
    ) -> (vertex: MeshVertex)
        ensures
            vertex == (MeshVertex { position, uv, normal, tangent, bitangent }),
    {
        MeshVertex { position, uv, normal, tangent, bitangent }
    }
}

impl Vertex for MeshVertex {
    /// Position, texture coordinates, normal, tangent and bitangent.
    open spec fn spec_components() -> Seq<u32> {
        seq![3u32, 2u32, 3u32, 3u32, 3u32]
    }

    open spec fn spec_attributes(&self) -> Seq<Seq<u32>> {
        seq![self.position@, self.uv@, self.normal@, self.tangent@, self.bitangent@]
    }

    proof fn lemma_attributes(&self) {
    }

    fn layout() -> (layout: VertexLayout) {
        let components: Vec<u32> = vec![3, 2, 3, 3, 3];
        assert(components@ =~= Self::spec_components());
        assert(valid_layout(components@));
        VertexLayout::new(components).unwrap()
    }

    fn write_words(&self, out: &mut Vec<u32>) {
        push_words(out, &self.position);
        push_words(out, &self.uv);
        push_words(out, &self.normal);
        push_words(out, &self.tangent);
        push_words(out, &self.bitangent);
        proof {
            reveal_with_fuel(attribute_words, 6);
            assert(out@ =~= old(out)@ + attribute_words(self.spec_attributes(), 5));
        }
    }

    fn set_vertex_attrib_pointer() -> (commands: Vec<Command>) {
        Self::layout().commands()
    }
}

/// The vertex of the skybox: a position, 3 words, 12 bytes.
#[derive(Clone, Copy, Debug, PartialEq, Eq)]
pub struct SkyboxVertex {
    pub position: [u32; 3],
}

impl SkyboxVertex {
    pub fn new(position: [u32; 3]) -> (vertex: SkyboxVertex)
        ensures
            vertex == (SkyboxVertex { position }),
    {
        SkyboxVertex { position }
    }
}

impl Vertex for SkyboxVertex {
    open spec fn spec_components() -> Seq<u32> {
        seq![3u32]
    }

    open spec fn spec_attributes(&self) -> Seq<Seq<u32>> {
        seq![self.position@]
    }

    proof fn lemma_attributes(&self) {
    }

    fn layout() -> (layout: VertexLayout) {
        let components: Vec<u32> = vec![3];
        assert(components@ =~= Self::spec_components());
        assert(valid_layout(components@));
        VertexLayout::new(components).unwrap()
    }

    fn write_words(&self, out: &mut Vec<u32>) {
        push_words(out, &self.position);
        proof {
            reveal_with_fuel(attribute_words, 2);
            assert(out@ =~= old(out)@ + attribute_words(self.spec_attributes(), 1));
        }
    }

    fn set_vertex_attrib_pointer() -> (commands: Vec<Command>) {
        Self::layout().commands()
    }
}

} // verus!
