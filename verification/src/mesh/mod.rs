//! Meshes: vertex and index data on the device.


pub mod primitives;
pub mod vertex;

pub use self::vertex::{MeshVertex, SkyboxVertex, Vertex, VertexLayout};

use vstd::prelude::*;
use crate::command::{BufferTarget, Command, DataSource};
use self::vertex::{layout_commands, packed_words, stride_bytes};

verus! {

/// Geometry on the device: the names of its vertex array, vertex buffer and
/// index buffer, and the indices that a draw walks.
#[derive(Debug, PartialEq, Eq)]
pub struct Mesh {
    pub indices: Vec<i32>,
    pub vao: u32,
    pub vbo: u32,
    pub ebo: u32,
}

/// A mesh with what brings it onto the device: the words of its vertex
/// buffer and the commands that upload them and the indices.
#[derive(Debug, PartialEq, Eq)]
pub struct MeshUpload {
    pub mesh: Mesh,
    /// The vertex buffer: the data of `DataSource::Vertices`.
    pub vertices: Vec<u32>,
    pub commands: Vec<Command>,
}

/// The upload of a mesh: both buffers are bound, sized to the byte and filled,
/// and the layout of the vertex record is declared.
pub open spec fn upload_commands(
    vao: u32,
    vbo: u32,
    ebo: u32,
    components: Seq<u32>,
    vertex_count: int,
    index_count: int,
) -> Seq<Command> {
    seq![
        Command::BindVertexArray { vao },
        Command::BindBuffer { target: BufferTarget::Array, buffer: vbo },
        Command::BufferData {
            target: BufferTarget::Array,
            size: (stride_bytes(components) * vertex_count) as usize,
            source: DataSource::Vertices,
        },
        Command::BindBuffer { target: BufferTarget::ElementArray, buffer: ebo },
        Command::BufferData {
            target: BufferTarget::ElementArray,
            size: (4 * index_count) as usize,
            source: DataSource::Indices,
        },
    ] + layout_commands(components)
}

/// The draw of a mesh: its three objects are bound and one indexed draw walks
/// all its indices.
pub open spec fn draw_commands(vao: u32, vbo: u32, ebo: u32, index_count: int) -> Seq<Command> {
    seq![
        Command::BindVertexArray { vao },
        Command::BindBuffer { target: BufferTarget::Array, buffer: vbo },
        Command::BindBuffer { target: BufferTarget::ElementArray, buffer: ebo },
        Command::DrawElements { count: index_count as usize },
    ]
}

/// The release of a mesh: its vertex array and both its buffers are deleted.
pub open spec fn release_commands(vao: u32, vbo: u32, ebo: u32) -> Seq<Command> {
    seq![
        Command::DeleteVertexArray { vao },
        Command::DeleteBuffer { buffer: vbo },
        Command::DeleteBuffer { buffer: ebo },
    ]
}

/// Of the commands of an upload exactly one fills the vertex buffer, with as
/// many bytes as the stride times the number of records, and every attribute
/// pointer declares that stride: the size of one record.
pub proof fn lemma_upload_sizes(
    vao: u32,
    vbo: u32,
    ebo: u32,
    components: Seq<u32>,
    vertex_count: int,
    index_count: int,
)
    requires
        vertex::valid_layout(components),
        0 <= vertex_count,
        0 <= index_count,
        stride_bytes(components) * vertex_count <= usize::MAX,
        4 * index_count <= usize::MAX,
    ensures
        ({
            let commands = upload_commands(vao, vbo, ebo, components, vertex_count, index_count);
            &&& forall|i: int|
                0 <= i < commands.len() ==> ((#[trigger] commands[i] matches Command::BufferData {
                    target: BufferTarget::Array,
                    ..
                }) <==> i == 2)
            &&& commands[2] matches Command::BufferData { size, source, .. } && size
                == stride_bytes(components) * vertex_count && source == DataSource::Vertices
            &&& forall|i: int|
                0 <= i < commands.len() ==> (#[trigger] commands[i] matches Command::VertexAttribPointer {
                    stride,
                    ..
                } ==> stride == stride_bytes(components))
        }),
{
    let commands = upload_commands(vao, vbo, ebo, components, vertex_count, index_count);
    vertex::lemma_words_before_bounds(components, components.len() as int);
    assert(stride_bytes(components) * vertex_count >= 0) by (nonlinear_arith)
        requires
            stride_bytes(components) >= 0,
            vertex_count >= 0,
    ;
    assert forall|i: int| 0 <= i < commands.len() implies ((#[trigger] commands[i] matches Command::BufferData {
        target: BufferTarget::Array,
        ..
    }) <==> i == 2) by {
        if i >= 5 {
            assert(commands[i] == layout_commands(components)[i - 5]);
        }
    }
    assert forall|i: int| 0 <= i < commands.len() implies (#[trigger] commands[i] matches Command::VertexAttribPointer {
        stride,
        ..
    } ==> stride == stride_bytes(components)) by {
        if i >= 5 {
            assert(commands[i] == layout_commands(components)[i - 5]);
        }
    }
}

impl Mesh {
    /// Plans the upload of `vertices` and `indices` into the objects `vao`,
    /// `vbo` and `ebo`, which the caller has made.
    ///
    /// The vertex buffer gets the records one after the other and is as many
    /// bytes long as the stride times their number; the index buffer is four
    /// bytes for each index. Both sizes fit the machine's `usize`, as the
    /// sizes of the data in memory do. Once the commands are issued the mesh
    /// can be drawn.
    pub fn create<T: Vertex>(
        vao: u32,
        vbo: u32,
        ebo: u32,
        vertices: Vec<T>,
        indices: Vec<i32>,
    ) -> (upload: MeshUpload)
        ensures
            stride_bytes(T::spec_components()) * vertices@.len() <= usize::MAX,
            4 * indices@.len() <= usize::MAX,
            upload.mesh == (Mesh { indices, vao, vbo, ebo }),
            upload.vertices@ == packed_words(vertices@),
            4 * upload.vertices@.len() == stride_bytes(T::spec_components()) * vertices@.len(),
            upload.commands@ == upload_commands(
                vao,
                vbo,
                ebo,
                T::spec_components(),
                vertices@.len() as int,
                indices@.len() as int,
            ),
    {
        let layout = T::layout();
        let mut words: Vec<u32> = Vec::new();
        let mut i: usize = 0;
        while i < vertices.len()
            invariant
                i <= vertices@.len(),
                words@ == packed_words(vertices@.take(i as int)),
            decreases vertices@.len() - i,
        {
            vertices[i].write_words(&mut words);
            proof {
                let next = vertices@.take(i + 1);
                assert(next.drop_last() =~= vertices@.take(i as int));
                assert(next.last() == vertices@[i as int]);
            }
            i += 1;
        }
        let vertex_bytes: usize = core::mem::size_of_val(words.as_slice());
        let index_bytes: usize = core::mem::size_of_val(indices.as_slice());
        proof {
            broadcast use vstd::layout::layout_of_slices, vstd::layout::layout_of_primitives;

            assert(vertices@.take(vertices@.len() as int) =~= vertices@);
            vertex::lemma_packed_len(vertices@);
            assert(4 * (vertices@.len() * vertex::record_len(T::spec_components()))
                == stride_bytes(T::spec_components()) * vertices@.len()) by (nonlinear_arith);
            assert(vertex_bytes == 4 * words@.len());
            assert(index_bytes == 4 * indices@.len());
        }
        let mut commands: Vec<Command> = vec![
            Command::BindVertexArray { vao },
            Command::BindBuffer { target: BufferTarget::Array, buffer: vbo },
            Command::BufferData {
                target: BufferTarget::Array,
                size: vertex_bytes,
                source: DataSource::Vertices,
            },
            Command::BindBuffer { target: BufferTarget::ElementArray, buffer: ebo },
            Command::BufferData {
                target: BufferTarget::ElementArray,
                size: index_bytes,
                source: DataSource::Indices,
            },
        ];
        let mut declare: Vec<Command> = layout.commands();
        commands.append(&mut declare);
        assert(commands@ =~= upload_commands(
            vao,
            vbo,
            ebo,
            T::spec_components(),
            vertices@.len() as int,
            indices@.len() as int,
        ));
        MeshUpload { mesh: Mesh { indices, vao, vbo, ebo }, vertices: words, commands }
    }

    /// Gives the mesh up and hands out the commands that delete its objects on
    /// the device. The mesh is gone with the call, so that they are deleted
    /// once.
    pub fn release(self) -> (commands: Vec<Command>)
        ensures
            commands@ == release_commands(self.vao, self.vbo, self.ebo),
    {
        vec![
            Command::DeleteVertexArray { vao: self.vao },
            Command::DeleteBuffer { buffer: self.vbo },
            Command::DeleteBuffer { buffer: self.ebo },
        ]
    }

    /// The commands that draw the mesh. Among them is exactly one indexed
    /// draw, and it asks for as many elements as the mesh has indices. The
    /// bindings that the commands make stay as they are afterwards.
    pub fn draw(&self) -> (commands: Vec<Command>)
        ensures
            commands@ == draw_commands(self.vao, self.vbo, self.ebo, self.indices@.len() as int),
            forall|i: int|
                0 <= i < commands@.len() ==> (#[trigger] commands@[i] is DrawElements <==> i == 3),
            commands@[3] == (Command::DrawElements { count: self.indices@.len() as usize }),
    {
        let commands: Vec<Command> = vec![
            Command::BindVertexArray { vao: self.vao },
            Command::BindBuffer { target: BufferTarget::Array, buffer: self.vbo },
            Command::BindBuffer { target: BufferTarget::ElementArray, buffer: self.ebo },
            Command::DrawElements { count: self.indices.len() },
        ];
        assert(commands@ =~= draw_commands(
            self.vao,
            self.vbo,
            self.ebo,
            self.indices@.len() as int,
        ));
        commands
    }
}

} // verus!
