//! Models: meshes with the materials that they are drawn with.

use vstd::prelude::*;
use crate::command::{planned, Command};
use crate::material::Material;
use crate::mesh::vertex::packed_words;
use crate::mesh::{draw_commands, release_commands, upload_commands, Mesh, MeshVertex, Vertex};
use crate::texture::Texture;
use crate::resources::{absolute_path, directory_of, ResourceLoader};
use crate::shader::program::LocatedUniform;

verus! {

/// What a material needs for a draw beyond itself: the locations that the
/// device reported for its samplers, and the other uniforms with theirs.
#[derive(Debug)]
pub struct MaterialUniforms<'a> {
    pub diffuse_location: i32,
    pub normal_location: i32,
    pub uniforms: Vec<LocatedUniform<'a>>,
}

/// Meshes, each with the index of its material.
#[derive(Debug)]
pub struct Model<'a> {
    pub meshes: Vec<(Mesh, i32)>,
    pub materials: Vec<Material<'a>>,
}

/// The release of a texture: it is deleted unless it has been before.
pub open spec fn texture_release(texture: Texture) -> Seq<Command> {
    if texture.released {
        Seq::empty()
    } else {
        seq![Command::DeleteTexture { texture: texture.id }]
    }
}

/// The release of the first `count` meshes, in order.
pub open spec fn meshes_release(meshes: Seq<(Mesh, i32)>, count: int) -> Seq<Command>
    decreases count,
{
    if count <= 0 {
        Seq::empty()
    } else {
        meshes_release(meshes, count - 1) + release_commands(
            meshes[count - 1].0.vao,
            meshes[count - 1].0.vbo,
            meshes[count - 1].0.ebo,
        )
    }
}

/// The release of the textures of the first `count` materials, in order, the
/// colour texture of each before its normal texture.
pub open spec fn materials_release(materials: Seq<Material>, count: int) -> Seq<Command>
    decreases count,
{
    if count <= 0 {
        Seq::empty()
    } else {
        materials_release(materials, count - 1) + texture_release(materials[count - 1].base_color)
            + texture_release(materials[count - 1].normal)
    }
}

impl<'a> Model<'a> {
    /// Every mesh names a material that the model has.
    pub open spec fn wf(&self) -> bool {
        forall|i: int|
            0 <= i < self.meshes@.len() ==> 0 <= (#[trigger] self.meshes@[i]).1
                < self.materials@.len()
    }

    /// What drawing the first `count` meshes comes to: for each in order its
    /// material is made the current one and the mesh is drawn, or the first
    /// uniform that a program lacks is reported.
    pub open spec fn draw_result(&self, uniforms: Seq<MaterialUniforms>, count: int) -> Result<
        Seq<Command>,
        Seq<char>,
    >
        decreases count,
    {
        if count <= 0 {
            Ok(Seq::empty())
        } else {
            match self.draw_result(uniforms, count - 1) {
                Err(message) => Err(message),
                Ok(before) => {
                    let (mesh, material) = self.meshes@[count - 1];
                    match self.materials@[material as int].use_material_result(
                        uniforms[material as int].uniforms@,
                        uniforms[material as int].diffuse_location,
                        uniforms[material as int].normal_location,
                    ) {
                        Err(message) => Err(message),
                        Ok(used) => Ok(
                            before + used + draw_commands(
                                mesh.vao,
                                mesh.vbo,
                                mesh.ebo,
                                mesh.indices@.len() as int,
                            ),
                        ),
                    }
                },
            }
        }
    }

    pub fn new(meshes: Vec<(Mesh, i32)>, materials: Vec<Material<'a>>) -> (model: Model<'a>)
        ensures
            model.meshes == meshes,
            model.materials == materials,
    {
        Model { meshes, materials }
    }

    /// Gives the model up and hands out the commands that delete its meshes
    /// and the textures of its materials on the device; the programs of the
    /// materials are not the model's to delete. The model is gone with the
    /// call, so that each object is deleted once.
    pub fn release(self) -> (commands: Vec<Command>)
        ensures
            commands@ == meshes_release(self.meshes@, self.meshes@.len() as int)
                + materials_release(self.materials@, self.materials@.len() as int),
    {
        let mut commands: Vec<Command> = Vec::new();
        let mut i: usize = 0;
        while i < self.meshes.len()
            invariant
                i <= self.meshes@.len(),
                commands@ == meshes_release(self.meshes@, i as int),
            decreases self.meshes@.len() - i,
        {
            let mesh = &self.meshes[i].0;
            commands.push(Command::DeleteVertexArray { vao: mesh.vao });
            commands.push(Command::DeleteBuffer { buffer: mesh.vbo });
            commands.push(Command::DeleteBuffer { buffer: mesh.ebo });
            i += 1;
            assert(commands@ =~= meshes_release(self.meshes@, i as int));
        }
        let ghost gone = commands@;
        let mut k: usize = 0;
        while k < self.materials.len()
            invariant
                k <= self.materials@.len(),
                commands@ == gone + materials_release(self.materials@, k as int),
            decreases self.materials@.len() - k,
        {
            let material = &self.materials[k];
            if !material.base_color.released {
                commands.push(Command::DeleteTexture { texture: material.base_color.id });
            }
            if !material.normal.released {
                commands.push(Command::DeleteTexture { texture: material.normal.id });
            }
            k += 1;
            assert(commands@ =~= gone + materials_release(self.materials@, k as int));
        }
        commands
    }

    /// The commands that draw the model: mesh after mesh, each with its
    /// material. `uniforms` holds for every material of the model, at the
    /// index of the material, what its draw needs.
    pub fn draw(&self, uniforms: &Vec<MaterialUniforms>) -> (result: Result<Vec<Command>, String>)
        requires
            self.wf(),
            uniforms@.len() == self.materials@.len(),
        ensures
            planned(result) == self.draw_result(uniforms@, self.meshes@.len() as int),
    {
        let mut commands: Vec<Command> = Vec::new();
        let mut i: usize = 0;
        while i < self.meshes.len()
            invariant
                i <= self.meshes@.len(),
                self.wf(),
                uniforms@.len() == self.materials@.len(),
                self.draw_result(uniforms@, i as int) == Ok::<Seq<Command>, Seq<char>>(commands@),
            decreases self.meshes@.len() - i,
        {
            let mesh = &self.meshes[i].0;
            let index: usize = self.meshes[i].1 as usize;
            let material = &self.materials[index];
            let needed = &uniforms[index];
            match material.use_material(
                &needed.uniforms,
                needed.diffuse_location,
                needed.normal_location,
            ) {
                Err(message) => {
                    proof {
                        self.lemma_draw_fails(uniforms@, i + 1, self.meshes@.len() as int);
                    }
                    return Err(message);
                },
                Ok(mut used) => {
                    let mut drawn = mesh.draw();
                    commands.append(&mut used);
                    commands.append(&mut drawn);
                },
            }
            i += 1;
        }
        Ok(commands)
    }

    /// A draw that has failed stays failed, with the same report, however
    /// many meshes follow.
    proof fn lemma_draw_fails(&self, uniforms: Seq<MaterialUniforms>, failed: int, count: int)
        requires
            0 <= failed <= count,
            self.draw_result(uniforms, failed) is Err,
        ensures
            self.draw_result(uniforms, count) == self.draw_result(uniforms, failed),
        decreases count,
    {
        if failed < count {
            self.lemma_draw_fails(uniforms, failed, count - 1);
        }
    }
}

/// Where a model file keeps one of its buffers.
#[derive(Debug, PartialEq, Eq)]
pub enum BufferSource {
    /// In the file of this name, as seen from the directory of the model.
    Uri(String),
    /// In the binary part of the model file itself.
    Bin,
}

/// Where a model file keeps one of its images.
#[derive(Debug, PartialEq, Eq)]
pub enum ImageSource {
    /// In the file of this name, as seen from the directory of the model.
    Uri(String),
    /// In one of the buffers of the model.
    View,
}

/// Where the bytes of a buffer are to be taken from.
#[derive(Debug, PartialEq, Eq)]
pub enum BufferRequest {
    /// The file at this path.
    File(String),
    /// The binary part of the model file.
    Blob,
}

/// A request as values.
pub enum RequestView {
    File(Seq<char>),
    Blob,
}

impl View for BufferRequest {
    type V = RequestView;

    open spec fn view(&self) -> RequestView {
        match *self {
            BufferRequest::File(path) => RequestView::File(path@),
            BufferRequest::Blob => RequestView::Blob,
        }
    }
}

/// The requests for the first `count` buffers of a model, in order. A buffer
/// in a file is requested at the path of that file beside the model. A
/// buffer in the binary part is requested from it if the model has one, and
/// is passed over if it has none.
pub open spec fn buffer_requests(
    root: Seq<char>,
    resource_path: Seq<char>,
    sources: Seq<BufferSource>,
    has_blob: bool,
    count: int,
) -> Seq<RequestView>
    decreases count,
{
    if count <= 0 {
        Seq::empty()
    } else {
        let before = buffer_requests(root, resource_path, sources, has_blob, count - 1);
        match sources[count - 1] {
            BufferSource::Uri(uri) => before.push(
                RequestView::File(
                    absolute_path(absolute_path(root, directory_of(resource_path)), uri@),
                ),
            ),
            BufferSource::Bin => if has_blob {
                before.push(RequestView::Blob)
            } else {
                before
            },
        }
    }
}

/// The attributes of one primitive of a mesh as they are read from a model
/// file, each a list with an entry for every vertex, and its indices.
#[derive(Debug)]
pub struct Primitive {
    pub positions: Vec<[u32; 3]>,
    pub uvs: Vec<[u32; 2]>,
    pub normals: Vec<[u32; 3]>,
    /// Tangents, with the sign of the bitangent as their fourth word.
    pub tangents: Vec<[u32; 4]>,
    pub bitangents: Vec<[u32; 3]>,
    pub indices: Vec<u32>,
}

/// The primitives of one mesh of a model file and the objects on the device
/// that the mesh goes into.
#[derive(Debug)]
pub struct MeshSource {
    pub vao: u32,
    pub vbo: u32,
    pub ebo: u32,
    pub primitives: Vec<Primitive>,
}

/// What brings one mesh of a model onto the device. The indices are those of
/// the mesh.
#[derive(Debug)]
pub struct MeshData {
    /// The vertex buffer: the data of `DataSource::Vertices`.
    pub vertices: Vec<u32>,
    pub commands: Vec<Command>,
}

/// A model with what brings its meshes onto the device.
#[derive(Debug)]
pub struct ModelUpload<'a> {
    pub model: Model<'a>,
    /// For every mesh of the model, in order, its upload.
    pub uploads: Vec<MeshData>,
}

/// The smaller of two numbers.
pub open spec fn least(a: int, b: int) -> int {
    if a <= b {
        a
    } else {
        b
    }
}

impl Primitive {
    /// The number of vertices: that of the shortest list of attributes.
    pub open spec fn vertex_count(&self) -> int {
        least(
            least(self.positions@.len() as int, self.uvs@.len() as int),
            least(
                least(self.normals@.len() as int, self.tangents@.len() as int),
                self.bitangents@.len() as int,
            ),
        )
    }

    /// Vertex `i`: the entries at `i` of all the lists, the tangent without
    /// its sign.
    pub open spec fn vertex(&self, i: int) -> MeshVertex {
        MeshVertex {
            position: self.positions@[i],
            uv: self.uvs@[i],
            normal: self.normals@[i],
            tangent: [self.tangents@[i][0], self.tangents@[i][1], self.tangents@[i][2]],
            bitangent: self.bitangents@[i],
        }
    }

    /// The vertices of the primitive.
    pub open spec fn vertices(&self) -> Seq<MeshVertex> {
        Seq::new(self.vertex_count() as nat, |i: int| self.vertex(i))
    }
}

/// An index as the signed number with the same 32 bits.
pub open spec fn as_signed(index: u32) -> i32 {
    if index <= i32::MAX {
        index as i32
    } else {
        (index - 0x1_0000_0000) as i32
    }
}

/// The indices of a primitive as signed numbers.
pub open spec fn signed_indices(primitive: &Primitive) -> Seq<i32> {
    Seq::new(primitive.indices@.len(), |i: int| as_signed(primitive.indices@[i]))
}

/// The vertices of the first `count` primitives, one primitive after the
/// other.
pub open spec fn mesh_vertices(primitives: Seq<Primitive>, count: int) -> Seq<MeshVertex>
    decreases count,
{
    if count <= 0 {
        Seq::empty()
    } else {
        mesh_vertices(primitives, count - 1) + primitives[count - 1].vertices()
    }
}

/// The indices of the first `count` primitives, one primitive after the
/// other, each index as it stands in its primitive.
pub open spec fn mesh_indices(primitives: Seq<Primitive>, count: int) -> Seq<i32>
    decreases count,
{
    if count <= 0 {
        Seq::empty()
    } else {
        mesh_indices(primitives, count - 1) + signed_indices(&primitives[count - 1])
    }
}

/// The signed number with the same 32 bits as `index`.
pub fn signed_index(index: u32) -> (signed: i32)
    ensures
        signed == as_signed(index),
{
    if index <= 0x7fff_ffff {
        index as i32
    } else {
        ((index - 0x8000_0000) as i32) + i32::MIN
    }
}

/// The smaller of two lengths.
fn shorter(a: usize, b: usize) -> (least: usize)
    ensures
        least == self::least(a as int, b as int),
{
    if a <= b {
        a
    } else {
        b
    }
}

/// Gathers the vertices and the indices of the primitives of a mesh.
pub fn assemble_mesh(primitives: &Vec<Primitive>) -> (gathered: (Vec<MeshVertex>, Vec<i32>))
    ensures
        gathered.0@ == mesh_vertices(primitives@, primitives@.len() as int),
        gathered.1@ == mesh_indices(primitives@, primitives@.len() as int),
{
    let mut vertices: Vec<MeshVertex> = Vec::new();
    let mut indices: Vec<i32> = Vec::new();
    let mut p: usize = 0;
    while p < primitives.len()
        invariant
            p <= primitives@.len(),
            vertices@ == mesh_vertices(primitives@, p as int),
            indices@ == mesh_indices(primitives@, p as int),
        decreases primitives@.len() - p,
    {
        let primitive = &primitives[p];
        let count: usize = shorter(
            shorter(primitive.positions.len(), primitive.uvs.len()),
            shorter(
                shorter(primitive.normals.len(), primitive.tangents.len()),
                primitive.bitangents.len(),
            ),
        );
        let ghost before = vertices@;
        let mut i: usize = 0;
        while i < count
            invariant
                i <= count,
                count == primitive.vertex_count(),
                vertices@ == before + primitive.vertices().take(i as int),
            decreases count - i,
        {
            let tangent = &primitive.tangents[i];
            let vertex = MeshVertex::new(
                primitive.positions[i],
                primitive.uvs[i],
                primitive.normals[i],
                [tangent[0], tangent[1], tangent[2]],
                primitive.bitangents[i],
            );
            proof {
                assert(vertex.tangent =~= primitive.vertex(i as int).tangent);
                assert(vertex == primitive.vertex(i as int));
            }
            vertices.push(vertex);
            i += 1;
            assert(vertices@ =~= before + primitive.vertices().take(i as int));
        }
        assert(primitive.vertices().take(count as int) =~= primitive.vertices());
        let ghost listed = indices@;
        let mut k: usize = 0;
        while k < primitive.indices.len()
            invariant
                k <= primitive.indices@.len(),
                indices@ == listed + signed_indices(primitive).take(k as int),
            decreases primitive.indices@.len() - k,
        {
            indices.push(signed_index(primitive.indices[k]));
            k += 1;
            assert(indices@ =~= listed + signed_indices(primitive).take(k as int));
        }
        assert(signed_indices(primitive).take(primitive.indices@.len() as int)
            =~= signed_indices(primitive));
        p += 1;
    }
    (vertices, indices)
}

/// The mesh of a source is uploaded as `data`, and is `mesh` with the first
/// material of the model.
pub open spec fn uploaded(source: &MeshSource, mesh: (Mesh, i32), data: &MeshData) -> bool {
    let vertices = mesh_vertices(source.primitives@, source.primitives@.len() as int);
    let indices = mesh_indices(source.primitives@, source.primitives@.len() as int);
    &&& mesh.1 == 0
    &&& mesh.0.vao == source.vao
    &&& mesh.0.vbo == source.vbo
    &&& mesh.0.ebo == source.ebo
    &&& mesh.0.indices@ == indices
    &&& data.vertices@ == packed_words(vertices)
    &&& data.commands@ == upload_commands(
        source.vao,
        source.vbo,
        source.ebo,
        MeshVertex::spec_components(),
        vertices.len() as int,
        indices.len() as int,
    )
}

impl ResourceLoader {
    /// Where the bytes of the buffers of the model `resource_path` are to be
    /// taken from, in the order in which the model counts its buffers.
    pub fn buffer_requests(
        &self,
        resource_path: &str,
        sources: &Vec<BufferSource>,
        has_blob: bool,
    ) -> (requests: Vec<BufferRequest>)
        ensures
            requests@.map_values(|r: BufferRequest| r@) == buffer_requests(
                self.root(),
                resource_path@,
                sources@,
                has_blob,
                sources@.len() as int,
            ),
    {
        let mut requests: Vec<BufferRequest> = Vec::new();
        let mut i: usize = 0;
        while i < sources.len()
            invariant
                i <= sources@.len(),
                requests@.map_values(|r: BufferRequest| r@) == buffer_requests(
                    self.root(),
                    resource_path@,
                    sources@,
                    has_blob,
                    i as int,
                ),
            decreases sources@.len() - i,
        {
            let ghost before = requests@;
            match &sources[i] {
                BufferSource::Uri(uri) => {
                    let request = BufferRequest::File(
                        self.resolve_beside(resource_path, uri.as_str()),
                    );
                    requests.push(request);
                    assert(requests@.map_values(|r: BufferRequest| r@) =~= before.map_values(
                        |r: BufferRequest| r@,
                    ).push(request@));
                },
                BufferSource::Bin => {
                    if has_blob {
                        requests.push(BufferRequest::Blob);
                        assert(requests@.map_values(|r: BufferRequest| r@) =~= before.map_values(
                            |r: BufferRequest| r@,
                        ).push(RequestView::Blob));
                    }
                },
            }
            i += 1;
        }
        requests
    }

    /// The path of the file of an image of the model `resource_path`. An
    /// image that lies in a buffer of the model has no file and cannot be
    /// read.
    pub fn image_path(&self, resource_path: &str, source: &ImageSource) -> (path: Option<String>)
        ensures
            match *source {
                ImageSource::Uri(uri) => path is Some && path->Some_0@ == absolute_path(
                    absolute_path(self.root(), directory_of(resource_path@)),
                    uri@,
                ),
                ImageSource::View => path is None,
            },
    {
        match source {
            ImageSource::Uri(uri) => Some(self.resolve_beside(resource_path, uri.as_str())),
            ImageSource::View => None,
        }
    }

    /// Builds a model of the meshes read from a model file and plans their
    /// upload. Every mesh is made of all its primitives, one after the other,
    /// and is drawn with the first of `materials`.
    pub fn load_model<'a>(sources: &Vec<MeshSource>, materials: Vec<Material<'a>>) -> (upload:
        ModelUpload<'a>)
        ensures
            upload.model.materials == materials,
            upload.model.meshes@.len() == sources@.len(),
            upload.uploads@.len() == sources@.len(),
            forall|i: int|
                0 <= i < sources@.len() ==> uploaded(
                    #[trigger] &sources@[i],
                    upload.model.meshes@[i],
                    &upload.uploads@[i],
                ),
            materials@.len() > 0 ==> upload.model.wf(),
    {
        let mut meshes: Vec<(Mesh, i32)> = Vec::new();
        let mut uploads: Vec<MeshData> = Vec::new();
        let mut i: usize = 0;
        while i < sources.len()
            invariant
                i <= sources@.len(),
                meshes@.len() == i,
                uploads@.len() == i,
                forall|j: int|
                    0 <= j < i ==> uploaded(#[trigger] &sources@[j], meshes@[j], &uploads@[j]),
            decreases sources@.len() - i,
        {
            let source = &sources[i];
            let (vertices, indices) = assemble_mesh(&source.primitives);
            let planned = Mesh::create(source.vao, source.vbo, source.ebo, vertices, indices);
            meshes.push((planned.mesh, 0));
            uploads.push(MeshData { vertices: planned.vertices, commands: planned.commands });
            i += 1;
        }
        let model = Model::new(meshes, materials);
        proof {
            assert forall|j: int| 0 <= j < model.meshes@.len() implies (
            #[trigger] model.meshes@[j]).1 == 0 by {
                assert(uploaded(&sources@[j], model.meshes@[j], &uploads@[j]));
            }
        }
        ModelUpload { model, uploads }
    }
}

} // verus!
