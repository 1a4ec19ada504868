use render_core::command::{BufferTarget, Command, DataSource, Matrix4, TextureTarget};
use render_core::material::Material;
use render_core::mesh::primitives::{NEG_ONE, ONE};
use render_core::mesh::{Mesh, MeshVertex};
use render_core::model::{
    assemble_mesh, signed_index, BufferRequest, BufferSource, ImageSource, MaterialUniforms,
    MeshSource, Model, Primitive,
};
use render_core::resources::ResourceLoader;
use render_core::shader::program::LocatedUniform;
use render_core::shader::Program;
use render_core::skybox::{image_paths, Skybox, FRAGMENT_SHADER_PATH, VERTEX_SHADER_PATH};
use render_core::texture::{CubeMap, Texture};
use render_core::uniform::{AnyUniform, Uniform3f};

fn texture(id: u32) -> Texture {
    Texture { id, released: false }
}

fn primitive(first: u32, vertices: u32, indices: Vec<u32>) -> Primitive {
    let mut p = Primitive {
        positions: vec![],
        uvs: vec![],
        normals: vec![],
        tangents: vec![],
        bitangents: vec![],
        indices,
    };
    for i in first..first + vertices {
        p.positions.push([i, i + 1, i + 2]);
        p.uvs.push([i + 3, i + 4]);
        p.normals.push([i + 5, i + 6, i + 7]);
        p.tangents.push([i + 8, i + 9, i + 10, 99]);
        p.bitangents.push([i + 11, i + 12, i + 13]);
    }
    p
}

fn mesh(vao: u32, indices: usize) -> Mesh {
    Mesh { indices: vec![0; indices], vao, vbo: vao + 1, ebo: vao + 2 }
}

fn drawn(vao: u32, count: usize) -> Vec<Command> {
    vec![
        Command::BindVertexArray { vao },
        Command::BindBuffer { target: BufferTarget::Array, buffer: vao + 1 },
        Command::BindBuffer { target: BufferTarget::ElementArray, buffer: vao + 2 },
        Command::DrawElements { count },
    ]
}

fn used(program: u32, base: u32, normal: u32, diffuse_at: i32, normal_at: i32) -> Vec<Command> {
    vec![
        Command::UseProgram { program },
        Command::ActiveTexture { unit: 0 },
        Command::BindTexture { binding: TextureTarget::Texture2D, texture: base },
        Command::ActiveTexture { unit: 1 },
        Command::BindTexture { binding: TextureTarget::Texture2D, texture: normal },
        Command::Uniform1i { location: diffuse_at, value: 0 },
        Command::Uniform1i { location: normal_at, value: 1 },
    ]
}

#[test]
fn material_binds_its_textures_and_sets_its_samplers() {
    let program = Program { id: 3 };
    let material = Material::new(&program, texture(10), texture(11));
    assert_eq!(material.set_textures(4, 5), Ok(used(3, 10, 11, 4, 5)[1..].to_vec()));
}

#[test]
fn material_is_used_with_the_uniforms_of_the_draw() {
    let program = Program { id: 3 };
    let material = Material::new(&program, texture(10), texture(11));
    let uniforms = vec![LocatedUniform {
        uniform: AnyUniform::Vec3f(*Uniform3f::new("viewPos", [1, 2, 3])),
        location: 6,
    }];
    let mut expected = used(3, 10, 11, 4, 5);
    expected.push(Command::Uniform3f { location: 6, vector: [1, 2, 3] });
    assert_eq!(material.use_material(&uniforms, 4, 5), Ok(expected));
}

#[test]
fn material_reports_a_sampler_that_the_program_lacks() {
    let program = Program { id: 3 };
    let material = Material::new(&program, texture(10), texture(11));
    assert_eq!(
        material.set_textures(-1, -1),
        Err("Uniform location \"diffuseTexture\" was not found in program with id 3".to_string())
    );
    assert_eq!(
        material.use_material(&vec![], 0, -1),
        Err("Uniform location \"normalTexture\" was not found in program with id 3".to_string())
    );
    let uniforms = vec![LocatedUniform {
        uniform: AnyUniform::Vec3f(*Uniform3f::new("viewPos", [1, 2, 3])),
        location: -1,
    }];
    assert_eq!(
        material.use_material(&uniforms, 0, 1),
        Err("Uniform location \"viewPos\" was not found in program with id 3".to_string())
    );
    assert_eq!(
        material.use_material(&uniforms, -1, 1),
        Err("Uniform location \"diffuseTexture\" was not found in program with id 3".to_string())
    );
}

#[test]
fn model_draws_every_mesh_with_its_material() {
    let first = Program { id: 3 };
    let second = Program { id: 4 };
    let materials = vec![
        Material::new(&first, texture(10), texture(11)),
        Material::new(&second, texture(12), texture(13)),
    ];
    let model = Model::new(vec![(mesh(20, 6), 1), (mesh(30, 9), 0), (mesh(40, 3), 1)], materials);
    let uniforms = vec![
        MaterialUniforms { diffuse_location: 1, normal_location: 2, uniforms: vec![] },
        MaterialUniforms { diffuse_location: 7, normal_location: 8, uniforms: vec![] },
    ];
    let mut expected = used(4, 12, 13, 7, 8);
    expected.extend(drawn(20, 6));
    expected.extend(used(3, 10, 11, 1, 2));
    expected.extend(drawn(30, 9));
    expected.extend(used(4, 12, 13, 7, 8));
    expected.extend(drawn(40, 3));
    assert_eq!(model.draw(&uniforms), Ok(expected));
}

#[test]
fn model_without_meshes_draws_nothing() {
    let model = Model::new(vec![], vec![]);
    assert_eq!(model.draw(&vec![]), Ok(vec![]));
}

#[test]
fn model_reports_the_first_uniform_that_a_program_lacks() {
    let first = Program { id: 3 };
    let second = Program { id: 4 };
    let materials = vec![
        Material::new(&first, texture(10), texture(11)),
        Material::new(&second, texture(12), texture(13)),
    ];
    let model = Model::new(vec![(mesh(20, 6), 0), (mesh(30, 9), 1)], materials);
    let uniforms = vec![
        MaterialUniforms { diffuse_location: 1, normal_location: 2, uniforms: vec![] },
        MaterialUniforms { diffuse_location: 7, normal_location: -1, uniforms: vec![] },
    ];
    assert_eq!(
        model.draw(&uniforms),
        Err("Uniform location \"normalTexture\" was not found in program with id 4".to_string())
    );
}

#[test]
fn index_keeps_its_bits() {
    assert_eq!(signed_index(0), 0);
    assert_eq!(signed_index(36), 36);
    assert_eq!(signed_index(0x7fff_ffff), i32::MAX);
    assert_eq!(signed_index(0x8000_0000), i32::MIN);
    assert_eq!(signed_index(u32::MAX), -1);
    for index in [0u32, 1, 0x7fff_ffff, 0x8000_0000, 0xdead_beef, u32::MAX] {
        assert_eq!(signed_index(index) as u32, index);
    }
}

#[test]
fn mesh_is_made_of_all_its_primitives() {
    let primitives = vec![primitive(100, 2, vec![0, 1, 0]), primitive(200, 1, vec![0, 0, 0])];
    let (vertices, indices) = assemble_mesh(&primitives);
    assert_eq!(
        vertices,
        vec![
            MeshVertex::new([100, 101, 102], [103, 104], [105, 106, 107], [108, 109, 110], [111, 112, 113]),
            MeshVertex::new([101, 102, 103], [104, 105], [106, 107, 108], [109, 110, 111], [112, 113, 114]),
            MeshVertex::new([200, 201, 202], [203, 204], [205, 206, 207], [208, 209, 210], [211, 212, 213]),
        ]
    );
    assert_eq!(indices, vec![0, 1, 0, 0, 0, 0]);
    assert_eq!(assemble_mesh(&vec![]), (vec![], vec![]));
}

#[test]
fn primitive_has_as_many_vertices_as_its_shortest_list() {
    let mut short = primitive(0, 4, vec![3, 2, 1]);
    short.normals.truncate(2);
    let (vertices, indices) = assemble_mesh(&vec![short]);
    assert_eq!(vertices.len(), 2);
    assert_eq!(indices, vec![3, 2, 1]);
    let mut none = primitive(0, 4, vec![]);
    none.uvs.clear();
    assert_eq!(assemble_mesh(&vec![none]).0.len(), 0);
    let mut fewer = primitive(0, 4, vec![]);
    fewer.bitangents.truncate(3);
    fewer.tangents.truncate(1);
    assert_eq!(assemble_mesh(&vec![fewer]).0.len(), 1);
    let mut last = primitive(0, 4, vec![]);
    last.positions.truncate(3);
    assert_eq!(assemble_mesh(&vec![last]).0.len(), 3);
}

#[test]
fn loaded_model_uploads_every_mesh_with_the_first_material() {
    let sources = vec![
        MeshSource { vao: 1, vbo: 2, ebo: 3, primitives: vec![primitive(0, 3, vec![0, 1, 2])] },
        MeshSource { vao: 4, vbo: 5, ebo: 6, primitives: vec![] },
    ];
    let program = Program { id: 9 };
    let materials = vec![Material::new(&program, texture(10), texture(11))];
    let upload = ResourceLoader::load_model(&sources, materials);
    assert_eq!(upload.model.meshes.len(), 2);
    assert_eq!(upload.model.materials.len(), 1);
    assert_eq!(upload.model.meshes[0], (Mesh { indices: vec![0, 1, 2], vao: 1, vbo: 2, ebo: 3 }, 0));
    assert_eq!(upload.model.meshes[1], (Mesh { indices: vec![], vao: 4, vbo: 5, ebo: 6 }, 0));
    assert_eq!(upload.uploads[0].vertices.len(), 3 * 14);
    assert_eq!(&upload.uploads[0].vertices[14..19], &[1, 2, 3, 4, 5]);
    assert_eq!(
        upload.uploads[0].commands[2],
        Command::BufferData { target: BufferTarget::Array, size: 168, source: DataSource::Vertices }
    );
    assert_eq!(
        upload.uploads[0].commands[4],
        Command::BufferData { target: BufferTarget::ElementArray, size: 12, source: DataSource::Indices }
    );
    assert_eq!(
        upload.uploads[0].commands[5],
        Command::VertexAttribPointer { slot: 0, components: 3, stride: 56, offset: 0 }
    );
    assert_eq!(upload.uploads[0].commands.len(), 15);
    assert_eq!(
        upload.uploads[1].commands[2],
        Command::BufferData { target: BufferTarget::Array, size: 0, source: DataSource::Vertices }
    );
}

#[test]
fn skybox_is_the_cube_of_side_two() {
    let upload = Skybox::new(1, 2, 3, CubeMap { id: 4 }, Program { id: 5 });
    assert_eq!(upload.vertices.len(), 72);
    assert!(upload.vertices.iter().all(|w| *w == ONE || *w == NEG_ONE));
    let numbers: Vec<f32> = upload.vertices.iter().map(|w| f32::from_bits(*w)).collect();
    assert_eq!(&numbers[0..6], &[-1.0, -1.0, 1.0, 1.0, -1.0, 1.0]);
    assert_eq!(&numbers[69..72], &[-1.0, -1.0, -1.0]);
    assert_eq!(upload.skybox.mesh.indices.len(), 36);
    assert_eq!(
        upload.commands,
        vec![
            Command::BindVertexArray { vao: 1 },
            Command::BindBuffer { target: BufferTarget::Array, buffer: 2 },
            Command::BufferData { target: BufferTarget::Array, size: 288, source: DataSource::Vertices },
            Command::BindBuffer { target: BufferTarget::ElementArray, buffer: 3 },
            Command::BufferData {
                target: BufferTarget::ElementArray,
                size: 144,
                source: DataSource::Indices
            },
            Command::VertexAttribPointer { slot: 0, components: 3, stride: 12, offset: 0 },
            Command::EnableVertexAttribArray { slot: 0 },
        ]
    );
}

#[test]
fn skybox_is_drawn_without_depth_writes_and_with_the_rotation_alone() {
    let skybox = Skybox::new(1, 2, 3, CubeMap { id: 4 }, Program { id: 5 }).skybox;
    let mut words = [0u32; 16];
    for i in 0..16 {
        words[i] = 1000 + i as u32;
    }
    let view = Matrix4 { words };
    let mut rotation = view;
    rotation.words[12] = 0;
    rotation.words[13] = 0;
    rotation.words[14] = 0;
    assert_eq!(
        skybox.draw(&view, 7),
        Ok(vec![
            Command::DepthMask { write: false },
            Command::UseProgram { program: 5 },
            Command::UniformMatrix4fv { location: 7, matrix: rotation },
            Command::BindTexture { binding: TextureTarget::CubeMap, texture: 4 },
            Command::BindVertexArray { vao: 1 },
            Command::BindBuffer { target: BufferTarget::Array, buffer: 2 },
            Command::BindBuffer { target: BufferTarget::ElementArray, buffer: 3 },
            Command::DrawElements { count: 36 },
            Command::DepthMask { write: true },
        ])
    );
    assert_eq!(
        skybox.draw(&view, -1),
        Err("Uniform location \"view\" was not found in program with id 5".to_string())
    );
}

#[test]
fn skybox_files_are_named() {
    assert_eq!(
        image_paths(),
        [
            "assets/skybox/sky/right.jpg",
            "assets/skybox/sky/left.jpg",
            "assets/skybox/sky/top.jpg",
            "assets/skybox/sky/bottom.jpg",
            "assets/skybox/sky/front.jpg",
            "assets/skybox/sky/back.jpg"
        ]
    );
    assert_eq!(VERTEX_SHADER_PATH, "assets/shaders/skybox.vert");
    assert_eq!(FRAGMENT_SHADER_PATH, "assets/shaders/skybox.frag");
}

#[test]
fn mesh_is_released_with_its_three_objects() {
    assert_eq!(
        mesh(20, 3).release(),
        vec![
            Command::DeleteVertexArray { vao: 20 },
            Command::DeleteBuffer { buffer: 21 },
            Command::DeleteBuffer { buffer: 22 },
        ]
    );
}

#[test]
fn model_is_released_with_its_meshes_and_textures() {
    let program = Program { id: 3 };
    let mut kept = texture(12);
    assert_eq!(kept.release(), Some(Command::DeleteTexture { texture: 12 }));
    let materials = vec![
        Material::new(&program, texture(10), texture(11)),
        Material::new(&program, kept, texture(13)),
    ];
    let model = Model::new(vec![(mesh(20, 6), 1), (mesh(30, 9), 0)], materials);
    assert_eq!(
        model.release(),
        vec![
            Command::DeleteVertexArray { vao: 20 },
            Command::DeleteBuffer { buffer: 21 },
            Command::DeleteBuffer { buffer: 22 },
            Command::DeleteVertexArray { vao: 30 },
            Command::DeleteBuffer { buffer: 31 },
            Command::DeleteBuffer { buffer: 32 },
            Command::DeleteTexture { texture: 10 },
            Command::DeleteTexture { texture: 11 },
            Command::DeleteTexture { texture: 13 },
        ]
    );
    assert_eq!(program.release(), Command::DeleteProgram { program: 3 });
}

#[test]
fn skybox_is_released_with_its_cube_map_and_program() {
    let skybox = Skybox::new(1, 2, 3, CubeMap { id: 4 }, Program { id: 5 }).skybox;
    assert_eq!(
        skybox.release(),
        vec![
            Command::DeleteVertexArray { vao: 1 },
            Command::DeleteBuffer { buffer: 2 },
            Command::DeleteBuffer { buffer: 3 },
            Command::DeleteTexture { texture: 4 },
            Command::DeleteProgram { program: 5 },
        ]
    );
    assert_eq!(CubeMap { id: 9 }.release(), Command::DeleteTexture { texture: 9 });
}

#[test]
fn buffers_of_a_model_are_requested_in_order() {
    let resources = ResourceLoader::from_relative_exe_path(Some("/opt/r"), "").unwrap();
    let sources = vec![
        BufferSource::Uri("scene.bin".to_string()),
        BufferSource::Bin,
        BufferSource::Uri("more/data.bin".to_string()),
    ];
    assert_eq!(
        resources.buffer_requests("assets/models/cube/scene.gltf", &sources, true),
        vec![
            BufferRequest::File("/opt/r/assets/models/cube/scene.bin".to_string()),
            BufferRequest::Blob,
            BufferRequest::File("/opt/r/assets/models/cube/more/data.bin".to_string()),
        ]
    );
    assert_eq!(
        resources.buffer_requests("assets/models/cube/scene.gltf", &sources, false),
        vec![
            BufferRequest::File("/opt/r/assets/models/cube/scene.bin".to_string()),
            BufferRequest::File("/opt/r/assets/models/cube/more/data.bin".to_string()),
        ]
    );
    assert_eq!(resources.buffer_requests("scene.gltf", &vec![], true), vec![]);
}

#[test]
fn images_of_a_model_lie_in_files_beside_it() {
    let resources = ResourceLoader::from_relative_exe_path(Some("/opt/r"), "").unwrap();
    assert_eq!(
        resources.image_path("assets/m/scene.gltf", &ImageSource::Uri("tex/base.png".to_string())),
        Some("/opt/r/assets/m/tex/base.png".to_string())
    );
    assert_eq!(resources.image_path("assets/m/scene.gltf", &ImageSource::View), None);
}
