use render_core::command::{BufferTarget, Command, DataSource};
use render_core::mesh::primitives::{cube_index_list, cube_positions, HALF, NEG_HALF, NEG_ONE, ONE, ZERO};
use render_core::mesh::vertex::VertexLayout;
use render_core::mesh::{Mesh, MeshVertex, SkyboxVertex};
use render_core::vertex::Vertex;

fn words(values: &[f32]) -> Vec<u32> {
    values.iter().map(|v| v.to_bits()).collect()
}

fn plain(position: [f32; 3], uv: [f32; 2]) -> Vertex {
    Vertex::new(
        [position[0].to_bits(), position[1].to_bits(), position[2].to_bits()],
        [uv[0].to_bits(), uv[1].to_bits()],
    )
}

#[test]
fn word_constants_are_the_numbers_they_name() {
    assert_eq!(f32::from_bits(HALF), 0.5);
    assert_eq!(f32::from_bits(NEG_HALF), -0.5);
    assert_eq!(f32::from_bits(ONE), 1.0);
    assert_eq!(f32::from_bits(NEG_ONE), -1.0);
    assert_eq!(f32::from_bits(ZERO), 0.0);
}

#[test]
fn plain_vertex_layout_has_stride_20() {
    let layout = <Vertex as render_core::mesh::Vertex>::layout();
    assert_eq!(layout.len(), 2);
    assert_eq!(layout.stride(), 20);
    assert_eq!(layout.offset(0), 0);
    assert_eq!(layout.offset(1), 12);
    assert_eq!(layout.components(0), 3);
    assert_eq!(layout.components(1), 2);
}

#[test]
fn plain_vertex_declares_two_attributes() {
    let commands = <Vertex as render_core::mesh::Vertex>::set_vertex_attrib_pointer();
    assert_eq!(
        commands,
        vec![
            Command::VertexAttribPointer { slot: 0, components: 3, stride: 20, offset: 0 },
            Command::VertexAttribPointer { slot: 1, components: 2, stride: 20, offset: 12 },
            Command::EnableVertexAttribArray { slot: 0 },
            Command::EnableVertexAttribArray { slot: 1 },
        ]
    );
}

#[test]
fn mesh_vertex_declares_five_attributes_at_stride_56() {
    let commands = <MeshVertex as render_core::mesh::Vertex>::set_vertex_attrib_pointer();
    assert_eq!(
        commands,
        vec![
            Command::VertexAttribPointer { slot: 0, components: 3, stride: 56, offset: 0 },
            Command::VertexAttribPointer { slot: 1, components: 2, stride: 56, offset: 12 },
            Command::VertexAttribPointer { slot: 2, components: 3, stride: 56, offset: 20 },
            Command::VertexAttribPointer { slot: 3, components: 3, stride: 56, offset: 32 },
            Command::VertexAttribPointer { slot: 4, components: 3, stride: 56, offset: 44 },
            Command::EnableVertexAttribArray { slot: 0 },
            Command::EnableVertexAttribArray { slot: 1 },
            Command::EnableVertexAttribArray { slot: 2 },
            Command::EnableVertexAttribArray { slot: 3 },
            Command::EnableVertexAttribArray { slot: 4 },
        ]
    );
}

#[test]
fn skybox_vertex_declares_one_attribute_at_stride_12() {
    let commands = <SkyboxVertex as render_core::mesh::Vertex>::set_vertex_attrib_pointer();
    assert_eq!(
        commands,
        vec![
            Command::VertexAttribPointer { slot: 0, components: 3, stride: 12, offset: 0 },
            Command::EnableVertexAttribArray { slot: 0 },
        ]
    );
}

#[test]
fn declaring_a_layout_twice_gives_the_same_commands() {
    let first = <MeshVertex as render_core::mesh::Vertex>::set_vertex_attrib_pointer();
    let second = <MeshVertex as render_core::mesh::Vertex>::set_vertex_attrib_pointer();
    assert_eq!(first, second);
}

#[test]
fn layout_refuses_bad_component_counts() {
    assert!(VertexLayout::new(vec![3, 0]).is_none());
    assert!(VertexLayout::new(vec![5]).is_none());
    assert!(VertexLayout::new(vec![1; 17]).is_none());
    assert!(VertexLayout::new(vec![4; 16]).is_some());
    assert!(VertexLayout::new(vec![]).is_some());
}

#[test]
fn largest_layout_has_stride_256() {
    let layout = VertexLayout::new(vec![4; 16]).unwrap();
    assert_eq!(layout.stride(), 256);
    assert_eq!(layout.offset(15), 240);
}

#[test]
fn twenty_four_plain_vertices_upload_480_bytes_at_stride_20() {
    let mut vertices = Vec::new();
    for i in 0..24 {
        vertices.push(plain([i as f32, 0.5, -0.5], [0.0, 1.0]));
    }
    let upload = Mesh::create(1, 2, 3, vertices, vec![0, 1, 2]);
    assert_eq!(upload.vertices.len() * 4, 480);
    assert_eq!(
        upload.commands,
        vec![
            Command::BindVertexArray { vao: 1 },
            Command::BindBuffer { target: BufferTarget::Array, buffer: 2 },
            Command::BufferData { target: BufferTarget::Array, size: 480, source: DataSource::Vertices },
            Command::BindBuffer { target: BufferTarget::ElementArray, buffer: 3 },
            Command::BufferData {
                target: BufferTarget::ElementArray,
                size: 12,
                source: DataSource::Indices
            },
            Command::VertexAttribPointer { slot: 0, components: 3, stride: 20, offset: 0 },
            Command::VertexAttribPointer { slot: 1, components: 2, stride: 20, offset: 12 },
            Command::EnableVertexAttribArray { slot: 0 },
            Command::EnableVertexAttribArray { slot: 1 },
        ]
    );
    assert_eq!(upload.mesh.indices, vec![0, 1, 2]);
    assert_eq!((upload.mesh.vao, upload.mesh.vbo, upload.mesh.ebo), (1, 2, 3));
}

#[test]
fn vertex_buffer_holds_the_records_in_order() {
    let vertices = vec![
        plain([1.0, 2.0, 3.0], [4.0, 5.0]),
        plain([6.0, 7.0, 8.0], [9.0, 10.0]),
    ];
    let upload = Mesh::create(0, 0, 0, vertices, vec![]);
    assert_eq!(upload.vertices, words(&[1.0, 2.0, 3.0, 4.0, 5.0, 6.0, 7.0, 8.0, 9.0, 10.0]));
}

#[test]
fn mesh_vertex_buffer_follows_the_layout() {
    let a = MeshVertex::new([1, 2, 3], [4, 5], [6, 7, 8], [9, 10, 11], [12, 13, 14]);
    let b = MeshVertex::new([21, 22, 23], [24, 25], [26, 27, 28], [29, 30, 31], [32, 33, 34]);
    let upload = Mesh::create(0, 0, 0, vec![a, b], vec![0, 1, 0]);
    assert_eq!(upload.vertices.len(), 28);
    // The normal of the second vertex: one stride of 14 words in, at byte offset 20.
    assert_eq!(&upload.vertices[14 + 5..14 + 8], &[26, 27, 28]);
    // The bitangent of the first vertex, at byte offset 44.
    assert_eq!(&upload.vertices[11..14], &[12, 13, 14]);
    assert_eq!(
        upload.commands[2],
        Command::BufferData { target: BufferTarget::Array, size: 112, source: DataSource::Vertices }
    );
}

#[test]
fn empty_mesh_uploads_nothing_and_draws_nothing() {
    let upload = Mesh::create(7, 8, 9, Vec::<Vertex>::new(), vec![]);
    assert!(upload.vertices.is_empty());
    assert_eq!(
        upload.commands[2],
        Command::BufferData { target: BufferTarget::Array, size: 0, source: DataSource::Vertices }
    );
    assert_eq!(upload.mesh.draw()[3], Command::DrawElements { count: 0 });
}

#[test]
fn cube_has_24_vertices_and_36_indices() {
    let upload = Mesh::create_cube(4, 5, 6);
    assert_eq!(upload.vertices.len(), 24 * 5);
    assert_eq!(upload.mesh.indices.len(), 36);
    assert_eq!(
        upload.commands[2],
        Command::BufferData { target: BufferTarget::Array, size: 480, source: DataSource::Vertices }
    );
    assert_eq!(
        upload.commands[4],
        Command::BufferData {
            target: BufferTarget::ElementArray,
            size: 144,
            source: DataSource::Indices
        }
    );
    assert_eq!(
        upload.commands[5],
        Command::VertexAttribPointer { slot: 0, components: 3, stride: 20, offset: 0 }
    );
}

#[test]
fn cube_vertices_are_the_corners_of_the_unit_cube() {
    let upload = Mesh::create_cube(0, 0, 0);
    let numbers: Vec<f32> = upload.vertices.iter().map(|w| f32::from_bits(*w)).collect();
    // Front face.
    assert_eq!(&numbers[0..5], &[-0.5, -0.5, 0.5, 0.0, 0.0]);
    assert_eq!(&numbers[5..10], &[0.5, -0.5, 0.5, 1.0, 0.0]);
    assert_eq!(&numbers[10..15], &[0.5, 0.5, 0.5, 1.0, 1.0]);
    assert_eq!(&numbers[15..20], &[-0.5, 0.5, 0.5, 0.0, 1.0]);
    // First of the back, the left, the right, the top and the bottom face.
    assert_eq!(&numbers[20..25], &[-0.5, -0.5, -0.5, 0.0, 0.0]);
    assert_eq!(&numbers[40..45], &[-0.5, -0.5, -0.5, 0.0, 0.0]);
    assert_eq!(&numbers[45..50], &[-0.5, -0.5, 0.5, 1.0, 0.0]);
    assert_eq!(&numbers[60..65], &[0.5, -0.5, -0.5, 0.0, 0.0]);
    assert_eq!(&numbers[80..85], &[-0.5, 0.5, 0.5, 0.0, 0.0]);
    assert_eq!(&numbers[100..105], &[-0.5, -0.5, 0.5, 0.0, 0.0]);
    // Last vertex.
    assert_eq!(&numbers[115..120], &[-0.5, -0.5, -0.5, 0.0, 1.0]);
    for chunk in numbers.chunks(5) {
        assert!(chunk[0..3].iter().all(|c| c.abs() == 0.5));
    }
}

#[test]
fn cube_indices_walk_two_triangles_for_each_face() {
    assert_eq!(
        cube_index_list(),
        vec![
            0, 1, 2, 0, 2, 3, 4, 7, 6, 4, 6, 5, 8, 9, 10, 8, 10, 11, 12, 15, 14, 12, 14, 13, 16,
            17, 18, 16, 18, 19, 20, 23, 22, 20, 22, 21
        ]
    );
    for (i, index) in cube_index_list().iter().enumerate() {
        assert_eq!(*index as usize / 4, i / 6);
    }
}

#[test]
fn cube_positions_take_the_given_coordinates() {
    let positions = cube_positions(7, 9);
    assert_eq!(positions.len(), 24);
    assert_eq!(positions[0], [9, 9, 7]);
    assert_eq!(positions[2], [7, 7, 7]);
    assert_eq!(positions[4], [9, 9, 9]);
    assert_eq!(positions[13], [7, 9, 7]);
    assert_eq!(positions[23], [9, 9, 9]);
}

#[test]
fn drawing_the_cube_issues_one_indexed_draw_of_36_elements() {
    let upload = Mesh::create_cube(4, 5, 6);
    let commands = upload.mesh.draw();
    assert_eq!(
        commands,
        vec![
            Command::BindVertexArray { vao: 4 },
            Command::BindBuffer { target: BufferTarget::Array, buffer: 5 },
            Command::BindBuffer { target: BufferTarget::ElementArray, buffer: 6 },
            Command::DrawElements { count: 36 },
        ]
    );
    let draws: Vec<&Command> =
        commands.iter().filter(|c| matches!(c, Command::DrawElements { .. })).collect();
    assert_eq!(draws, vec![&Command::DrawElements { count: 36 }]);
}
