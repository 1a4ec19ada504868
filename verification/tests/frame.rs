use render_core::camera::{Camera, CameraController};
use render_core::command::{BufferTarget, Command, DataSource, Matrix4, TextureTarget, UniformData};
use render_core::frame::{
    init_commands, light_block, matrix_block, render, Action, Event, FrameLoop, FrameMatrices, Key,
    LoopState, Movement, CLEAR_COLOR, CONTEXT_VERSION, HEIGHT, LIGHT_BINDING, MATRIX_BINDING,
    TITLE, WIDTH,
};
use render_core::material::Material;
use render_core::mesh::Mesh;
use render_core::model::{MaterialUniforms, Model};
use render_core::shader::Program;
use render_core::skybox::Skybox;
use render_core::texture::{CubeMap, Texture};
use render_core::uniform_buffer_object::{SubUniform, UniformBufferObject, WriteError};

fn camera() -> Camera {
    Camera::new(
        [0, 0, 3_000_000_000],
        -90_000_000,
        0,
        45_000_000,
        (WIDTH, HEIGHT),
        10_000_000,
        100_000_000_000,
    )
}

fn running() -> FrameLoop {
    let mut frame = FrameLoop::new((100_000, 100_000));
    frame.initialized(true);
    frame
}

fn press(frame: &mut FrameLoop, camera: &mut Camera, key: Key) {
    frame.handle_event(&CameraController::new(5_000, 150), camera, Event::Key(key, Action::Press));
}

fn release(frame: &mut FrameLoop, camera: &mut Camera, key: Key) {
    frame.handle_event(&CameraController::new(5_000, 150), camera, Event::Key(key, Action::Release));
}

fn matrix(seed: u32) -> Matrix4 {
    let mut words = [0u32; 16];
    for i in 0..16 {
        words[i] = seed * 100 + i as u32;
    }
    Matrix4 { words }
}

fn blocks() -> (UniformBufferObject, UniformBufferObject) {
    let (matrices, _) = UniformBufferObject::new(20, MATRIX_BINDING, matrix_block());
    let (light, _) = UniformBufferObject::new(21, LIGHT_BINDING, light_block());
    (matrices, light)
}

fn write(buffer: u32, offset: usize, size: usize, data: UniformData) -> Vec<Command> {
    vec![
        Command::BindBuffer { target: BufferTarget::Uniform, buffer },
        Command::BufferSubData {
            target: BufferTarget::Uniform,
            offset,
            size,
            source: DataSource::Words(data),
        },
    ]
}

#[test]
fn window_is_1080_by_720() {
    assert_eq!((WIDTH, HEIGHT), (1080, 720));
    assert_eq!(TITLE, "OpenGL Rust Renderer");
    assert_eq!(CONTEXT_VERSION, (4, 6));
}

#[test]
fn clear_color_is_the_blue_of_the_sky() {
    let numbers: Vec<f32> = CLEAR_COLOR.iter().map(|w| f32::from_bits(*w)).collect();
    assert_eq!(numbers, vec![0.3, 0.4, 0.6, 1.0]);
}

#[test]
fn depth_is_tested_from_the_start() {
    assert_eq!(init_commands(), vec![Command::EnableDepthTest]);
}

#[test]
fn loop_starts_initializing() {
    let frame = FrameLoop::new((3, 4));
    assert_eq!(frame.state, LoopState::Initializing);
    assert_eq!(frame.movement, Movement { x: 0, y: 0, z: 0 });
    assert_eq!(frame.cursor, (3, 4));
    assert!(!frame.should_close());
    assert!(!frame.is_moving());
}

#[test]
fn loop_runs_after_a_good_start() {
    let mut frame = FrameLoop::new((0, 0));
    frame.initialized(true);
    assert_eq!(frame.state, LoopState::Running);
    frame.initialized(false);
    assert_eq!(frame.state, LoopState::Running);
}

#[test]
fn loop_shuts_down_after_a_failed_start() {
    let mut frame = FrameLoop::new((0, 0));
    frame.initialized(false);
    assert_eq!(frame.state, LoopState::ShuttingDown);
    assert!(frame.should_close());
    frame.initialized(true);
    assert_eq!(frame.state, LoopState::ShuttingDown);
}

#[test]
fn loop_takes_no_events_before_it_runs() {
    let mut frame = FrameLoop::new((0, 0));
    let mut camera = camera();
    press(&mut frame, &mut camera, Key::W);
    press(&mut frame, &mut camera, Key::Escape);
    assert_eq!(frame, FrameLoop::new((0, 0)));
}

#[test]
fn keys_map_to_directions() {
    let cases = [
        (Key::W, Movement { x: 1, y: 0, z: 0 }),
        (Key::S, Movement { x: -1, y: 0, z: 0 }),
        (Key::D, Movement { x: 0, y: 0, z: 1 }),
        (Key::A, Movement { x: 0, y: 0, z: -1 }),
        (Key::Space, Movement { x: 0, y: 1, z: 0 }),
        (Key::LeftShift, Movement { x: 0, y: -1, z: 0 }),
        (Key::Other, Movement { x: 0, y: 0, z: 0 }),
    ];
    for (key, movement) in cases {
        let mut frame = running();
        let mut camera = camera();
        press(&mut frame, &mut camera, key);
        assert_eq!(frame.movement, movement);
        assert_eq!(frame.state, LoopState::Running);
        assert_eq!(camera, self::camera());
        release(&mut frame, &mut camera, key);
        assert_eq!(frame.movement, Movement { x: 0, y: 0, z: 0 });
    }
}

#[test]
fn held_keys_add_up() {
    let mut frame = running();
    let mut camera = camera();
    press(&mut frame, &mut camera, Key::W);
    press(&mut frame, &mut camera, Key::D);
    press(&mut frame, &mut camera, Key::Space);
    assert_eq!(frame.movement, Movement { x: 1, y: 1, z: 1 });
    assert!(frame.is_moving());
    press(&mut frame, &mut camera, Key::S);
    assert_eq!(frame.movement, Movement { x: 0, y: 1, z: 1 });
    release(&mut frame, &mut camera, Key::D);
    release(&mut frame, &mut camera, Key::Space);
    release(&mut frame, &mut camera, Key::W);
    assert_eq!(frame.movement, Movement { x: -1, y: 0, z: 0 });
    release(&mut frame, &mut camera, Key::S);
    assert!(!frame.is_moving());
}

#[test]
fn repeated_key_changes_nothing() {
    let mut frame = running();
    let mut camera = camera();
    press(&mut frame, &mut camera, Key::W);
    frame.handle_event(
        &CameraController::new(5_000, 150),
        &mut camera,
        Event::Key(Key::W, Action::Repeat),
    );
    assert_eq!(frame.movement, Movement { x: 1, y: 0, z: 0 });
}

#[test]
fn movement_holds_at_the_ends_of_the_machine_numbers() {
    let mut frame = running();
    frame.movement = Movement { x: i32::MAX, y: i32::MIN, z: 0 };
    let mut camera = camera();
    press(&mut frame, &mut camera, Key::W);
    press(&mut frame, &mut camera, Key::LeftShift);
    assert_eq!(frame.movement, Movement { x: i32::MAX, y: i32::MIN, z: 0 });
}

#[test]
fn escape_shuts_the_loop_down() {
    let mut frame = running();
    let mut camera = camera();
    release(&mut frame, &mut camera, Key::Escape);
    assert_eq!(frame.state, LoopState::Running);
    press(&mut frame, &mut camera, Key::Escape);
    assert_eq!(frame.state, LoopState::ShuttingDown);
    assert!(frame.should_close());
    assert_eq!(frame.movement, Movement { x: 0, y: 0, z: 0 });
}

#[test]
fn close_request_shuts_the_loop_down() {
    let mut frame = running();
    let mut camera = camera();
    frame.handle_event(&CameraController::new(5_000, 150), &mut camera, Event::Close);
    assert!(frame.should_close());
}

#[test]
fn loop_that_shuts_down_takes_no_events() {
    let mut frame = running();
    let mut camera = camera();
    press(&mut frame, &mut camera, Key::Escape);
    let before = frame;
    press(&mut frame, &mut camera, Key::W);
    frame.handle_event(&CameraController::new(5_000, 150), &mut camera, Event::CursorPos(5, 5));
    assert_eq!(frame, before);
    assert_eq!(camera, self::camera());
}

#[test]
fn pointer_turns_the_camera_by_its_distance() {
    let controller = CameraController::new(5_000, 150);
    let mut frame = running();
    let mut camera = camera();
    // Ten units to the right and four up, at 0.15 degrees for each unit.
    frame.handle_event(&controller, &mut camera, Event::CursorPos(110_000, 96_000));
    assert_eq!(frame.cursor, (110_000, 96_000));
    assert_eq!(camera.yaw, -90_000_000 + 10_000 * 150);
    assert_eq!(camera.pitch, 4_000 * 150);
    frame.handle_event(&controller, &mut camera, Event::CursorPos(110_000, 96_000));
    assert_eq!(camera.yaw, -88_500_000);
    assert_eq!(camera.pitch, 600_000);
    // Half a unit is passed on.
    frame.handle_event(&controller, &mut camera, Event::CursorPos(110_500, 96_000));
    assert_eq!(camera.yaw, -88_425_000);
    frame.handle_event(&controller, &mut camera, Event::CursorPos(100_000, 100_000));
    assert_eq!(camera.yaw, -90_000_000);
    assert_eq!(camera.pitch, 0);
    assert_eq!(camera.position, [0, 0, 3_000_000_000]);
}

#[test]
fn pointer_at_the_ends_of_the_screen_does_not_overflow() {
    let controller = CameraController::new(5_000, u32::MAX);
    let mut frame = running();
    frame.cursor = (i32::MIN, i32::MAX);
    let mut camera = camera();
    frame.handle_event(&controller, &mut camera, Event::CursorPos(i32::MAX, i32::MIN));
    assert_eq!(camera.yaw, i64::MAX);
    assert_eq!(camera.pitch, 89_000_000);
}

#[test]
fn other_events_change_nothing() {
    let mut frame = running();
    let mut camera = camera();
    frame.handle_event(&CameraController::new(5_000, 150), &mut camera, Event::Other);
    assert_eq!(frame, running());
    assert_eq!(camera, self::camera());
}

#[test]
fn blocks_are_sized_by_their_uniforms() {
    let (matrices, commands) = UniformBufferObject::new(20, MATRIX_BINDING, matrix_block());
    assert_eq!(matrices.size, 256);
    assert_eq!(matrices.id, 20);
    assert_eq!(
        commands,
        vec![
            Command::BindBuffer { target: BufferTarget::Uniform, buffer: 20 },
            Command::BufferData { target: BufferTarget::Uniform, size: 256, source: DataSource::Empty },
            Command::BindBufferRange {
                target: BufferTarget::Uniform,
                index: 0,
                buffer: 20,
                offset: 0,
                size: 256
            },
        ]
    );
    let (light, commands) = UniformBufferObject::new(21, LIGHT_BINDING, light_block());
    assert_eq!(light.size, 12);
    assert_eq!(
        commands[2],
        Command::BindBufferRange {
            target: BufferTarget::Uniform,
            index: 1,
            buffer: 21,
            offset: 0,
            size: 12
        }
    );
    let (empty, commands) = UniformBufferObject::new(22, 2, vec![]);
    assert_eq!(empty.size, 0);
    assert_eq!(
        commands[1],
        Command::BufferData { target: BufferTarget::Uniform, size: 0, source: DataSource::Empty }
    );
}

#[test]
fn write_goes_behind_the_uniforms_before() {
    let (matrices, _) = blocks();
    let data = UniformData::Matrix(matrix(1));
    assert_eq!(matrices.write_sub_data("projection", data), Ok(write(20, 0, 64, data)));
    assert_eq!(matrices.write_sub_data("view", data), Ok(write(20, 64, 64, data)));
    assert_eq!(matrices.write_sub_data("model", data), Ok(write(20, 128, 64, data)));
    assert_eq!(matrices.write_sub_data("normalMatrix", data), Ok(write(20, 192, 64, data)));
}

#[test]
fn write_finds_the_first_uniform_of_a_name() {
    let subs = vec![
        SubUniform { name: "a".to_string(), size: 12 },
        SubUniform { name: "b".to_string(), size: 64 },
        SubUniform { name: "b".to_string(), size: 12 },
    ];
    let (block, _) = UniformBufferObject::new(5, 0, subs);
    assert_eq!(block.size, 88);
    let data = UniformData::Matrix(matrix(2));
    assert_eq!(block.write_sub_data("b", data), Ok(write(5, 12, 64, data)));
    assert_eq!(
        block.write_sub_data("b", UniformData::Vector([1, 2, 3])),
        Err(WriteError::SizeMismatch { expected: 64, found: 12 })
    );
}

#[test]
fn write_to_an_unknown_uniform_is_refused() {
    let (matrices, light) = blocks();
    let data = UniformData::Matrix(matrix(1));
    assert_eq!(matrices.write_sub_data("lightPos", data), Err(WriteError::UnknownUniform));
    assert_eq!(matrices.write_sub_data("", data), Err(WriteError::UnknownUniform));
    assert_eq!(light.write_sub_data("Lightpos", data), Err(WriteError::UnknownUniform));
}

#[test]
fn write_of_another_size_is_refused() {
    let (matrices, light) = blocks();
    assert_eq!(
        light.write_sub_data("lightPos", UniformData::Matrix(matrix(1))),
        Err(WriteError::SizeMismatch { expected: 12, found: 64 })
    );
    assert_eq!(
        matrices.write_sub_data("view", UniformData::Vector([1, 2, 3])),
        Err(WriteError::SizeMismatch { expected: 64, found: 12 })
    );
    assert_eq!(
        light.write_sub_data("lightPos", UniformData::Vector([1, 2, 3])),
        Ok(write(21, 0, 12, UniformData::Vector([1, 2, 3])))
    );
}

#[test]
fn refused_writes_describe_themselves() {
    assert_eq!(
        WriteError::UnknownUniform.describe("lightPos"),
        "Uniform \"lightPos\" was not found in the uniform block"
    );
    assert_eq!(
        WriteError::SizeMismatch { expected: 64, found: 12 }.describe("view"),
        "Uniform \"view\" holds 64 bytes and was given 12"
    );
}

#[test]
fn frame_clears_writes_and_draws_in_order() {
    let (matrix_ubo, light_ubo) = blocks();
    let matrices = FrameMatrices {
        projection: matrix(1),
        view: matrix(2),
        model: matrix(3),
        normal: matrix(4),
    };
    let sky_program = Program { id: 30 };
    let skybox = Skybox::new(40, 41, 42, CubeMap { id: 43 }, sky_program).skybox;
    let program = Program { id: 31 };
    let material = Material::new(
        &program,
        Texture { id: 50, released: false },
        Texture { id: 51, released: false },
    );
    let mesh = Mesh::create_cube(60, 61, 62).mesh;
    let model = Model::new(vec![(mesh, 0)], vec![material]);
    let uniforms =
        vec![MaterialUniforms { diffuse_location: 1, normal_location: 2, uniforms: vec![] }];
    let light = [7, 8, 9];
    let commands =
        render(&matrix_ubo, &light_ubo, &matrices, light, Some((&skybox, 5)), &model, &uniforms)
            .unwrap();
    let mut expected = vec![Command::ClearColor { rgba: CLEAR_COLOR }, Command::Clear];
    expected.extend(write(20, 0, 64, UniformData::Matrix(matrix(1))));
    expected.extend(write(20, 64, 64, UniformData::Matrix(matrix(2))));
    expected.extend(write(20, 128, 64, UniformData::Matrix(matrix(3))));
    expected.extend(write(20, 192, 64, UniformData::Matrix(matrix(4))));
    expected.extend(write(21, 0, 12, UniformData::Vector([7, 8, 9])));
    let mut rotation = matrix(2);
    rotation.words[12] = 0;
    rotation.words[13] = 0;
    rotation.words[14] = 0;
    expected.extend(vec![
        Command::DepthMask { write: false },
        Command::UseProgram { program: 30 },
        Command::UniformMatrix4fv { location: 5, matrix: rotation },
        Command::BindTexture { binding: TextureTarget::CubeMap, texture: 43 },
        Command::BindVertexArray { vao: 40 },
        Command::BindBuffer { target: BufferTarget::Array, buffer: 41 },
        Command::BindBuffer { target: BufferTarget::ElementArray, buffer: 42 },
        Command::DrawElements { count: 36 },
        Command::DepthMask { write: true },
        Command::UseProgram { program: 31 },
        Command::ActiveTexture { unit: 0 },
        Command::BindTexture { binding: TextureTarget::Texture2D, texture: 50 },
        Command::ActiveTexture { unit: 1 },
        Command::BindTexture { binding: TextureTarget::Texture2D, texture: 51 },
        Command::Uniform1i { location: 1, value: 0 },
        Command::Uniform1i { location: 2, value: 1 },
        Command::BindVertexArray { vao: 60 },
        Command::BindBuffer { target: BufferTarget::Array, buffer: 61 },
        Command::BindBuffer { target: BufferTarget::ElementArray, buffer: 62 },
        Command::DrawElements { count: 36 },
    ]);
    assert_eq!(commands, expected);
}

#[test]
fn frame_without_a_skybox_draws_the_model_alone() {
    let (matrix_ubo, light_ubo) = blocks();
    let matrices = FrameMatrices {
        projection: matrix(1),
        view: matrix(2),
        model: matrix(3),
        normal: matrix(4),
    };
    let model = Model::new(vec![], vec![]);
    let commands =
        render(&matrix_ubo, &light_ubo, &matrices, [0, 0, 0], None, &model, &vec![]).unwrap();
    assert_eq!(commands.len(), 12);
    assert!(!commands.iter().any(|c| matches!(c, Command::DrawElements { .. })));
}

#[test]
fn frame_reports_the_first_step_that_cannot_be_planned() {
    let (matrix_ubo, light_ubo) = blocks();
    let matrices = FrameMatrices {
        projection: matrix(1),
        view: matrix(2),
        model: matrix(3),
        normal: matrix(4),
    };
    let model = Model::new(vec![], vec![]);
    let skybox = Skybox::new(40, 41, 42, CubeMap { id: 43 }, Program { id: 30 }).skybox;
    assert_eq!(
        render(&matrix_ubo, &light_ubo, &matrices, [0; 3], Some((&skybox, -1)), &model, &vec![]),
        Err("Uniform location \"view\" was not found in program with id 30".to_string())
    );
    // A block of the light that is too small for a place is found before the skybox is.
    let (small, _) = UniformBufferObject::new(
        21,
        LIGHT_BINDING,
        vec![SubUniform { name: "lightPos".to_string(), size: 8 }],
    );
    assert_eq!(
        render(&matrix_ubo, &small, &matrices, [0; 3], Some((&skybox, -1)), &model, &vec![]),
        Err("Uniform \"lightPos\" holds 8 bytes and was given 12".to_string())
    );
    assert_eq!(
        render(&light_ubo, &light_ubo, &matrices, [0; 3], None, &model, &vec![]),
        Err("Uniform \"projection\" was not found in the uniform block".to_string())
    );
}

#[test]
fn block_is_released_with_its_buffer() {
    let (matrices, _) = blocks();
    assert_eq!(matrices.release(), Command::DeleteBuffer { buffer: 20 });
}
