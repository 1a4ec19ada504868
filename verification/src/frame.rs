//! The frame loop: what the input does to it and what a frame draws.
//!
//! The loop itself belongs to the owner of the window. It hands every event
//! to `FrameLoop::handle_event`, asks `FrameLoop::should_close` once a frame,
//! and issues the commands of `render`.

use vstd::prelude::*;
use vstd::string::StringExecFns;
use crate::camera::{turned_pitch, turned_yaw, Camera, CameraController};
use crate::command::{planned, Command, Matrix4, UniformData};
use crate::model::{MaterialUniforms, Model};
use crate::skybox::Skybox;
use crate::uniform_buffer_object::{write_error_message, SubUniform, UniformBufferObject};

verus! {

/// The width of the window.
pub const WIDTH: u32 = 1080;

/// The height of the window.
pub const HEIGHT: u32 = 720;

/// The title of the window.
pub const TITLE: &'static str = "OpenGL Rust Renderer";

/// The version of the graphics interface that the window is asked for, in
/// its core profile: major and minor.
pub const CONTEXT_VERSION: (u32, u32) = (4, 6);

/// The binding index of the block of matrices.
pub const MATRIX_BINDING: u32 = 0;

/// The binding index of the block of the light.
pub const LIGHT_BINDING: u32 = 1;

/// The words of the colour that every frame starts from: 0.3 red, 0.4 green,
/// 0.6 blue, opaque.
pub const CLEAR_COLOR: [u32; 4] = [0x3E99_999A, 0x3ECC_CCCD, 0x3F19_999A, 0x3F80_0000];

/// The keys that the loop knows.
#[derive(Clone, Copy, Debug, PartialEq, Eq, Structural)]
pub enum Key {
    Escape,
    W,
    A,
    S,
    D,
    Space,
    LeftShift,
    /// Any other key.
    Other,
}

/// What happened to a key.
#[derive(Clone, Copy, Debug, PartialEq, Eq, Structural)]
pub enum Action {
    Press,
    Release,
    Repeat,
}

/// What the window reports.
#[derive(Clone, Copy, Debug, PartialEq, Eq, Structural)]
pub enum Event {
    Key(Key, Action),
    /// The pointer is at this place, in thousandths of a unit of the screen.
    CursorPos(i32, i32),
    /// The window is asked to close.
    Close,
    /// Anything else.
    Other,
}

/// The states of the loop.
#[derive(Clone, Copy, Debug, PartialEq, Eq, Structural)]
pub enum LoopState {
    Initializing,
    Running,
    ShuttingDown,
}

/// The move that the held keys ask for: forward along x, up along y, to the
/// right along z. Every held key counts one.
#[derive(Clone, Copy, Debug, PartialEq, Eq, Structural)]
pub struct Movement {
    pub x: i32,
    pub y: i32,
    pub z: i32,
}

/// The direction of a key: W and S are forward and back, D and A right and
/// left, the space bar and the left shift key up and down. Other keys have
/// none.
pub open spec fn key_direction(key: Key) -> (int, int, int) {
    match key {
        Key::W => (1, 0, 0),
        Key::S => (-1, 0, 0),
        Key::D => (0, 0, 1),
        Key::A => (0, 0, -1),
        Key::Space => (0, 1, 0),
        Key::LeftShift => (0, -1, 0),
        _ => (0, 0, 0),
    }
}

/// A count held to the range of the machine's 32-bit numbers.
pub open spec fn held(count: int) -> i32 {
    if count < i32::MIN {
        i32::MIN
    } else if count > i32::MAX {
        i32::MAX
    } else {
        count as i32
    }
}

/// The movement after a key has changed: pressing a key adds its direction,
/// releasing it takes the direction away, and a repeat changes nothing.
pub open spec fn movement_after(movement: Movement, key: Key, action: Action) -> Movement {
    let (x, y, z) = key_direction(key);
    match action {
        Action::Press => Movement {
            x: held(movement.x + x),
            y: held(movement.y + y),
            z: held(movement.z + z),
        },
        Action::Release => Movement {
            x: held(movement.x - x),
            y: held(movement.y - y),
            z: held(movement.z - z),
        },
        Action::Repeat => movement,
    }
}

/// The loop between two frames: its state, the move that is asked for and
/// the place where the pointer was last seen.
#[derive(Clone, Copy, Debug, PartialEq, Eq)]
pub struct FrameLoop {
    pub state: LoopState,
    pub movement: Movement,
    pub cursor: (i32, i32),
}

/// The loop and the camera after an event.
///
/// Only a running loop takes events. Pressing the escape key and a request to
/// close shut it down. Any other key changes the movement. A move of the
/// pointer turns the camera by the distance from the place where the pointer
/// was last seen, and is remembered as that place.
pub open spec fn after_event(
    frame: FrameLoop,
    controller: CameraController,
    camera: Camera,
    event: Event,
) -> (FrameLoop, Camera) {
    if frame.state != LoopState::Running {
        (frame, camera)
    } else {
        match event {
            Event::Key(Key::Escape, Action::Press) => (
                FrameLoop { state: LoopState::ShuttingDown, ..frame },
                camera,
            ),
            Event::Key(key, action) => (
                FrameLoop { movement: movement_after(frame.movement, key, action), ..frame },
                camera,
            ),
            Event::CursorPos(x, y) => (
                FrameLoop { cursor: (x, y), ..frame },
                Camera {
                    yaw: turned_yaw(
                        camera.yaw,
                        (x - frame.cursor.0) as i64,
                        controller.rotation_speed,
                    ),
                    pitch: turned_pitch(
                        camera.pitch,
                        (y - frame.cursor.1) as i64,
                        controller.rotation_speed,
                    ),
                    ..camera
                },
            ),
            Event::Close => (FrameLoop { state: LoopState::ShuttingDown, ..frame }, camera),
            Event::Other => (frame, camera),
        }
    }
}

/// The sum of two counts, held to the range of the machine's 32-bit numbers.
fn held_sum(a: i32, b: i32) -> (sum: i32)
    ensures
        sum == held(a + b),
{
    let sum: i64 = a as i64 + b as i64;
    if sum < i32::MIN as i64 {
        i32::MIN
    } else if sum > i32::MAX as i64 {
        i32::MAX
    } else {
        sum as i32
    }
}

/// The direction of a key.
fn direction_of(key: Key) -> (direction: (i32, i32, i32))
    ensures
        (direction.0 as int, direction.1 as int, direction.2 as int) == key_direction(key),
{
    match key {
        Key::W => (1, 0, 0),
        Key::S => (-1, 0, 0),
        Key::D => (0, 0, 1),
        Key::A => (0, 0, -1),
        Key::Space => (0, 1, 0),
        Key::LeftShift => (0, -1, 0),
        _ => (0, 0, 0),
    }
}

impl FrameLoop {
    /// The loop before anything is set up: no key is held, and the pointer
    /// was last seen at `cursor`.
    pub fn new(cursor: (i32, i32)) -> (frame: FrameLoop)
        ensures
            frame == (FrameLoop {
                state: LoopState::Initializing,
                movement: Movement { x: 0, y: 0, z: 0 },
                cursor,
            }),
    {
        FrameLoop {
            state: LoopState::Initializing,
            movement: Movement { x: 0, y: 0, z: 0 },
            cursor,
        }
    }

    /// Ends the set-up. The loop runs if all of the window, the shaders, the
    /// meshes and the textures could be had; any failure shuts it down before
    /// a frame is drawn. A loop that is past its set-up stays as it is.
    pub fn initialized(&mut self, ready: bool)
        ensures
            old(self).state == LoopState::Initializing ==> *final(self) == (FrameLoop {
                state: if ready {
                    LoopState::Running
                } else {
                    LoopState::ShuttingDown
                },
                ..*old(self)
            }),
            old(self).state != LoopState::Initializing ==> *final(self) == *old(self),
    {
        match self.state {
            LoopState::Initializing => {
                self.state = if ready {
                    LoopState::Running
                } else {
                    LoopState::ShuttingDown
                };
            },
            _ => {},
        }
    }

    /// Whether the loop is to end: it is asked once for every frame, and the
    /// frame that is being drawn is always finished.
    pub fn should_close(&self) -> (close: bool)
        ensures
            close == (self.state == LoopState::ShuttingDown),
    {
        match self.state {
            LoopState::ShuttingDown => true,
            _ => false,
        }
    }

    /// Whether any move is asked for. Only such a movement has a direction,
    /// and is brought to length one before the camera is moved by it.
    pub fn is_moving(&self) -> (moving: bool)
        ensures
            moving == (self.movement != Movement { x: 0, y: 0, z: 0 }),
    {
        self.movement.x != 0 || self.movement.y != 0 || self.movement.z != 0
    }

    /// Takes one event of the window.
    pub fn handle_event(&mut self, controller: &CameraController, camera: &mut Camera, event: Event)
        requires
            old(camera).wf(),
        ensures
            (*final(self), *final(camera)) == after_event(
                *old(self),
                *controller,
                *old(camera),
                event,
            ),
            final(camera).wf(),
    {
        match self.state {
            LoopState::Running => {},
            _ => {
                return ;
            },
        }
        match event {
            Event::Key(Key::Escape, Action::Press) => {
                self.state = LoopState::ShuttingDown;
            },
            Event::Key(key, action) => {
                let (x, y, z) = direction_of(key);
                match action {
                    Action::Press => {
                        self.movement = Movement {
                            x: held_sum(self.movement.x, x),
                            y: held_sum(self.movement.y, y),
                            z: held_sum(self.movement.z, z),
                        };
                    },
                    Action::Release => {
                        self.movement = Movement {
                            x: held_sum(self.movement.x, -x),
                            y: held_sum(self.movement.y, -y),
                            z: held_sum(self.movement.z, -z),
                        };
                    },
                    Action::Repeat => {},
                }
            },
            Event::CursorPos(x, y) => {
                let delta: (i64, i64) = (
                    x as i64 - self.cursor.0 as i64,
                    y as i64 - self.cursor.1 as i64,
                );
                controller.rotate(camera, delta);
                self.cursor = (x, y);
            },
            Event::Close => {
                self.state = LoopState::ShuttingDown;
            },
            Event::Other => {},
        }
    }
}

/// A loop that shuts down stays so: no event changes it or the camera.
pub proof fn lemma_shutdown_is_final(
    frame: FrameLoop,
    controller: CameraController,
    camera: Camera,
    event: Event,
)
    requires
        frame.state == LoopState::ShuttingDown,
    ensures
        after_event(frame, controller, camera, event) == (frame, camera),
{
}

/// A running loop leaves its state only to shut down, and does so exactly on
/// a press of the escape key and on a request to close.
pub proof fn lemma_running_until_closed(
    frame: FrameLoop,
    controller: CameraController,
    camera: Camera,
    event: Event,
)
    requires
        frame.state == LoopState::Running,
    ensures
        after_event(frame, controller, camera, event).0.state == (if event == Event::Close
            || event == Event::Key(Key::Escape, Action::Press) {
            LoopState::ShuttingDown
        } else {
            LoopState::Running
        }),
{
}

/// A key that is pressed and released again leaves the movement as it was,
/// unless a count stood at the end of the range of the machine's numbers.
pub proof fn lemma_press_release(movement: Movement, key: Key)
    requires
        i32::MIN < movement.x < i32::MAX,
        i32::MIN < movement.y < i32::MAX,
        i32::MIN < movement.z < i32::MAX,
    ensures
        movement_after(movement_after(movement, key, Action::Press), key, Action::Release)
            == movement,
{
}

/// Keys do not turn the camera, and the pointer does not move it.
pub proof fn lemma_event_leaves_position(
    frame: FrameLoop,
    controller: CameraController,
    camera: Camera,
    event: Event,
)
    ensures
        after_event(frame, controller, camera, event).1.position == camera.position,
        !(event is CursorPos) ==> after_event(frame, controller, camera, event).1 == camera,
{
}

/// The matrices of a frame.
#[derive(Clone, Copy, Debug, PartialEq, Eq)]
pub struct FrameMatrices {
    pub projection: Matrix4,
    pub view: Matrix4,
    pub model: Matrix4,
    /// The matrix that carries normals along with the model.
    pub normal: Matrix4,
}

/// One plan after another. What stands against the first stands against
/// both, and is reported before what stands against the second.
pub open spec fn followed_by(
    first: Result<Seq<Command>, Seq<char>>,
    next: Result<Seq<Command>, Seq<char>>,
) -> Result<Seq<Command>, Seq<char>> {
    match first {
        Err(message) => Err(message),
        Ok(commands) => match next {
            Err(message) => Err(message),
            Ok(more) => Ok(commands + more),
        },
    }
}

/// What a write into a block comes to, with the report of a refusal as text.
pub open spec fn written(block: &UniformBufferObject, uniform: Seq<char>, data: UniformData) -> Result<
    Seq<Command>,
    Seq<char>,
> {
    match block.write_result(uniform, data) {
        Ok(commands) => Ok(commands),
        Err(error) => Err(write_error_message(error, uniform)),
    }
}

/// What drawing the skybox, where there is one, comes to.
pub open spec fn skybox_result(skybox: Option<(&Skybox, i32)>, view: Matrix4) -> Result<
    Seq<Command>,
    Seq<char>,
> {
    match skybox {
        Some((skybox, view_location)) => skybox.draw_result(view, view_location),
        None => Ok(Seq::empty()),
    }
}

/// What a frame comes to. The buffers are cleared; projection, view, model
/// and normal matrix are written to the block of matrices and the place of
/// the light to the block of the light; the skybox, where there is one, is
/// drawn, and the model after it. The first step that cannot be planned is
/// reported, and nothing is drawn.
pub open spec fn render_result(
    matrix_block: &UniformBufferObject,
    light_block: &UniformBufferObject,
    matrices: FrameMatrices,
    light_position: [u32; 3],
    skybox: Option<(&Skybox, i32)>,
    model: &Model,
    uniforms: Seq<MaterialUniforms>,
) -> Result<Seq<Command>, Seq<char>> {
    let clear: Result<Seq<Command>, Seq<char>> = Ok(
        seq![Command::ClearColor { rgba: CLEAR_COLOR }, Command::Clear],
    );
    let projection = written(matrix_block, "projection"@, UniformData::Matrix(matrices.projection));
    let view = written(matrix_block, "view"@, UniformData::Matrix(matrices.view));
    let placed = written(matrix_block, "model"@, UniformData::Matrix(matrices.model));
    let normal = written(matrix_block, "normalMatrix"@, UniformData::Matrix(matrices.normal));
    let light = written(light_block, "lightPos"@, UniformData::Vector(light_position));
    let sky = skybox_result(skybox, matrices.view);
    let drawn = model.draw_result(uniforms, model.meshes@.len() as int);
    followed_by(
        followed_by(
            followed_by(
                followed_by(
                    followed_by(followed_by(followed_by(clear, projection), view), placed),
                    normal,
                ),
                light,
            ),
            sky,
        ),
        drawn,
    )
}

/// The uniforms of the block of matrices: four matrices of 64 bytes.
pub fn matrix_block() -> (block: Vec<SubUniform>)
    ensures
        block@.len() == 4,
        block@[0].name@ == "projection"@,
        block@[1].name@ == "view"@,
        block@[2].name@ == "model"@,
        block@[3].name@ == "normalMatrix"@,
        forall|i: int| 0 <= i < 4 ==> (#[trigger] block@[i]).size == 64,
{
    vec![
        SubUniform { name: String::from_str("projection"), size: 64 },
        SubUniform { name: String::from_str("view"), size: 64 },
        SubUniform { name: String::from_str("model"), size: 64 },
        SubUniform { name: String::from_str("normalMatrix"), size: 64 },
    ]
}

/// The uniforms of the block of the light: its place, 12 bytes.
pub fn light_block() -> (block: Vec<SubUniform>)
    ensures
        block@.len() == 1,
        block@[0].name@ == "lightPos"@,
        block@[0].size == 12,
{
    vec![SubUniform { name: String::from_str("lightPos"), size: 12 }]
}

/// The command that is issued once before the first frame: depth is tested.
pub fn init_commands() -> (commands: Vec<Command>)
    ensures
        commands@ == seq![Command::EnableDepthTest],
{
    vec![Command::EnableDepthTest]
}

/// Appends the commands of a write into a block, or hands out the report of
/// its refusal.
fn append_written(
    block: &UniformBufferObject,
    uniform: &str,
    data: UniformData,
    commands: &mut Vec<Command>,
) -> (refused: Option<String>)
    requires
        block.wf(),
    ensures
        followed_by(Ok(old(commands)@), written(block, uniform@, data)) == (match refused {
            None => Ok::<Seq<Command>, Seq<char>>(final(commands)@),
            Some(message) => Err::<Seq<Command>, Seq<char>>(message@),
        }),
{
    match block.write_sub_data(uniform, data) {
        Ok(mut more) => {
            commands.append(&mut more);
            None
        },
        Err(error) => Some(error.describe(uniform)),
    }
}

/// The commands of one frame; see `render_result`. `skybox` holds, beside the
/// skybox, the location that the device reported for the view in its
/// program, and `uniforms` for every material of the model what its draw
/// needs.
pub fn render(
    matrix_block: &UniformBufferObject,
    light_block: &UniformBufferObject,
    matrices: &FrameMatrices,
    light_position: [u32; 3],
    skybox: Option<(&Skybox, i32)>,
    model: &Model,
    uniforms: &Vec<MaterialUniforms>,
) -> (result: Result<Vec<Command>, String>)
    requires
        matrix_block.wf(),
        light_block.wf(),
        model.wf(),
        uniforms@.len() == model.materials@.len(),
    ensures
        planned(result) == render_result(
            matrix_block,
            light_block,
            *matrices,
            light_position,
            skybox,
            model,
            uniforms@,
        ),
{
    let mut commands: Vec<Command> = vec![
        Command::ClearColor { rgba: CLEAR_COLOR },
        Command::Clear,
    ];
    if let Some(message) = append_written(
        matrix_block,
        "projection",
        UniformData::Matrix(matrices.projection),
        &mut commands,
    ) {
        return Err(message);
    }
    if let Some(message) = append_written(
        matrix_block,
        "view",
        UniformData::Matrix(matrices.view),
        &mut commands,
    ) {
        return Err(message);
    }
    if let Some(message) = append_written(
        matrix_block,
        "model",
        UniformData::Matrix(matrices.model),
        &mut commands,
    ) {
        return Err(message);
    }
    if let Some(message) = append_written(
        matrix_block,
        "normalMatrix",
        UniformData::Matrix(matrices.normal),
        &mut commands,
    ) {
        return Err(message);
    }
    if let Some(message) = append_written(
        light_block,
        "lightPos",
        UniformData::Vector(light_position),
        &mut commands,
    ) {
        return Err(message);
    }
    match skybox {
        Some((skybox, view_location)) => {
            match skybox.draw(&matrices.view, view_location) {
                Err(message) => {
                    return Err(message);
                },
                Ok(mut sky) => {
                    commands.append(&mut sky);
                },
            }
        },
        None => {
            assert(commands@ + Seq::<Command>::empty() =~= commands@);
        },
    }
    match model.draw(uniforms) {
        Err(message) => Err(message),
        Ok(mut drawn) => {
            commands.append(&mut drawn);
            Ok(commands)
        },
    }
}

} // verus!
