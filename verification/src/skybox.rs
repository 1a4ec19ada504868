//! The skybox: a cube around the viewer that shows the far surroundings.

use vstd::prelude::*;
use crate::command::{planned, Command, Matrix4, TextureTarget};
use crate::mesh::primitives::{
    corner_position, cube_index_list, cube_indices, cube_positions, CUBE_VERTICES, NEG_ONE, ONE,
};
use crate::mesh::vertex::{lemma_packed_layout, lemma_packed_len, packed_words, words_before};
use crate::mesh::{draw_commands, release_commands, upload_commands, Mesh, SkyboxVertex};
use crate::shader::program::{set_uniforms_result, LocatedUniform, Program};
use crate::texture::CubeMap;
use crate::uniform::{AnyUniform, UniformMat4f};

verus! {

/// The file of the vertex shader of the skybox.
pub const VERTEX_SHADER_PATH: &'static str = "assets/shaders/skybox.vert";

/// The file of the fragment shader of the skybox.
pub const FRAGMENT_SHADER_PATH: &'static str = "assets/shaders/skybox.frag";

/// The files of the faces of the skybox, in the order of the faces of a cube
/// map.
pub fn image_paths() -> (paths: [&'static str; 6])
    ensures
        paths@ == seq![
            "assets/skybox/sky/right.jpg",
            "assets/skybox/sky/left.jpg",
            "assets/skybox/sky/top.jpg",
            "assets/skybox/sky/bottom.jpg",
            "assets/skybox/sky/front.jpg",
            "assets/skybox/sky/back.jpg",
        ],
{
    let paths: [&'static str; 6] = [
        "assets/skybox/sky/right.jpg",
        "assets/skybox/sky/left.jpg",
        "assets/skybox/sky/top.jpg",
        "assets/skybox/sky/bottom.jpg",
        "assets/skybox/sky/front.jpg",
        "assets/skybox/sky/back.jpg",
    ];
    assert(paths@ =~= seq![
        "assets/skybox/sky/right.jpg",
        "assets/skybox/sky/left.jpg",
        "assets/skybox/sky/top.jpg",
        "assets/skybox/sky/bottom.jpg",
        "assets/skybox/sky/front.jpg",
        "assets/skybox/sky/back.jpg",
    ]);
    paths
}

/// The cube, its six images and the program that draws them.
#[derive(Debug)]
pub struct Skybox {
    pub mesh: Mesh,
    pub cube_map: CubeMap,
    pub program: Program,
}

/// A skybox with what brings its cube onto the device.
#[derive(Debug)]
pub struct SkyboxUpload {
    pub skybox: Skybox,
    /// The vertex buffer: the data of `DataSource::Vertices`.
    pub vertices: Vec<u32>,
    pub commands: Vec<Command>,
}

/// The vertex buffer of the skybox: the positions of the 24 corners of the
/// cube that reaches one unit from the centre along every axis.
pub open spec fn skybox_words() -> Seq<u32> {
    Seq::new(72, |k: int| corner_position(k / 3, ONE, NEG_ONE)[k % 3])
}

/// The view of the skybox with the location that the device reported for it:
/// the rotation of the view of the camera.
pub open spec fn view_uniform(view: Matrix4, view_location: i32) -> Seq<LocatedUniform<'static>> {
    seq![
        LocatedUniform {
            uniform: AnyUniform::Mat4f(UniformMat4f { name: "view", value: view.rotation() }),
            location: view_location,
        },
    ]
}

impl Skybox {
    /// Plans the upload of the cube of the skybox into the objects `vao`,
    /// `vbo` and `ebo`, and joins it with the cube map and the program that
    /// the caller has made of the files named above.
    pub fn new(vao: u32, vbo: u32, ebo: u32, cube_map: CubeMap, program: Program) -> (upload:
        SkyboxUpload)
        ensures
            upload.skybox.cube_map == cube_map,
            upload.skybox.program == program,
            upload.skybox.mesh.vao == vao,
            upload.skybox.mesh.vbo == vbo,
            upload.skybox.mesh.ebo == ebo,
            upload.skybox.mesh.indices@ == cube_indices(),
            upload.vertices@ == skybox_words(),
            upload.commands@ == upload_commands(vao, vbo, ebo, seq![3u32], 24, 36),
    {
        let positions = cube_positions(ONE, NEG_ONE);
        let mut vertices: Vec<SkyboxVertex> = Vec::new();
        let mut i: usize = 0;
        while i < CUBE_VERTICES
            invariant
                i <= CUBE_VERTICES,
                positions@.len() == CUBE_VERTICES,
                vertices@.len() == i,
                forall|j: int|
                    0 <= j < CUBE_VERTICES ==> (#[trigger] positions@[j])@ == corner_position(
                        j,
                        ONE,
                        NEG_ONE,
                    ),
                forall|j: int|
                    0 <= j < i ==> (#[trigger] vertices@[j]).position@ == corner_position(
                        j,
                        ONE,
                        NEG_ONE,
                    ),
            decreases CUBE_VERTICES - i,
        {
            vertices.push(SkyboxVertex::new(positions[i]));
            i += 1;
        }
        let indices = cube_index_list();
        proof {
            lemma_skybox_words(vertices@);
            reveal_with_fuel(words_before, 2);
        }
        let planned = Mesh::create(vao, vbo, ebo, vertices, indices);
        SkyboxUpload {
            skybox: Skybox { mesh: planned.mesh, cube_map, program },
            vertices: planned.vertices,
            commands: planned.commands,
        }
    }

    /// Gives the skybox up and hands out the commands that delete its cube,
    /// its cube map and its program on the device. The skybox is gone with
    /// the call, so that each is deleted once.
    pub fn release(self) -> (commands: Vec<Command>)
        ensures
            commands@ == release_commands(self.mesh.vao, self.mesh.vbo, self.mesh.ebo) + seq![
                Command::DeleteTexture { texture: self.cube_map.id },
                Command::DeleteProgram { program: self.program.id },
            ],
    {
        let mut commands = self.mesh.release();
        commands.push(self.cube_map.release());
        commands.push(self.program.release());
        commands
    }

    /// What drawing the skybox comes to: with writes to the depth buffer
    /// switched off, the program is used, its view is set to the rotation of
    /// `view`, the cube map is bound and the cube is drawn; after that the
    /// writes are switched on again. Where the program has no view, that is
    /// reported.
    pub open spec fn draw_result(&self, view: Matrix4, view_location: i32) -> Result<
        Seq<Command>,
        Seq<char>,
    > {
        match set_uniforms_result(self.program.id, view_uniform(view, view_location)) {
            Err(message) => Err(message),
            Ok(set) => Ok(
                seq![
                    Command::DepthMask { write: false },
                    Command::UseProgram { program: self.program.id },
                ] + set + seq![
                    Command::BindTexture {
                        binding: TextureTarget::CubeMap,
                        texture: self.cube_map.id,
                    },
                ] + draw_commands(
                    self.mesh.vao,
                    self.mesh.vbo,
                    self.mesh.ebo,
                    self.mesh.indices@.len() as int,
                ) + seq![Command::DepthMask { write: true }],
            ),
        }
    }

    /// The commands that draw the skybox as seen with the view matrix `view`
    /// of the camera. Only the rotation of the view is used: the skybox
    /// follows the viewer and so seems endlessly far. `view_location` is the
    /// location that the device reported for `view` in the program.
    pub fn draw(&self, view: &Matrix4, view_location: i32) -> (result: Result<Vec<Command>, String>)
        ensures
            planned(result) == self.draw_result(*view, view_location),
    {
        let uniforms: Vec<LocatedUniform> = vec![
            LocatedUniform {
                uniform: AnyUniform::Mat4f(*UniformMat4f::new("view", view.without_translation())),
                location: view_location,
            },
        ];
        assert(uniforms@ =~= view_uniform(*view, view_location));
        let mut set = match self.program.set_uniforms(&uniforms) {
            Err(message) => {
                return Err(message);
            },
            Ok(set) => set,
        };
        let ghost set_view = set@;
        let mut commands: Vec<Command> = vec![
            Command::DepthMask { write: false },
            self.program.use_program(),
        ];
        commands.append(&mut set);
        commands.push(
            Command::BindTexture { binding: TextureTarget::CubeMap, texture: self.cube_map.id },
        );
        let mut drawn = self.mesh.draw();
        commands.append(&mut drawn);
        commands.push(Command::DepthMask { write: true });
        assert(commands@ =~= seq![
            Command::DepthMask { write: false },
            Command::UseProgram { program: self.program.id },
        ] + set_view + seq![
            Command::BindTexture { binding: TextureTarget::CubeMap, texture: self.cube_map.id },
        ] + draw_commands(
            self.mesh.vao,
            self.mesh.vbo,
            self.mesh.ebo,
            self.mesh.indices@.len() as int,
        ) + seq![Command::DepthMask { write: true }]);
        Ok(commands)
    }
}

/// The vertex buffer of the corners of the skybox is the buffer of the skybox.
proof fn lemma_skybox_words(vertices: Seq<SkyboxVertex>)
    requires
        vertices.len() == CUBE_VERTICES,
        forall|j: int|
            0 <= j < CUBE_VERTICES ==> (#[trigger] vertices[j]).position@ == corner_position(
                j,
                ONE,
                NEG_ONE,
            ),
    ensures
        packed_words(vertices) == skybox_words(),
{
    let packed = packed_words(vertices);
    reveal_with_fuel(words_before, 2);
    lemma_packed_len(vertices);
    assert(packed.len() == 72);
    assert forall|k: int| 0 <= k < 72 implies packed[k] == skybox_words()[k] by {
        lemma_packed_layout(vertices, k / 3, 0, k % 3);
    }
    assert(packed =~= skybox_words());
}

} // verus!
