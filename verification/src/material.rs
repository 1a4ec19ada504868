//! Materials: a program with the textures that it samples.

use vstd::prelude::*;
use crate::command::{planned, Command, TextureTarget};
use crate::shader::program::{set_uniforms_result, LocatedUniform, Program};
use crate::texture::Texture;
use crate::uniform::{AnyUniform, UniformInt};

verus! {

/// The texture unit of the colour texture.
pub const BASE_COLOR_UNIT: u32 = 0;

/// The texture unit of the normal texture.
pub const NORMAL_UNIT: u32 = 1;

/// A program and the colour and normal texture that it samples. Meshes name
/// their material by its index; a material owns none.
#[derive(Debug)]
pub struct Material<'a> {
    pub program: &'a Program,
    pub base_color: Texture,
    pub normal: Texture,
}

/// The samplers of a material with the locations that the device reported
/// for their names: the colour texture is read from unit 0, the normal
/// texture from unit 1.
pub open spec fn sampler_uniforms(diffuse_location: i32, normal_location: i32) -> Seq<
    LocatedUniform<'static>,
> {
    seq![
        LocatedUniform {
            uniform: AnyUniform::Int(UniformInt { name: "diffuseTexture", value: 0 }),
            location: diffuse_location,
        },
        LocatedUniform {
            uniform: AnyUniform::Int(UniformInt { name: "normalTexture", value: 1 }),
            location: normal_location,
        },
    ]
}

/// The commands that bind a texture to a unit.
pub open spec fn bind_commands(unit: u32, texture: u32) -> Seq<Command> {
    seq![
        Command::ActiveTexture { unit },
        Command::BindTexture { binding: TextureTarget::Texture2D, texture },
    ]
}

impl<'a> Material<'a> {
    pub fn new(program: &'a Program, base_color: Texture, normal: Texture) -> (material: Material<
        'a,
    >)
        ensures
            material.program == program,
            material.base_color == base_color,
            material.normal == normal,
    {
        Material { program, base_color, normal }
    }

    /// What binding the textures comes to: both are bound to their units and
    /// both samplers are set, or the first sampler that the program lacks is
    /// reported.
    pub open spec fn set_textures_result(
        &self,
        diffuse_location: i32,
        normal_location: i32,
    ) -> Result<Seq<Command>, Seq<char>> {
        match set_uniforms_result(
            self.program.id,
            sampler_uniforms(diffuse_location, normal_location),
        ) {
            Ok(samplers) => Ok(
                bind_commands(BASE_COLOR_UNIT, self.base_color.id) + bind_commands(
                    NORMAL_UNIT,
                    self.normal.id,
                ) + samplers,
            ),
            Err(message) => Err(message),
        }
    }

    /// What making the material the current one comes to: the program is
    /// used, the textures are bound and `uniforms` are set, or the first
    /// uniform that the program lacks, the samplers before the others, is
    /// reported.
    pub open spec fn use_material_result(
        &self,
        uniforms: Seq<LocatedUniform>,
        diffuse_location: i32,
        normal_location: i32,
    ) -> Result<Seq<Command>, Seq<char>> {
        match self.set_textures_result(diffuse_location, normal_location) {
            Err(message) => Err(message),
            Ok(textures) => match set_uniforms_result(self.program.id, uniforms) {
                Err(message) => Err(message),
                Ok(others) => Ok(
                    seq![Command::UseProgram { program: self.program.id }] + textures + others,
                ),
            },
        }
    }

    /// The commands that bind the textures of the material to their units and
    /// set its samplers, at the locations that the device reported for
    /// `diffuseTexture` and `normalTexture`.
    pub fn set_textures(&self, diffuse_location: i32, normal_location: i32) -> (result: Result<
        Vec<Command>,
        String,
    >)
        ensures
            planned(result) == self.set_textures_result(diffuse_location, normal_location),
    {
        let samplers: Vec<LocatedUniform> = vec![
            LocatedUniform {
                uniform: AnyUniform::Int(*UniformInt::new("diffuseTexture", 0)),
                location: diffuse_location,
            },
            LocatedUniform {
                uniform: AnyUniform::Int(*UniformInt::new("normalTexture", 1)),
                location: normal_location,
            },
        ];
        assert(samplers@ =~= sampler_uniforms(diffuse_location, normal_location));
        match self.program.set_uniforms(&samplers) {
            Err(message) => Err(message),
            Ok(mut set) => {
                let mut commands = self.base_color.bind(BASE_COLOR_UNIT);
                let mut normal = self.normal.bind(NORMAL_UNIT);
                commands.append(&mut normal);
                commands.append(&mut set);
                Ok(commands)
            },
        }
    }

    /// The commands that make the material the current one for a draw: its
    /// program is used, its textures are bound and `uniforms` are set.
    pub fn use_material(
        &self,
        uniforms: &Vec<LocatedUniform>,
        diffuse_location: i32,
        normal_location: i32,
    ) -> (result: Result<Vec<Command>, String>)
        ensures
            planned(result) == self.use_material_result(
                uniforms@,
                diffuse_location,
                normal_location,
            ),
    {
        let mut textures = match self.set_textures(diffuse_location, normal_location) {
            Err(message) => {
                return Err(message);
            },
            Ok(textures) => textures,
        };
        let mut others = match self.program.set_uniforms(uniforms) {
            Err(message) => {
                return Err(message);
            },
            Ok(others) => others,
        };
        let ghost bound = textures@;
        let ghost set = others@;
        let mut commands: Vec<Command> = vec![self.program.use_program()];
        commands.append(&mut textures);
        commands.append(&mut others);
        assert(commands@ =~= seq![Command::UseProgram { program: self.program.id }] + bound + set);
        Ok(commands)
    }
}

} // verus!
