//! Uniforms: named values handed to a shader program for a draw.

use vstd::prelude::*;
use vstd::string::StringExecFns;
use crate::command::{Command, Matrix4};
use crate::text::{decimal, decimal_string};

verus! {

/// The location that the device reports for a name that the program lacks.
pub const NOT_FOUND: i32 = -1;

/// A named value that can be set at the location that the device reports for
/// its name.
pub trait Uniform {
    /// The name of the uniform in the shader.
    spec fn spec_name(&self) -> Seq<char>;

    /// The command that sets the value at `location`.
    spec fn spec_command(&self, location: i32) -> Command;

    fn name(&self) -> (name: &str)
        ensures
            name@ == self.spec_name(),
    ;

    fn set(&self, location: i32) -> (command: Command)
        ensures
            command == self.spec_command(location),
    ;
}

/// A four by four matrix.
#[derive(Clone, Copy, Debug, PartialEq, Eq)]
pub struct UniformMat4f<'a> {
    pub name: &'a str,
    pub value: Matrix4,
}

impl<'a> UniformMat4f<'a> {
    pub fn new(name: &'a str, value: Matrix4) -> (uniform: Box<UniformMat4f<'a>>)
        ensures
            *uniform == (UniformMat4f { name, value }),
    {
        Box::new(UniformMat4f { name, value })
    }
}

impl<'a> Uniform for UniformMat4f<'a> {
    open spec fn spec_name(&self) -> Seq<char> {
        self.name@
    }

    open spec fn spec_command(&self, location: i32) -> Command {
        Command::UniformMatrix4fv { location, matrix: self.value }
    }

    fn name(&self) -> (name: &str) {
        self.name
    }

    fn set(&self, location: i32) -> (command: Command) {
        Command::UniformMatrix4fv { location, matrix: self.value }
    }
}

/// A vector of three numbers, as their words.
#[derive(Clone, Copy, Debug, PartialEq, Eq)]
pub struct Uniform3f<'a> {
    pub name: &'a str,
    pub value: [u32; 3],
}

impl<'a> Uniform3f<'a> {
    pub fn new(name: &'a str, value: [u32; 3]) -> (uniform: Box<Uniform3f<'a>>)
        ensures
            *uniform == (Uniform3f { name, value }),
    {
        Box::new(Uniform3f { name, value })
    }
}

impl<'a> Uniform for Uniform3f<'a> {
    open spec fn spec_name(&self) -> Seq<char> {
        self.name@
    }

    open spec fn spec_command(&self, location: i32) -> Command {
        Command::Uniform3f { location, vector: self.value }
    }

    fn name(&self) -> (name: &str) {
        self.name
    }

    fn set(&self, location: i32) -> (command: Command) {
        Command::Uniform3f { location, vector: self.value }
    }
}

/// An integer: the unit of a sampler, for one.
#[derive(Clone, Copy, Debug, PartialEq, Eq)]
pub struct UniformInt<'a> {
    pub name: &'a str,
    pub value: i32,
}

impl<'a> UniformInt<'a> {
    pub fn new(name: &'a str, value: i32) -> (uniform: Box<UniformInt<'a>>)
        ensures
            *uniform == (UniformInt { name, value }),
    {
        Box::new(UniformInt { name, value })
    }
}

impl<'a> Uniform for UniformInt<'a> {
    open spec fn spec_name(&self) -> Seq<char> {
        self.name@
    }

    open spec fn spec_command(&self, location: i32) -> Command {
        Command::Uniform1i { location, value: self.value }
    }

    fn name(&self) -> (name: &str) {
        self.name
    }

    fn set(&self, location: i32) -> (command: Command) {
        Command::Uniform1i { location, value: self.value }
    }
}

/// Any of the uniforms that a program can be given.
#[derive(Clone, Copy, Debug, PartialEq, Eq)]
pub enum AnyUniform<'a> {
    Mat4f(UniformMat4f<'a>),
    Vec3f(Uniform3f<'a>),
    Int(UniformInt<'a>),
}

impl<'a> Uniform for AnyUniform<'a> {
    open spec fn spec_name(&self) -> Seq<char> {
        match *self {
            AnyUniform::Mat4f(u) => u.spec_name(),
            AnyUniform::Vec3f(u) => u.spec_name(),
            AnyUniform::Int(u) => u.spec_name(),
        }
    }

    open spec fn spec_command(&self, location: i32) -> Command {
        match *self {
            AnyUniform::Mat4f(u) => u.spec_command(location),
            AnyUniform::Vec3f(u) => u.spec_command(location),
            AnyUniform::Int(u) => u.spec_command(location),
        }
    }

    fn name(&self) -> (name: &str) {
        match self {
            AnyUniform::Mat4f(u) => u.name(),
            AnyUniform::Vec3f(u) => u.name(),
            AnyUniform::Int(u) => u.name(),
        }
    }

    fn set(&self, location: i32) -> (command: Command) {
        match self {
            AnyUniform::Mat4f(u) => u.set(location),
            AnyUniform::Vec3f(u) => u.set(location),
            AnyUniform::Int(u) => u.set(location),
        }
    }
}

/// What is reported of a uniform that the program lacks: the name asked for
/// and the program asked.
pub open spec fn not_found_message(name: Seq<char>, program_id: u32) -> Seq<char> {
    "Uniform location \""@ + name + "\" was not found in program with id "@ + decimal(
        program_id as nat,
    )
}

/// Judges the location that the device reported for `uniform_name` in the
/// program `program_id`: a location is handed on, and the report that the
/// program has no such uniform becomes an error that names both.
pub fn get_location(program_id: u32, uniform_name: &str, location: i32) -> (result: Result<
    i32,
    String,
>)
    ensures
        location != NOT_FOUND ==> result == Ok::<i32, String>(location),
        location == NOT_FOUND ==> result is Err && result->Err_0@ == not_found_message(
            uniform_name@,
            program_id,
        ),
{
    if location == NOT_FOUND {
        let mut message = String::from_str("Uniform location \"");
        message.append(uniform_name);
        message.append("\" was not found in program with id ");
        let id = decimal_string(program_id as u64);
        message.append(id.as_str());
        Err(message)
    } else {
        Ok(location)
    }
}

} // verus!
