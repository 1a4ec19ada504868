//! Shaders: compiled stages of a program.

pub mod program;

pub use self::program::Program;

use vstd::prelude::*;
use vstd::string::StringExecFns;
use crate::command::Command;
use crate::resources::{Error, ResourceLoader};

verus! {

/// The kind of a vertex shader, as the device numbers it.
pub const VERTEX_SHADER: u32 = 0x8B31;

/// The kind of a fragment shader, as the device numbers it.
pub const FRAGMENT_SHADER: u32 = 0x8B30;

/// The number of bytes of a compile or link log that are asked for.
pub const INFO_LOG_CAPACITY: usize = 512;

/// The status that the device reports of a failed compilation or link.
pub const FAILED: i32 = 0;

/// A compiled shader on the device.
#[derive(Debug, PartialEq, Eq)]
pub struct Shader {
    pub id: u32,
    /// Whether the shader has been deleted on the device.
    pub released: bool,
}

/// The name of a shader stage in diagnostics.
pub open spec fn shader_type(kind: u32) -> Seq<char> {
    if kind == VERTEX_SHADER {
        "Vertex"@
    } else if kind == FRAGMENT_SHADER {
        "Fragment"@
    } else {
        "Unspecified type"@
    }
}

/// What is reported of a shader that did not compile: its stage, its file and
/// the log of the compiler.
pub open spec fn compile_error_message(
    kind: u32,
    file_path: Seq<char>,
    info_log: Seq<char>,
) -> Seq<char> {
    "Error: "@ + shader_type(kind) + " shader from "@ + file_path + " compilation failed: "@
        + info_log
}

/// What is reported of a shader whose source could not be had: its file and
/// the cause.
pub open spec fn source_error_message(file_path: Seq<char>, cause: Seq<char>) -> Seq<char> {
    "Error loading shader "@ + file_path + ": "@ + cause
}

/// The name of the stage `kind`.
pub fn shader_type_name(kind: u32) -> (name: &'static str)
    ensures
        name@ == shader_type(kind),
{
    if kind == VERTEX_SHADER {
        "Vertex"
    } else if kind == FRAGMENT_SHADER {
        "Fragment"
    } else {
        "Unspecified type"
    }
}

impl Shader {
    pub fn id(&self) -> (id: u32)
        ensures
            id == self.id,
    {
        self.id
    }

    /// The source text of the shader in the file `file_path` as the device
    /// takes it, from what reading the file gave: its bytes with a zero byte
    /// behind them. A file that could not be read, or that holds a zero byte
    /// itself, is reported with its path and the cause.
    pub fn source(file_path: &str, file: Result<Vec<u8>, Error>) -> (result: Result<Vec<u8>, String>)
        ensures
            match file {
                Ok(bytes) => if bytes@.contains(0u8) {
                    result is Err && exists|at: usize|
                        {
                            &&& 0 <= at < bytes@.len()
                            &&& bytes@[at as int] == 0
                            &&& forall|j: int| 0 <= j < at ==> bytes@[j] != 0
                            &&& result->Err_0@ == source_error_message(
                                file_path@,
                                Error::FileContainsNil(at).description(),
                            )
                        }
                } else {
                    result is Ok && result->Ok_0@ == bytes@.push(0u8)
                },
                Err(error) => result is Err && result->Err_0@ == source_error_message(
                    file_path@,
                    error.description(),
                ),
            },
    {
        let loaded = match file {
            Ok(bytes) => ResourceLoader::load_cstring(bytes),
            Err(error) => Err(error),
        };
        match loaded {
            Ok(text) => Ok(text),
            Err(error) => {
                let cause = error.describe();
                let mut message = String::from_str("Error loading shader ");
                message.append(file_path);
                message.append(": ");
                message.append(cause.as_str());
                proof {
                    assert(message@ == source_error_message(file_path@, cause@));
                }
                Err(message)
            },
        }
    }

    /// The commands that compile the source text, the payload, into the fresh
    /// shader object `id`.
    pub fn compile_commands(id: u32) -> (commands: Vec<Command>)
        ensures
            commands@ == seq![
                Command::ShaderSource { shader: id },
                Command::CompileShader { shader: id },
            ],
    {
        vec![Command::ShaderSource { shader: id }, Command::CompileShader { shader: id }]
    }

    /// Judges the compilation of the shader `id` of stage `kind` from the
    /// file `file_path`, by the status that the device reports of it. On any
    /// status but failure the shader is handed out; on failure the error
    /// names the stage and the file and quotes `info_log`, the log of the
    /// compiler.
    pub fn from_source(id: u32, file_path: &str, kind: u32, status: i32, info_log: &str) -> (result:
        Result<Shader, String>)
        ensures
            status != FAILED ==> result == Ok::<Shader, String>(Shader { id, released: false }),
            status == FAILED ==> result is Err && result->Err_0@ == compile_error_message(
                kind,
                file_path@,
                info_log@,
            ),
    {
        if status == FAILED {
            let mut message = String::from_str("Error: ");
            message.append(shader_type_name(kind));
            message.append(" shader from ");
            message.append(file_path);
            message.append(" compilation failed: ");
            message.append(info_log);
            Err(message)
        } else {
            Ok(Shader { id, released: false })
        }
    }

    /// `from_source` for a vertex shader.
    pub fn from_vertex_source(id: u32, file_path: &str, status: i32, info_log: &str) -> (result:
        Result<Shader, String>)
        ensures
            status != FAILED ==> result == Ok::<Shader, String>(Shader { id, released: false }),
            status == FAILED ==> result is Err && result->Err_0@ == compile_error_message(
                VERTEX_SHADER,
                file_path@,
                info_log@,
            ),
    {
        Shader::from_source(id, file_path, VERTEX_SHADER, status, info_log)
    }

    /// `from_source` for a fragment shader.
    pub fn from_fragment_source(id: u32, file_path: &str, status: i32, info_log: &str) -> (result:
        Result<Shader, String>)
        ensures
            status != FAILED ==> result == Ok::<Shader, String>(Shader { id, released: false }),
            status == FAILED ==> result is Err && result->Err_0@ == compile_error_message(
                FRAGMENT_SHADER,
                file_path@,
                info_log@,
            ),
    {
        Shader::from_source(id, file_path, FRAGMENT_SHADER, status, info_log)
    }

    /// Gives the shader up. The first call hands out the command that deletes
    /// it on the device; every later call hands out nothing, so that the
    /// shader is deleted once at most.
    pub fn release(&mut self) -> (command: Option<Command>)
        ensures
            final(self).id == old(self).id,
            final(self).released,
            !old(self).released ==> command == Some(Command::DeleteShader { shader: old(self).id }),
            old(self).released ==> command is None,
    {
        if self.released {
            None
        } else {
            self.released = true;
            Some(Command::DeleteShader { shader: self.id })
        }
    }
}

} // verus!
