//! Programs: linked shaders.

use vstd::prelude::*;
use vstd::string::StringExecFns;
use crate::command::{planned, Command};
use crate::shader::{Shader, FAILED};
use crate::uniform::{get_location, not_found_message, AnyUniform, Uniform, NOT_FOUND};

verus! {

/// A linked shader program on the device.
#[derive(Debug, PartialEq, Eq)]
pub struct Program {
    pub id: u32,
}

/// The link of a program: every shader is attached in order, the program is
/// linked, and every shader is detached again in the same order.
pub open spec fn link_commands(program: u32, shaders: Seq<Shader>) -> Seq<Command> {
    let n = shaders.len() as int;
    Seq::new(
        (2 * n + 1) as nat,
        |i: int|
            if i < n {
                Command::AttachShader { program, shader: shaders[i].id }
            } else if i == n {
                Command::LinkProgram { program }
            } else {
                Command::DetachShader { program, shader: shaders[i - n - 1].id }
            },
    )
}

/// What is reported of a program that did not link: the log of the linker.
pub open spec fn link_error_message(info_log: Seq<char>) -> Seq<char> {
    "Error: Program linking failed: "@ + info_log
}

/// A uniform with the location that the device reported for its name.
#[derive(Clone, Copy, Debug, PartialEq, Eq)]
pub struct LocatedUniform<'a> {
    pub uniform: AnyUniform<'a>,
    pub location: i32,
}

/// The commands that set the first `count` uniforms, in order.
pub open spec fn uniform_commands(uniforms: Seq<LocatedUniform>, count: int) -> Seq<Command> {
    Seq::new(count as nat, |i: int| uniforms[i].uniform.spec_command(uniforms[i].location))
}

/// The place of the first uniform that the program lacks, or the number of
/// uniforms if it has them all.
pub open spec fn first_missing(uniforms: Seq<LocatedUniform>) -> int
    decreases uniforms.len(),
{
    if uniforms.len() == 0 {
        0
    } else if uniforms[0].location == NOT_FOUND {
        0
    } else {
        1 + first_missing(uniforms.skip(1))
    }
}

/// What setting `uniforms` in the program `program` comes to: the commands
/// that set them all, in order, or the report of the first that the program
/// lacks.
pub open spec fn set_uniforms_result(program: u32, uniforms: Seq<LocatedUniform>) -> Result<
    Seq<Command>,
    Seq<char>,
> {
    if first_missing(uniforms) == uniforms.len() {
        Ok(uniform_commands(uniforms, uniforms.len() as int))
    } else {
        Err(not_found_message(uniforms[first_missing(uniforms)].uniform.spec_name(), program))
    }
}

/// `first_missing` is the least place with no location.
pub proof fn lemma_first_missing(uniforms: Seq<LocatedUniform>)
    ensures
        0 <= first_missing(uniforms) <= uniforms.len(),
        forall|i: int|
            0 <= i < first_missing(uniforms) ==> (#[trigger] uniforms[i]).location != NOT_FOUND,
        first_missing(uniforms) < uniforms.len() ==> uniforms[first_missing(uniforms)].location
            == NOT_FOUND,
    decreases uniforms.len(),
{
    if uniforms.len() > 0 && uniforms[0].location != NOT_FOUND {
        let rest = uniforms.skip(1);
        lemma_first_missing(rest);
        assert forall|i: int| 0 <= i < first_missing(uniforms) implies (#[trigger] uniforms[i]).location
            != NOT_FOUND by {
            if i > 0 {
                assert(uniforms[i] == rest[i - 1]);
            }
        }
    }
}

impl Program {
    /// The commands that link `shaders` into the fresh program object `id`.
    pub fn link_commands(id: u32, shaders: &[Shader]) -> (commands: Vec<Command>)
        ensures
            commands@ == link_commands(id, shaders@),
    {
        let n: usize = shaders.len();
        let mut commands: Vec<Command> = Vec::new();
        let mut i: usize = 0;
        while i < n
            invariant
                i <= n,
                n == shaders@.len(),
                commands@.len() == i,
                forall|j: int| 0 <= j < i ==> commands@[j] == link_commands(id, shaders@)[j],
            decreases n - i,
        {
            commands.push(Command::AttachShader { program: id, shader: shaders[i].id });
            i += 1;
        }
        commands.push(Command::LinkProgram { program: id });
        let mut k: usize = 0;
        while k < n
            invariant
                k <= n,
                n == shaders@.len(),
                commands@.len() == n + 1 + k,
                forall|j: int| 0 <= j < n + 1 + k ==> commands@[j] == link_commands(id, shaders@)[j],
            decreases n - k,
        {
            commands.push(Command::DetachShader { program: id, shader: shaders[k].id });
            k += 1;
        }
        assert(commands@ =~= link_commands(id, shaders@));
        commands
    }

    /// Judges the link of the program `id` by the status that the device
    /// reports of it. On any status but failure the program is handed out; on
    /// failure the error quotes `info_log`, the log of the linker.
    pub fn from_shaders(id: u32, status: i32, info_log: &str) -> (result: Result<Program, String>)
        ensures
            status != FAILED ==> result == Ok::<Program, String>(Program { id }),
            status == FAILED ==> result is Err && result->Err_0@ == link_error_message(info_log@),
    {
        if status == FAILED {
            let mut message = String::from_str("Error: Program linking failed: ");
            message.append(info_log);
            Err(message)
        } else {
            Ok(Program { id })
        }
    }

    /// Gives the program up and hands out the command that deletes it on the
    /// device. The program is gone with the call, so that it is deleted once.
    pub fn release(self) -> (command: Command)
        ensures
            command == (Command::DeleteProgram { program: self.id }),
    {
        Command::DeleteProgram { program: self.id }
    }

    /// The command that makes the program the current one.
    pub fn use_program(&self) -> (command: Command)
        ensures
            command == (Command::UseProgram { program: self.id }),
    {
        Command::UseProgram { program: self.id }
    }

    /// Judges the location that the device reported for `name` in this
    /// program; see `get_location`.
    pub fn get_uniform_location(&self, name: &str, location: i32) -> (result: Result<i32, String>)
        ensures
            location != NOT_FOUND ==> result == Ok::<i32, String>(location),
            location == NOT_FOUND ==> result is Err && result->Err_0@ == not_found_message(
                name@,
                self.id,
            ),
    {
        get_location(self.id, name, location)
    }

    /// The command that sets a vector of four numbers, given as their words.
    pub fn set_uniform_4f(&self, location: i32, value: [u32; 4]) -> (command: Command)
        ensures
            command == (Command::Uniform4f { location, vector4: value }),
    {
        Command::Uniform4f { location, vector4: value }
    }

    /// The commands that set `uniforms`, each at the location that the device
    /// reported for it, in order.
    ///
    /// A uniform that the program lacks is never passed over: the first such
    /// uniform makes the whole call fail with the error that names it and the
    /// program, and no command is handed out.
    pub fn set_uniforms(&self, uniforms: &Vec<LocatedUniform>) -> (result: Result<
        Vec<Command>,
        String,
    >)
        ensures
            planned(result) == set_uniforms_result(self.id, uniforms@),
    {
        let mut commands: Vec<Command> = Vec::new();
        let mut i: usize = 0;
        proof {
            lemma_first_missing(uniforms@);
        }
        while i < uniforms.len()
            invariant
                i <= uniforms@.len(),
                i <= first_missing(uniforms@) <= uniforms@.len(),
                first_missing(uniforms@) < uniforms@.len() ==> uniforms@[first_missing(
                    uniforms@,
                )].location == NOT_FOUND,
                forall|j: int|
                    0 <= j < first_missing(uniforms@) ==> (#[trigger] uniforms@[j]).location
                        != NOT_FOUND,
                commands@ == uniform_commands(uniforms@, i as int),
            decreases uniforms@.len() - i,
        {
            let located = &uniforms[i];
            match get_location(self.id, located.uniform.name(), located.location) {
                Ok(location) => {
                    commands.push(located.uniform.set(location));
                    assert(commands@ =~= uniform_commands(uniforms@, i + 1));
                },
                Err(message) => {
                    return Err(message);
                },
            }
            i += 1;
        }
        Ok(commands)
    }
}

} // verus!
