//! Uniform buffers: blocks of uniforms that every program shares.

use vstd::prelude::*;
use vstd::string::StringExecFns;
use crate::command::{BufferTarget, Command, DataSource, UniformData};
use crate::text::{decimal, decimal_string};

verus! {

/// One uniform of a block: its name and its size in bytes.
#[derive(Debug, PartialEq, Eq)]
pub struct SubUniform {
    pub name: String,
    pub size: usize,
}

/// The number of bytes in front of the uniform at `index`: the sum of the
/// sizes of the uniforms before it.
pub open spec fn bytes_before(sub_uniforms: Seq<SubUniform>, index: int) -> int
    decreases index,
{
    if index <= 0 {
        0
    } else {
        bytes_before(sub_uniforms, index - 1) + sub_uniforms[index - 1].size
    }
}

/// The size of the block.
pub open spec fn total_bytes(sub_uniforms: Seq<SubUniform>) -> int {
    bytes_before(sub_uniforms, sub_uniforms.len() as int)
}

/// The uniform at `index` is the first of that name.
pub open spec fn is_first_named(sub_uniforms: Seq<SubUniform>, name: Seq<char>, index: int) -> bool {
    &&& 0 <= index < sub_uniforms.len()
    &&& sub_uniforms[index].name@ == name
    &&& forall|j: int| 0 <= j < index ==> (#[trigger] sub_uniforms[j]).name@ != name
}

/// The index of the first uniform named `name` among the first `count`, or
/// `count` if none of them has that name.
pub open spec fn position_of(sub_uniforms: Seq<SubUniform>, name: Seq<char>, count: int) -> int
    decreases count,
{
    if count <= 0 {
        0
    } else {
        let before = position_of(sub_uniforms, name, count - 1);
        if before < count - 1 || sub_uniforms[count - 1].name@ == name {
            before
        } else {
            count
        }
    }
}

/// `position_of` finds the first uniform of the name, and finds one wherever
/// there is one.
pub proof fn lemma_position_of(sub_uniforms: Seq<SubUniform>, name: Seq<char>, count: int)
    requires
        0 <= count <= sub_uniforms.len(),
    ensures
        0 <= position_of(sub_uniforms, name, count) <= count,
        position_of(sub_uniforms, name, count) < count ==> is_first_named(
            sub_uniforms,
            name,
            position_of(sub_uniforms, name, count),
        ),
        position_of(sub_uniforms, name, count) == count ==> forall|j: int|
            0 <= j < count ==> (#[trigger] sub_uniforms[j]).name@ != name,
    decreases count,
{
    if count > 0 {
        lemma_position_of(sub_uniforms, name, count - 1);
    }
}

/// Offsets grow with the index.
pub proof fn lemma_bytes_before_monotonic(sub_uniforms: Seq<SubUniform>, a: int, b: int)
    requires
        0 <= a <= b,
    ensures
        0 <= bytes_before(sub_uniforms, a) <= bytes_before(sub_uniforms, b),
    decreases b,
{
    if a < b {
        lemma_bytes_before_monotonic(sub_uniforms, a, b - 1);
    } else if a > 0 {
        lemma_bytes_before_monotonic(sub_uniforms, a - 1, a - 1);
    }
}

/// A block of uniforms in a buffer on the device, one uniform after the
/// other.
#[derive(Debug, PartialEq, Eq)]
pub struct UniformBufferObject {
    pub id: u32,
    pub size: usize,
    pub sub_uniforms: Vec<SubUniform>,
}

/// Why a write into a block is refused.
#[derive(Clone, Copy, Debug, PartialEq, Eq)]
pub enum WriteError {
    /// The block has no uniform of that name.
    UnknownUniform,
    /// The value is not as large as the uniform.
    SizeMismatch { expected: usize, found: usize },
}

/// What is reported of a write that is refused.
pub open spec fn write_error_message(error: WriteError, uniform: Seq<char>) -> Seq<char> {
    match error {
        WriteError::UnknownUniform => "Uniform \""@ + uniform
            + "\" was not found in the uniform block"@,
        WriteError::SizeMismatch { expected, found } => "Uniform \""@ + uniform + "\" holds "@
            + decimal(expected as nat) + " bytes and was given "@ + decimal(found as nat),
    }
}

impl WriteError {
    /// The report of the refusal of a write to the uniform `uniform`.
    pub fn describe(&self, uniform: &str) -> (message: String)
        ensures
            message@ == write_error_message(*self, uniform@),
    {
        let mut message = String::from_str("Uniform \"");
        message.append(uniform);
        match self {
            WriteError::UnknownUniform => {
                message.append("\" was not found in the uniform block");
            },
            WriteError::SizeMismatch { expected, found } => {
                message.append("\" holds ");
                let held = decimal_string(*expected as u64);
                message.append(held.as_str());
                message.append(" bytes and was given ");
                let given = decimal_string(*found as u64);
                message.append(given.as_str());
            },
        }
        message
    }
}

impl UniformBufferObject {
    /// The size is that of the uniforms together.
    pub open spec fn wf(&self) -> bool {
        self.size == total_bytes(self.sub_uniforms@)
    }

    /// What a write of `data` to the uniform `uniform` comes to: the buffer
    /// is bound and the bytes of the first uniform of that name, which lie
    /// behind those of the uniforms before it, are overwritten; or the write
    /// is refused, for a name that the block lacks or a value of another size
    /// than the uniform.
    pub open spec fn write_result(&self, uniform: Seq<char>, data: UniformData) -> Result<
        Seq<Command>,
        WriteError,
    > {
        let index = position_of(self.sub_uniforms@, uniform, self.sub_uniforms@.len() as int);
        if index == self.sub_uniforms@.len() {
            Err(WriteError::UnknownUniform)
        } else if self.sub_uniforms@[index].size != data.spec_bytes() {
            Err(
                WriteError::SizeMismatch {
                    expected: self.sub_uniforms@[index].size,
                    found: data.spec_bytes() as usize,
                },
            )
        } else {
            Ok(
                seq![
                    Command::BindBuffer { target: BufferTarget::Uniform, buffer: self.id },
                    Command::BufferSubData {
                        target: BufferTarget::Uniform,
                        offset: bytes_before(self.sub_uniforms@, index) as usize,
                        size: self.sub_uniforms@[index].size,
                        source: DataSource::Words(data),
                    },
                ],
            )
        }
    }

    /// A write that is planned stays inside the block.
    pub proof fn lemma_write_in_bounds(&self, uniform: Seq<char>, data: UniformData)
        requires
            self.wf(),
            self.write_result(uniform, data) is Ok,
        ensures
            ({
                let index = position_of(
                    self.sub_uniforms@,
                    uniform,
                    self.sub_uniforms@.len() as int,
                );
                &&& is_first_named(self.sub_uniforms@, uniform, index)
                &&& bytes_before(self.sub_uniforms@, index) + data.spec_bytes() <= self.size
            }),
    {
        let count = self.sub_uniforms@.len() as int;
        let index = position_of(self.sub_uniforms@, uniform, count);
        lemma_position_of(self.sub_uniforms@, uniform, count);
        lemma_bytes_before_monotonic(self.sub_uniforms@, index + 1, count);
    }

    /// Plans a block of the given uniforms in the fresh buffer object `id`:
    /// the buffer is allocated at the size of all of them and attached whole
    /// to the binding index `binding`. The size has to fit the machine's
    /// `usize`.
    pub fn new(id: u32, binding: u32, sub_uniforms: Vec<SubUniform>) -> (planned: (
        UniformBufferObject,
        Vec<Command>,
    ))
        requires
            total_bytes(sub_uniforms@) <= usize::MAX,
        ensures
            planned.0 == (UniformBufferObject {
                id,
                size: total_bytes(sub_uniforms@) as usize,
                sub_uniforms,
            }),
            planned.0.wf(),
            planned.1@ == seq![
                Command::BindBuffer { target: BufferTarget::Uniform, buffer: id },
                Command::BufferData {
                    target: BufferTarget::Uniform,
                    size: planned.0.size,
                    source: DataSource::Empty,
                },
                Command::BindBufferRange {
                    target: BufferTarget::Uniform,
                    index: binding,
                    buffer: id,
                    offset: 0,
                    size: planned.0.size,
                },
            ],
    {
        let mut total: usize = 0;
        let mut i: usize = 0;
        while i < sub_uniforms.len()
            invariant
                i <= sub_uniforms@.len(),
                total == bytes_before(sub_uniforms@, i as int),
                total_bytes(sub_uniforms@) <= usize::MAX,
            decreases sub_uniforms@.len() - i,
        {
            proof {
                lemma_bytes_before_monotonic(
                    sub_uniforms@,
                    i + 1,
                    sub_uniforms@.len() as int,
                );
            }
            total = total + sub_uniforms[i].size;
            i += 1;
        }
        let commands: Vec<Command> = vec![
            Command::BindBuffer { target: BufferTarget::Uniform, buffer: id },
            Command::BufferData {
                target: BufferTarget::Uniform,
                size: total,
                source: DataSource::Empty,
            },
            Command::BindBufferRange {
                target: BufferTarget::Uniform,
                index: binding,
                buffer: id,
                offset: 0,
                size: total,
            },
        ];
        (UniformBufferObject { id, size: total, sub_uniforms }, commands)
    }

    /// Gives the block up and hands out the command that deletes its buffer on
    /// the device. The block is gone with the call, so that the buffer is
    /// deleted once.
    pub fn release(self) -> (command: Command)
        ensures
            command == (Command::DeleteBuffer { buffer: self.id }),
    {
        Command::DeleteBuffer { buffer: self.id }
    }

    /// The commands that write `data` as the value of the uniform `uniform`.
    /// A name that the block lacks and a value of another size than the
    /// uniform are refused; nothing is written for them.
    pub fn write_sub_data(&self, uniform: &str, data: UniformData) -> (result: Result<
        Vec<Command>,
        WriteError,
    >)
        requires
            self.wf(),
        ensures
            result is Ok ==> self.write_result(uniform@, data) == Ok::<Seq<Command>, WriteError>(
                result->Ok_0@,
            ),
            result is Err ==> self.write_result(uniform@, data) == Err::<
                Seq<Command>,
                WriteError,
            >(result->Err_0),
    {
        proof {
            lemma_position_of(
                self.sub_uniforms@,
                uniform@,
                self.sub_uniforms@.len() as int,
            );
        }
        let wanted = String::from_str(uniform);
        let mut offset: usize = 0;
        let mut i: usize = 0;
        while i < self.sub_uniforms.len()
            invariant
                i <= self.sub_uniforms@.len(),
                wanted@ == uniform@,
                self.wf(),
                offset == bytes_before(self.sub_uniforms@, i as int),
                forall|j: int| 0 <= j < i ==> (#[trigger] self.sub_uniforms@[j]).name@ != uniform@,
            decreases self.sub_uniforms@.len() - i,
        {
            let sub = &self.sub_uniforms[i];
            proof {
                lemma_bytes_before_monotonic(
                    self.sub_uniforms@,
                    i + 1,
                    self.sub_uniforms@.len() as int,
                );
            }
            if sub.name == wanted {
                proof {
                    assert(is_first_named(self.sub_uniforms@, uniform@, i as int));
                    let found = position_of(
                        self.sub_uniforms@,
                        uniform@,
                        self.sub_uniforms@.len() as int,
                    );
                    lemma_position_of(
                        self.sub_uniforms@,
                        uniform@,
                        self.sub_uniforms@.len() as int,
                    );
                    assert(found == i) by {
                        if found < self.sub_uniforms@.len() {
                            assert(self.sub_uniforms@[found].name@ == uniform@);
                        }
                    }
                }
                let found: usize = data.bytes();
                if sub.size != found {
                    return Err(WriteError::SizeMismatch { expected: sub.size, found });
                }
                return Ok(
                    vec![
                        Command::BindBuffer { target: BufferTarget::Uniform, buffer: self.id },
                        Command::BufferSubData {
                            target: BufferTarget::Uniform,
                            offset,
                            size: sub.size,
                            source: DataSource::Words(data),
                        },
                    ],
                );
            }
            offset = offset + sub.size;
            i += 1;
        }
        Err(WriteError::UnknownUniform)
    }
}

} // verus!
