//! The device commands that the renderer plans.
//!
//! Every function of this crate that changes the state of the graphics device
//! returns the commands to issue, in order, as plain values. The caller owns
//! the device and issues them one after the other; nothing here touches it.

use vstd::prelude::*;

verus! {

/// A four by four matrix of 32-bit words, column after column. The words are
/// the bit patterns of the device's single-precision numbers; this crate moves
/// them and never computes with them.
#[derive(Clone, Copy, Debug, PartialEq, Eq)]
pub struct Matrix4 {
    pub words: [u32; 16],
}

/// The binding points of buffer objects.
#[derive(Clone, Copy, Debug, PartialEq, Eq, Structural)]
pub enum BufferTarget {
    /// Vertex attributes.
    Array,
    /// Vertex indices.
    ElementArray,
    /// Uniform blocks.
    Uniform,
}

/// The binding points of textures.
#[derive(Clone, Copy, Debug, PartialEq, Eq, Structural)]
pub enum TextureTarget {
    Texture2D,
    CubeMap,
}

/// Where `TexImage2D` stores an image.
#[derive(Clone, Copy, Debug, PartialEq, Eq, Structural)]
pub enum ImageTarget {
    Texture2D,
    /// A face of the cube map: 0 is positive x, followed by negative x,
    /// positive y, negative y, positive z and negative z.
    CubeMapFace(u32),
}

/// The channels of a pixel, one byte each.
#[derive(Clone, Copy, Debug, PartialEq, Eq, Structural)]
pub enum PixelFormat {
    Rgb,
    Rgba,
}

/// How texture coordinates outside the unit square are treated.
#[derive(Clone, Copy, Debug, PartialEq, Eq, Structural)]
pub enum Wrap {
    Repeat,
    ClampToEdge,
}

/// How texels are sampled.
#[derive(Clone, Copy, Debug, PartialEq, Eq, Structural)]
pub enum Filter {
    Linear,
    LinearMipmapLinear,
}

/// One texture parameter with its value.
#[derive(Clone, Copy, Debug, PartialEq, Eq, Structural)]
pub enum TextureParameter {
    WrapS(Wrap),
    WrapT(Wrap),
    WrapR(Wrap),
    MinFilter(Filter),
    MagFilter(Filter),
}

/// The value of a block of uniforms, as the words that are written.
#[derive(Clone, Copy, Debug, PartialEq, Eq)]
pub enum UniformData {
    /// A matrix: 16 words, 64 bytes.
    Matrix(Matrix4),
    /// A point or a vector: 3 words, 12 bytes.
    Vector([u32; 3]),
}

/// The memory that a command reads. The plan that holds the command holds the
/// data beside it.
#[derive(Clone, Copy, Debug, PartialEq, Eq)]
pub enum DataSource {
    /// No data: the command only allocates.
    Empty,
    /// The packed vertex words of the plan.
    Vertices,
    /// The indices of the mesh.
    Indices,
    /// The pixels of the image with this number.
    Pixels(u32),
    /// The text handed to the call that made the plan.
    Payload,
    /// These words.
    Words(UniformData),
}

/// One call on the graphics device.
#[derive(Clone, Copy, Debug, PartialEq, Eq)]
pub enum Command {
    BindVertexArray { vao: u32 },
    BindBuffer { target: BufferTarget, buffer: u32 },
    /// Allocates `size` bytes for static drawing and fills them from `source`.
    BufferData { target: BufferTarget, size: usize, source: DataSource },
    /// Overwrites `size` bytes at `offset` from `source`.
    BufferSubData { target: BufferTarget, offset: usize, size: usize, source: DataSource },
    /// Attaches `size` bytes of a buffer, from `offset` on, to a binding index.
    BindBufferRange { target: BufferTarget, index: u32, buffer: u32, offset: usize, size: usize },
    /// Declares attribute `slot` as `components` unnormalized single-precision
    /// numbers every `stride` bytes, the first at `offset`.
    VertexAttribPointer { slot: u32, components: u32, stride: usize, offset: usize },
    EnableVertexAttribArray { slot: u32 },
    /// Draws `count` indices of 32 bits as triangles, from the start of the
    /// bound index buffer.
    DrawElements { count: usize },
    ActiveTexture { unit: u32 },
    BindTexture { binding: TextureTarget, texture: u32 },
    TexParameter { binding: TextureTarget, parameter: TextureParameter },
    /// Uploads level 0 of an image of `width` by `height` pixels, stored in
    /// the format in which it is handed over.
    TexImage2D { image: ImageTarget, format: PixelFormat, width: u32, height: u32, source: DataSource },
    GenerateMipmap { binding: TextureTarget },
    DeleteTexture { texture: u32 },
    DeleteVertexArray { vao: u32 },
    DeleteBuffer { buffer: u32 },
    DeleteProgram { program: u32 },
    /// Hands a shader its source text: the payload of the plan.
    ShaderSource { shader: u32 },
    CompileShader { shader: u32 },
    DeleteShader { shader: u32 },
    AttachShader { program: u32, shader: u32 },
    DetachShader { program: u32, shader: u32 },
    LinkProgram { program: u32 },
    UseProgram { program: u32 },
    Uniform1i { location: i32, value: i32 },
    Uniform3f { location: i32, vector: [u32; 3] },
    Uniform4f { location: i32, vector4: [u32; 4] },
    UniformMatrix4fv { location: i32, matrix: Matrix4 },
    EnableDepthTest,
    DepthMask { write: bool },
    ClearColor { rgba: [u32; 4] },
    /// Clears the colour and the depth buffer.
    Clear,
}

/// What a call has planned, as values: the commands, or the report of what
/// stands against them.
pub open spec fn planned(result: Result<Vec<Command>, String>) -> Result<Seq<Command>, Seq<char>> {
    match result {
        Ok(commands) => Ok(commands@),
        Err(message) => Err(message@),
    }
}

impl UniformData {
    /// The number of bytes that are written.
    pub open spec fn spec_bytes(self) -> int {
        match self {
            UniformData::Matrix(_) => 64,
            UniformData::Vector(_) => 12,
        }
    }

    /// The number of bytes that are written.
    pub fn bytes(&self) -> (bytes: usize)
        ensures
            bytes == self.spec_bytes(),
    {
        match self {
            UniformData::Matrix(_) => 64,
            UniformData::Vector(_) => 12,
        }
    }
}

impl Matrix4 {
    /// The rotation of a view matrix: the same matrix with zero words for its
    /// translation, the first three entries of the last column.
    pub open spec fn rotation(self) -> Matrix4 {
        Matrix4 {
            words: [
                self.words[0],
                self.words[1],
                self.words[2],
                self.words[3],
                self.words[4],
                self.words[5],
                self.words[6],
                self.words[7],
                self.words[8],
                self.words[9],
                self.words[10],
                self.words[11],
                0u32,
                0u32,
                0u32,
                self.words[15],
            ],
        }
    }

    /// The rotation of a view matrix, so that what is drawn with it stays at
    /// the viewer's place wherever the viewer stands.
    ///
    /// The translation entries of the result are exactly zero. Every other
    /// entry, the three by three block of the rotation among them (entry
    /// `4 * column + row` for columns and rows below three), is that of `self`.
    pub fn without_translation(&self) -> (rotation: Matrix4)
        ensures
            rotation == self.rotation(),
            forall|i: int| 12 <= i < 15 ==> rotation.words@[i] == 0,
            forall|i: int|
                0 <= i < 16 && !(12 <= i < 15) ==> rotation.words@[i] == self.words@[i],
    {
        let mut words: [u32; 16] = self.words;
        words[12] = 0;
        words[13] = 0;
        words[14] = 0;
        assert(words =~= self.rotation().words);
        Matrix4 { words }
    }
}

/// The rotation of a view matrix has a translation of exactly zero, wherever
/// the viewer stands, and is the view matrix in every other entry: in the three
/// by three block of the rotation, which lies in the entries below 11, as in
/// the rest. Taking the rotation twice changes nothing more.
pub proof fn lemma_rotation_of_view(view: Matrix4)
    ensures
        forall|i: int| 12 <= i < 15 ==> view.rotation().words@[i] == 0,
        forall|i: int|
            0 <= i < 12 || i == 15 ==> view.rotation().words@[i] == view.words@[i],
        view.rotation().rotation() == view.rotation(),
{
    assert(view.rotation().rotation().words =~= view.rotation().words);
}

} // verus!
