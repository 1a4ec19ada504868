//! Textures: images on the device.

use vstd::prelude::*;
use vstd::string::StringExecFns;
use crate::command::{
    Command, DataSource, Filter, ImageTarget, PixelFormat, TextureParameter, TextureTarget, Wrap,
};
use crate::resources::{loaded_fits, refusal, DecodedImage, Error, ResourceLoader};

verus! {

/// The number of faces of a cube map.
pub const CUBE_MAP_FACES: usize = 6;

/// An image on the device, sampled in two dimensions.
#[derive(Debug, PartialEq, Eq)]
pub struct Texture {
    pub id: u32,
    /// Whether the texture has been deleted on the device.
    pub released: bool,
}

/// A texture with what brings it onto the device.
#[derive(Debug, PartialEq, Eq)]
pub struct TextureUpload {
    pub texture: Texture,
    /// The image: the data of `DataSource::Pixels(0)`.
    pub image: DecodedImage,
    pub commands: Vec<Command>,
}

/// The upload of a texture: it is bound, repeats in both directions, is
/// sampled linearly, between the levels of its mipmap too where it is made
/// smaller, gets the image as its level 0 and has its mipmap made.
pub open spec fn texture_commands(id: u32, format: PixelFormat, width: u32, height: u32) -> Seq<
    Command,
> {
    seq![
        Command::BindTexture { binding: TextureTarget::Texture2D, texture: id },
        Command::TexParameter {
            binding: TextureTarget::Texture2D,
            parameter: TextureParameter::WrapS(Wrap::Repeat),
        },
        Command::TexParameter {
            binding: TextureTarget::Texture2D,
            parameter: TextureParameter::WrapT(Wrap::Repeat),
        },
        Command::TexParameter {
            binding: TextureTarget::Texture2D,
            parameter: TextureParameter::MinFilter(Filter::LinearMipmapLinear),
        },
        Command::TexParameter {
            binding: TextureTarget::Texture2D,
            parameter: TextureParameter::MagFilter(Filter::Linear),
        },
        Command::TexImage2D {
            image: ImageTarget::Texture2D,
            format,
            width,
            height,
            source: DataSource::Pixels(0),
        },
        Command::GenerateMipmap { binding: TextureTarget::Texture2D },
    ]
}

/// What is reported of an image that could not be had: its path and the
/// cause.
pub open spec fn load_error_message(path: Seq<char>, cause: Seq<char>) -> Seq<char> {
    "Error loading image "@ + path + ": "@ + cause
}

/// The report of an image that could not be had.
pub fn image_load_error(path: &str, cause: &str) -> (message: String)
    ensures
        message@ == load_error_message(path@, cause@),
{
    let mut message = String::from_str("Error loading image ");
    message.append(path);
    message.append(": ");
    message.append(cause);
    message
}

impl Texture {
    /// Plans the upload of a decoded image into the fresh texture object
    /// `id`.
    pub fn new(id: u32, image: DecodedImage) -> (upload: TextureUpload)
        requires
            image.wf(),
        ensures
            upload.texture == (Texture { id, released: false }),
            upload.image == image,
            upload.commands@ == texture_commands(id, image.format, image.width, image.height),
    {
        let commands: Vec<Command> = vec![
            Command::BindTexture { binding: TextureTarget::Texture2D, texture: id },
            Command::TexParameter {
                binding: TextureTarget::Texture2D,
                parameter: TextureParameter::WrapS(Wrap::Repeat),
            },
            Command::TexParameter {
                binding: TextureTarget::Texture2D,
                parameter: TextureParameter::WrapT(Wrap::Repeat),
            },
            Command::TexParameter {
                binding: TextureTarget::Texture2D,
                parameter: TextureParameter::MinFilter(Filter::LinearMipmapLinear),
            },
            Command::TexParameter {
                binding: TextureTarget::Texture2D,
                parameter: TextureParameter::MagFilter(Filter::Linear),
            },
            Command::TexImage2D {
                image: ImageTarget::Texture2D,
                format: image.format,
                width: image.width,
                height: image.height,
                source: DataSource::Pixels(0),
            },
            Command::GenerateMipmap { binding: TextureTarget::Texture2D },
        ];
        assert(commands@ =~= texture_commands(id, image.format, image.width, image.height));
        TextureUpload { texture: Texture { id, released: false }, image, commands }
    }

    /// Judges what loading the image file `path` came to: an image is planned
    /// for upload into the fresh texture object `id`, and an error is reported
    /// with the path and its own text.
    pub fn from_loaded(id: u32, path: &str, loaded: Result<DecodedImage, Error>) -> (result: Result<
        TextureUpload,
        String,
    >)
        requires
            loaded matches Ok(image) ==> image.wf(),
        ensures
            match loaded {
                Ok(image) => result is Ok && result->Ok_0.texture == (Texture {
                    id,
                    released: false,
                }) && result->Ok_0.image == image && result->Ok_0.commands@ == texture_commands(
                    id,
                    image.format,
                    image.width,
                    image.height,
                ),
                Err(error) => result is Err && result->Err_0@ == load_error_message(
                    path@,
                    error.description(),
                ),
            },
    {
        match loaded {
            Ok(image) => Ok(Texture::new(id, image)),
            Err(error) => {
                let cause = error.describe();
                Err(image_load_error(path, cause.as_str()))
            },
        }
    }

    /// Decodes the bytes of the image file `path` and plans the upload of the
    /// image into the fresh texture object `id`.
    ///
    /// A JPEG file whose frame the decoder cannot take is refused before the
    /// decoder is asked. Of any other file the decoder decides. Every error
    /// is reported with the path and its own text, which for the decoder's
    /// error holds the decoder's words.
    pub fn load(id: u32, res: &ResourceLoader, bytes: &[u8], path: &str) -> (result: Result<
        TextureUpload,
        String,
    >)
        ensures
            refusal(bytes@) is Some ==> result is Err,
            result matches Ok(upload) ==> {
                &&& upload.texture == (Texture { id, released: false })
                &&& upload.image.format == PixelFormat::Rgba
                &&& upload.image.wf()
                &&& upload.commands@ == texture_commands(
                    id,
                    PixelFormat::Rgba,
                    upload.image.width,
                    upload.image.height,
                )
            },
            result matches Err(message) ==> exists|error: Error|
                {
                    &&& loaded_fits(bytes@, PixelFormat::Rgba, Err(error))
                    &&& message@ == load_error_message(path@, error.description())
                },
    {
        let loaded = res.load_image(bytes, path);
        proof {
            if loaded is Err {
                assert(loaded_fits(bytes@, PixelFormat::Rgba, Err(loaded->Err_0)));
            }
        }
        Texture::from_loaded(id, path, loaded)
    }

    /// The commands that make the texture the one of texture unit `unit`.
    pub fn bind(&self, unit: u32) -> (commands: Vec<Command>)
        ensures
            commands@ == seq![
                Command::ActiveTexture { unit },
                Command::BindTexture { binding: TextureTarget::Texture2D, texture: self.id },
            ],
    {
        vec![
            Command::ActiveTexture { unit },
            Command::BindTexture { binding: TextureTarget::Texture2D, texture: self.id },
        ]
    }

    /// Gives the texture up. The first call hands out the command that
    /// deletes it on the device; every later call hands out nothing, so that
    /// the texture is deleted once at most.
    pub fn release(&mut self) -> (command: Option<Command>)
        ensures
            final(self).id == old(self).id,
            final(self).released,
            !old(self).released ==> command == Some(
                Command::DeleteTexture { texture: old(self).id },
            ),
            old(self).released ==> command is None,
    {
        if self.released {
            None
        } else {
            self.released = true;
            Some(Command::DeleteTexture { texture: self.id })
        }
    }
}

/// Six images on the device, the faces of a cube.
#[derive(Debug, PartialEq, Eq)]
pub struct CubeMap {
    pub id: u32,
}

/// A cube map with what brings it onto the device.
#[derive(Debug, PartialEq, Eq)]
pub struct CubeMapUpload {
    pub cube_map: CubeMap,
    /// The faces: image `i` is the data of `DataSource::Pixels(i)`.
    pub images: Vec<DecodedImage>,
    pub commands: Vec<Command>,
}

/// The number of commands in front of the faces.
pub const CUBE_MAP_SETUP: usize = 6;

/// The upload of a cube map: it is bound, is sampled linearly, is clamped to
/// its edge in all three directions, and gets its six faces in order.
pub open spec fn cube_map_commands(id: u32, images: Seq<DecodedImage>) -> Seq<Command> {
    seq![
        Command::BindTexture { binding: TextureTarget::CubeMap, texture: id },
        Command::TexParameter {
            binding: TextureTarget::CubeMap,
            parameter: TextureParameter::MinFilter(Filter::Linear),
        },
        Command::TexParameter {
            binding: TextureTarget::CubeMap,
            parameter: TextureParameter::MagFilter(Filter::Linear),
        },
        Command::TexParameter {
            binding: TextureTarget::CubeMap,
            parameter: TextureParameter::WrapS(Wrap::ClampToEdge),
        },
        Command::TexParameter {
            binding: TextureTarget::CubeMap,
            parameter: TextureParameter::WrapT(Wrap::ClampToEdge),
        },
        Command::TexParameter {
            binding: TextureTarget::CubeMap,
            parameter: TextureParameter::WrapR(Wrap::ClampToEdge),
        },
    ] + Seq::new(
        CUBE_MAP_FACES as nat,
        |i: int|
            Command::TexImage2D {
                image: ImageTarget::CubeMapFace(i as u32),
                format: images[i].format,
                width: images[i].width,
                height: images[i].height,
                source: DataSource::Pixels(i as u32),
            },
    )
}

/// The images of answers that are all images, in order.
pub open spec fn images_of(loaded: Seq<Result<DecodedImage, Error>>) -> Seq<DecodedImage> {
    Seq::new(loaded.len(), |i: int| loaded[i]->Ok_0)
}

/// Whether `result` is what the answers to loading the faces of a cube map
/// come to. Where every answer is an image, the images are uploaded in the
/// order of the answers into the texture object `id`. Otherwise the first
/// error among the answers is reported with the path of its file.
pub open spec fn cube_map_loaded(
    id: u32,
    paths: Seq<&str>,
    loaded: Seq<Result<DecodedImage, Error>>,
    result: Result<CubeMapUpload, String>,
) -> bool {
    if forall|i: int| 0 <= i < loaded.len() ==> (#[trigger] loaded[i]) is Ok {
        &&& result is Ok
        &&& result->Ok_0.cube_map == (CubeMap { id })
        &&& result->Ok_0.images@ == images_of(loaded)
        &&& result->Ok_0.commands@ == cube_map_commands(id, images_of(loaded))
    } else {
        exists|first: int|
            {
                &&& 0 <= first < loaded.len()
                &&& (#[trigger] loaded[first]) is Err
                &&& forall|j: int| 0 <= j < first ==> (#[trigger] loaded[j]) is Ok
                &&& result is Err
                &&& result->Err_0@ == load_error_message(
                    paths[first]@,
                    loaded[first]->Err_0.description(),
                )
            }
    }
}

impl CubeMap {
    /// Plans the upload of six decoded images, the faces on the positive and
    /// the negative side of the x, the y and the z axis in this order, into
    /// the fresh texture object `id`.
    pub fn new(id: u32, images: Vec<DecodedImage>) -> (upload: CubeMapUpload)
        requires
            images@.len() == CUBE_MAP_FACES,
            forall|i: int| 0 <= i < CUBE_MAP_FACES ==> (#[trigger] images@[i]).wf(),
        ensures
            upload.cube_map == (CubeMap { id }),
            upload.images == images,
            upload.commands@ == cube_map_commands(id, images@),
    {
        let mut commands: Vec<Command> = vec![
            Command::BindTexture { binding: TextureTarget::CubeMap, texture: id },
            Command::TexParameter {
                binding: TextureTarget::CubeMap,
                parameter: TextureParameter::MinFilter(Filter::Linear),
            },
            Command::TexParameter {
                binding: TextureTarget::CubeMap,
                parameter: TextureParameter::MagFilter(Filter::Linear),
            },
            Command::TexParameter {
                binding: TextureTarget::CubeMap,
                parameter: TextureParameter::WrapS(Wrap::ClampToEdge),
            },
            Command::TexParameter {
                binding: TextureTarget::CubeMap,
                parameter: TextureParameter::WrapT(Wrap::ClampToEdge),
            },
            Command::TexParameter {
                binding: TextureTarget::CubeMap,
                parameter: TextureParameter::WrapR(Wrap::ClampToEdge),
            },
        ];
        let mut i: usize = 0;
        while i < CUBE_MAP_FACES
            invariant
                i <= CUBE_MAP_FACES,
                images@.len() == CUBE_MAP_FACES,
                commands@.len() == CUBE_MAP_SETUP + i,
                forall|j: int|
                    0 <= j < CUBE_MAP_SETUP + i ==> commands@[j] == cube_map_commands(
                        id,
                        images@,
                    )[j],
            decreases CUBE_MAP_FACES - i,
        {
            let face = &images[i];
            commands.push(
                Command::TexImage2D {
                    image: ImageTarget::CubeMapFace(i as u32),
                    format: face.format,
                    width: face.width,
                    height: face.height,
                    source: DataSource::Pixels(i as u32),
                },
            );
            i += 1;
        }
        assert(commands@ =~= cube_map_commands(id, images@));
        CubeMapUpload { cube_map: CubeMap { id }, images, commands }
    }

    /// Gives the cube map up and hands out the command that deletes it on the
    /// device. The cube map is gone with the call, so that it is deleted once.
    pub fn release(self) -> (command: Command)
        ensures
            command == (Command::DeleteTexture { texture: self.id }),
    {
        Command::DeleteTexture { texture: self.id }
    }

    /// Judges what loading the six faces of a cube map came to, answer `i`
    /// being that for the file `images_paths[i]`: six images are planned for
    /// upload into the fresh texture object `id` in this order, and the first
    /// error is reported with the path of its file and its own text.
    #[verifier::loop_isolation(false)]
    pub fn from_loaded(
        id: u32,
        images_paths: [&str; 6],
        loaded: Vec<Result<DecodedImage, Error>>,
    ) -> (result: Result<CubeMapUpload, String>)
        requires
            loaded@.len() == CUBE_MAP_FACES,
            forall|i: int|
                0 <= i < CUBE_MAP_FACES ==> ((#[trigger] loaded@[i]) matches Ok(image)
                    ==> image.wf()),
        ensures
            cube_map_loaded(id, images_paths@, loaded@, result),
    {
        let ghost answers = loaded@;
        let mut rest = loaded;
        let mut images: Vec<DecodedImage> = Vec::new();
        let mut i: usize = 0;
        while i < CUBE_MAP_FACES
            invariant
                i <= CUBE_MAP_FACES,
                answers.len() == CUBE_MAP_FACES,
                rest@ == answers.skip(i as int),
                images@.len() == i,
                forall|j: int| 0 <= j < CUBE_MAP_FACES ==> ((#[trigger] answers[j]) matches Ok(
                    image,
                ) ==> image.wf()),
                forall|j: int| 0 <= j < i ==> (#[trigger] answers[j]) is Ok,
                forall|j: int| 0 <= j < i ==> (#[trigger] images@[j]) == answers[j]->Ok_0,
            decreases CUBE_MAP_FACES - i,
        {
            let answer = rest.remove(0);
            proof {
                assert(answer == answers[i as int]);
                assert(rest@ =~= answers.skip(i + 1));
            }
            match answer {
                Ok(image) => {
                    images.push(image);
                },
                Err(error) => {
                    let cause = error.describe();
                    let message = image_load_error(images_paths[i], cause.as_str());
                    proof {
                        assert(answers[i as int] is Err);
                    }
                    return Err(message);
                },
            }
            i += 1;
        }
        proof {
            assert(images@ =~= images_of(answers));
            assert forall|j: int| 0 <= j < CUBE_MAP_FACES implies (#[trigger] images@[j]).wf() by {
                assert(answers[j] is Ok);
            }
        }
        Ok(CubeMap::new(id, images))
    }

    /// Decodes the bytes of six image files, the faces of the cube in the
    /// order of `new`, into pixels of three channels, and plans their upload
    /// into the fresh texture object `id`. The first file that cannot be
    /// loaded is reported with its path and the text of its error.
    pub fn load(
        id: u32,
        res: &ResourceLoader,
        files: &[Vec<u8>; 6],
        images_paths: [&str; 6],
    ) -> (result: Result<CubeMapUpload, String>)
        ensures
            exists|loaded: Seq<Result<DecodedImage, Error>>|
                {
                    &&& loaded.len() == 6
                    &&& forall|i: int|
                        0 <= i < 6 ==> loaded_fits(
                            files@[i]@,
                            PixelFormat::Rgb,
                            #[trigger] loaded[i],
                        )
                    &&& cube_map_loaded(id, images_paths@, loaded, result)
                },
    {
        let mut loaded: Vec<Result<DecodedImage, Error>> = Vec::new();
        let mut i: usize = 0;
        while i < CUBE_MAP_FACES
            invariant
                i <= CUBE_MAP_FACES,
                loaded@.len() == i,
                forall|j: int|
                    0 <= j < i ==> loaded_fits(files@[j]@, PixelFormat::Rgb, #[trigger] loaded@[j]),
            decreases CUBE_MAP_FACES - i,
        {
            loaded.push(res.load_jpg(files[i].as_slice(), images_paths[i]));
            i += 1;
        }
        CubeMap::from_loaded(id, images_paths, loaded)
    }
}

} // verus!
