//! The core of a small real-time renderer: what is uploaded to the graphics
//! device, how vertex records are laid out in it, what is drawn each frame and
//! how input turns the camera.
//!
//! The crate plans; it does not draw. Its functions return [`command::Command`]
//! values for the owner of the device to issue.
//!
//! No number with a fraction is computed here. What the device takes as
//! single-precision numbers (vertex attributes, matrices, colours) is carried
//! as 32-bit words, and the camera counts its angles and lengths in whole
//! units. The owner of the device converts where it builds a matrix.

pub mod camera;
pub mod command;
pub mod frame;
pub mod material;
pub mod mesh;
pub mod model;
pub mod resources;
pub mod shader;
pub mod skybox;
pub mod text;
pub mod texture;
pub mod uniform;
pub mod uniform_buffer_object;
pub mod vertex;
