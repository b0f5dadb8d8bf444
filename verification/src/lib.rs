//! Immediate-mode 2D drawing core.
//!
//! Shape calls are tessellated into one vertex/index batch per frame; the
//! batch is handed to a GPU backend for a single indexed draw call. All
//! geometry here is carried in fixed-point pixel coordinates (see [`fx`]),
//! so every tessellation step, the pixel-to-NDC transform, the texture-name
//! registry and the frame-submission decisions are verified; the thin layer
//! that talks to the window system and the GPU lives outside this crate.

pub mod batch;
pub mod color;
pub mod frame;
pub mod fx;
pub mod registry;
pub mod shapes;
pub mod texture;
pub mod vector;
pub mod winding;

pub use batch::{RendiumDrawHandle, Vertex};
pub use color::Color;
pub use frame::FrameCore;
pub use registry::TextureRegistry;
pub use texture::{Texture, TextureLoad, TextureLoadError};
pub use vector::{Vector2, Vector3, Vector4};
