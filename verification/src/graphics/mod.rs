//! The 2D scene layer: scene textures with their registry, shape
//! breakdowns, and the built-in pipelines that draw them.

pub mod batch;
pub mod quad;
pub mod texture;
pub mod triangle;

pub use batch::{Breakdown, Group};
pub use quad::QuadPipe;
pub use texture::{IdAllocator, Texture, TextureRegistry};
pub use triangle::TrianglePipe;
