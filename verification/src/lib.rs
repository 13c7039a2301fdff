//! # Parrot
//!
//! A convenience layer over a native GPU rendering API, together with a
//! small 2D scene layer ("Pigeon") built on top of it.
//!
//! The library holds the logic of that layer in verified form: the vertex
//! layout builder, the binding layer, the pipeline descriptor
//! construction, the buffer growth/update protocol, and the scene layer's
//! shape batching and texture registry. Every native resource is modelled
//! by a struct of plain values that records exactly what the logic reads
//! and decides; the unverified adapter that owns the real driver handles
//! performs each decided action and keeps its handles beside these
//! records.

pub mod binding;
pub mod buffers;
pub mod color;
pub mod device;
pub mod error;
pub mod graphics;
pub mod paintable;
pub mod painter;
pub mod pipeline;
pub mod sampler;
pub mod shader;
pub mod texture;
pub mod transform;
pub mod vertex;

pub use buffers::{DepthBuffer, FrameBuffer, IndexBuffer, IndexBuffer32, UniformBuffer,
    VertexBuffer};
pub use color::{Bgra8, Rgba8};
pub use device::Device;
pub use painter::Painter;
pub use pipeline::{PipelineCore, PipelineDescription, Plumber};
pub use sampler::Sampler;
pub use shader::{Shader, ShaderFile};
pub use texture::Texture;
