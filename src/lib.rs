//! Off-screen render targets and the multi-pass deferred pipeline built on
//! them, as a verified model of the rendering backend.
//!
//! Every operation that touches the backend queues [`Command`]s on a
//! [`Device`]; the caller hands them, in order, to the real backend. The
//! device issues handles that are never reused, so a texture handle kept
//! across a resize is detected as stale instead of aliasing a newer image.
pub mod blur;
pub mod device;
pub mod error;
pub mod framebuffer;
pub mod pipeline;
pub mod scene;
pub mod shader_program;

pub use blur::{BlurPass, BlurSource, BlurStage, BlurState, PingPong, BLUR_ITERATIONS};
pub use device::{
    Command, DepthFunc, Device, FilterMode, Limits, PixelFormat, RenderBuffer, Sampling, ShaderStage,
    Texture,
    WrapMode,
};
pub use error::{GlError, ShaderCompileType};
pub use framebuffer::{DefaultFramebuffer, Framebuffer};
pub use pipeline::View3DRenderPipeline;
pub use scene::View3DScene;
pub use shader_program::{ShaderProgram, UniformBuffer};
