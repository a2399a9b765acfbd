use vstd::prelude::*;

pub mod glenum;
pub mod render_state;
pub mod windowing;
pub mod state;
pub mod pipeline;
pub mod context_model;
pub mod tess;
pub mod shader;
pub mod texture;
pub mod framebuffer;
pub mod std140;
pub mod shader_data;
pub mod webgl2_state;
pub mod errors;
pub mod demo;
