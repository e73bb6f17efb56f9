//! Bookkeeping and translation core of an immediate-mode GUI backend.
//!
//! The crate holds the decisions that sit between a GUI library, a GPU
//! abstraction and a windowing library: which texture binding an id resolves
//! to, which buffer slot a mesh is uploaded into, which scissor rectangle a
//! clipped mesh is drawn with, and which GUI event a window event becomes.
//! Everything here works on plain values; talking to the GPU, the window and
//! the clipboard is left to the embedding code, which carries out the actions
//! that these functions return.

pub mod units;
pub mod screen;
pub mod texture;
pub mod buffer_pool;
pub mod pixels;
pub mod mesh;
pub mod renderer;
pub mod window;
pub mod gui;
pub mod translate;
pub mod platform;
pub mod render_target;
pub mod backend;
