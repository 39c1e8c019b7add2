//! Verified logic of a small astronomical viewer: the latitude/longitude
//! sphere mesh it draws, the plain state of the renderer, and the decisions
//! of its event loop.

pub mod mesh;
pub mod index_buffer;
pub mod app_state;
pub mod control;
