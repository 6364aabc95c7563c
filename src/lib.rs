//! A pixel buffer and render session that expose rendered images to a host
//! through a read-only, non-owning view of the module's own storage.
pub mod geometry;
pub mod buffer;
pub mod engine;
pub mod session;
