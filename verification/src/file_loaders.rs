//! What is kept between runs, and what stands in for a texture that is
//! missing. Reading and writing files is the caller's part.

pub mod completion_time_loader;
pub mod texture_manager;
