//! The shared-memory plane: providers, the buffers cut out of them, and the
//! layouts that describe a request.

pub mod books;
pub mod buffer;
pub mod foreign;
pub mod layout;
pub mod precomputed;
pub mod provider;
pub mod segment;
