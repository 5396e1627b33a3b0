//! The persistence codec: the storage types, the chunk encoder, the chunk
//! decoder, and the laws that tie the two directions together.

pub mod laws;
pub mod open;
pub mod route;
pub mod save;
pub mod v_b0004;
