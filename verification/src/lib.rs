//! A generic gap buffer: a sequence container for clustered insertions at a
//! moving cursor, with every operation proved against a model of the logical
//! sequence and of the backing store.

pub mod buffer;
pub mod laws;
pub mod slots;

pub use buffer::GapBuffer;
