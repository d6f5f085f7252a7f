//! The replicated log: its operations and its errors.
pub mod error;
pub mod op;
pub mod op_laws;
pub mod vec_of_raw_byte_buf;
