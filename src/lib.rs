//! Decoder for Pixel Bender shader bytecode: turns a byte buffer into a program of typed
//! parameters, metadata and operations, or reports the first malformed field.

pub mod types;
pub mod reader;
pub mod registers;
pub mod values;
pub mod instructions;
pub mod shader;
pub mod laws;
