//! A 16-bit instruction-set computer: instruction decoding, a register file
//! with condition codes, a word-addressed memory with a memory-mapped
//! keyboard, and a fetch-execute engine driven one step at a time.

pub mod image;
pub mod machine;
pub mod memory;
pub mod ops;
pub mod registers;
