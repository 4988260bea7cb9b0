//! Sparse hexadecimal dumps.

pub mod command;
pub mod dump;
pub mod laws;
pub mod memory;
pub mod numeral;
pub mod row;
pub mod style;
pub mod text;
