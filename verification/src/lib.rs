//! Loads the entries of a parasitic exchange document, as a tokenizer
//! hands them over, into typed records: header lines, the name map, ports,
//! and nets with their connections.

pub mod decode;
pub mod driver;
pub mod entry;
pub mod error;
pub mod grammar;
pub mod laws;
pub mod number;
pub mod spef_data;
pub mod stream;
pub mod syntax;
pub mod text;
