//! Synthesis of C-compatible boundary functions for a C++ library API.
//!
//! The crate takes a structural model of a C++ API (classes, fields, base
//! classes, functions) and derives a flat set of functions with a C calling
//! convention. Every rule of that derivation is stated as a specification
//! function over mathematical views of the data and proved of the code.

pub mod captions;
pub mod cpp_code;
pub mod cpp_data;
pub mod cpp_ffi_data;
pub mod cpp_ffi_generator;
pub mod cpp_function;
pub mod cpp_type;
pub mod crate_writer;
pub mod database;
pub mod driver;
pub mod errors;
pub mod expansion;
pub mod laws;
pub mod naming;
pub mod processor;
pub mod signature;
pub mod slot_wrappers;
pub mod text;
pub mod toml_value;

