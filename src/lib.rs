//! Parsing of a single attributed parameter declaration such as
//! `[Parameter(Mandatory=$true)] [string] $Name = $false`.
//!
//! `parse_parameter` removes whitespace, runs the scanner of `scanner` over
//! the characters and turns its last state into a `Parameter` or a
//! `ParameterError`. Type tokens go through `resolve`.
#![allow(non_camel_case_types)]

pub mod text;
pub mod data_type;
pub mod parameter;
pub mod scanner;
pub mod parser;
pub mod laws;

pub use data_type::{DATA_TYPE, resolve};
pub use parameter::{Parameter, ParameterError};
pub use parser::parse_parameter;
