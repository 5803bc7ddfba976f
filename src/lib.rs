//! A command interpreter for a clinical-encounter workflow: free-form lines
//! become commands, commands drive a single open encounter, and a committed
//! encounter becomes a structured clinical record.

pub mod text;
pub mod command;
pub mod parser;
pub mod appointment;
pub mod fhir;
pub mod executor;
pub mod autocomplete;
pub mod fetch;
