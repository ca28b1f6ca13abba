//! Code generation for "partial" companion types of configuration structs
//! and enums: per-field classification and the merge / conversion fragments
//! emitted for each field kind, together with the runtime semantics those
//! fragments implement.

pub mod choice;
pub mod fragment;
pub mod generate;
pub mod interp;
pub mod laws;
pub mod model;
pub mod partial;
