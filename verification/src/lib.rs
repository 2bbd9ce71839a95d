//! Compile-time input handling for a shader-generation macro.
//!
//! The macro's body is a comma-separated list of `name: value` fields
//! (`mod_name`, `ty`, `src`, `path`, `dump`). This crate holds the verified
//! rules of that little language: which field names exist, which shader
//! kinds the `ty` field accepts, that no field may be given twice, that
//! `src` and `path` exclude each other, and which fields may be omitted.
//! The token-level reading is done by `syn` behind a small trusted facade;
//! every decision taken on what was read is verified.

pub mod input;
pub mod tokens;
