//! Building SPIR-V shader modules from recorded instruction lists.
//!
//! Stage one records, for each shader function, a list of instructions over
//! numbered variables; stage two lowers that list to SPIR-V words through the
//! `rspirv` module builder. Two instruction sets are recorded: [`ir`] over
//! shader types, built by [`builder`] and lowered by [`lower`] and
//! [`compile`]; and [`prim_ir`] over primitive and data types, lowered by
//! [`prim_lower`] into the single-entry module of [`prim_module`].

pub mod types;
pub mod io;
pub mod prim;
pub mod data;
pub mod typing;
pub mod layout;
pub mod spirv_api;
pub mod ir;
pub mod select;
pub mod scope;
pub mod builder;
pub mod emit;
pub mod check;
pub mod lower;
pub mod compile;
pub mod prim_ir;
pub mod prim_lower;
pub mod prim_module;
