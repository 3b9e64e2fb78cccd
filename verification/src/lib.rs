//! Core of a register-based virtual machine in the Cairo execution model:
//! a segmented write-once memory over field elements and relocatable
//! addresses, an instruction decoder, operand deduction, the step driver,
//! and the hint-side dictionary subsystem.
//!
//! Builtin runners are outside collaborators of this core: the machine here
//! neither registers them nor asks them to deduce cells, and program
//! loading, output formatting and error rendering stay with the caller.
pub mod bigint_ops;
pub mod decoder;
pub mod dict_hint_utils;
pub mod dict_manager;
pub mod errors;
pub mod exec_scope;
pub mod hint_utils;
pub mod instruction;
pub mod memory;
pub mod modular;
pub mod pow_utils;
pub mod relocatable;
pub mod run_context;
pub mod segments;
pub mod step_laws;
pub mod vm_core;
