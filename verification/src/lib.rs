//! Symbol and type resolution engine for reconstructing debug-symbol
//! information of a compiled binary.
//!
//! The crate locates symbols in a raw binary image from byte-signature
//! patterns, follows signed-offset dereference chains and
//! instruction-pointer-relative displacements to a final address, classifies
//! that address against the binary's section table, and translates an external
//! C declaration tree into a closed debug-info type model.  Reading the binary
//! container, parsing C source, and serializing the resulting debug-info
//! records are left to the surrounding program.

pub mod ctypes;
pub mod error;
pub mod matching;
pub mod parsing;
pub mod pattern;
pub mod pe;
