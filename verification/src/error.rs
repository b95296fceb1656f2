//! The error taxonomy of the engine.
//!
//! `BadPattern` and `PatternNotFound` are recoverable per symbol: the symbol
//! finder demotes them to warnings and carries on.  The remaining variants are
//! structural failures raised while walking declarations; callers abort the
//! run on them.

use vstd::prelude::*;

verus! {

/// Everything that can go wrong while resolving symbols or translating types.
#[derive(Debug)]
pub enum BaoError {
    /// A signature string holds a token that is neither a two-digit hex
    /// literal nor a wildcard, or an address computation left the valid range.
    BadPattern { pattern: String },
    /// A signature pattern does not occur anywhere in the binary image.
    PatternNotFound { name: String },
    /// A function declaration has no linkage name.
    InvalidFuncName { location: String },
    /// A function declaration has no type.
    InvalidFunc { location: String },
    /// A function type does not expose its parameter list.
    InvalidFuncArgs { function: String },
    /// A function type does not expose its return type.
    InvalidRetnType { function: String },
    /// A function type uses a calling convention outside the supported set.
    InvalidCConv { function: String },
    /// A declaration that should carry a name does not.
    InvalidName { ty: String, name: String },
    /// A type node of a kind the closed model cannot represent.
    UnknownType { name: String },
    /// A struct declaration does not expose its field list.
    InvalidStruct,
    /// A struct declaration does not expose its total size.
    InvalidStructSize,
    /// A field's bit offset is unavailable or not an exact multiple of 8.
    InvalidOffset,
    /// A nested type could not be resolved.
    TypeError { message: String },
    /// A struct field's type is unavailable.
    InvalidField { message: String },
    /// An upstream failure of the source-declaration parser.
    ClangError { message: String },
    /// An upstream failure of the debug-info writer.
    PDBError { message: String },
}

/// The mathematical image of a [`BaoError`]: the same variants over character
/// sequences.
pub enum ErrV {
    BadPattern { pattern: Seq<char> },
    PatternNotFound { name: Seq<char> },
    InvalidFuncName { location: Seq<char> },
    InvalidFunc { location: Seq<char> },
    InvalidFuncArgs { function: Seq<char> },
    InvalidRetnType { function: Seq<char> },
    InvalidCConv { function: Seq<char> },
    InvalidName { ty: Seq<char>, name: Seq<char> },
    UnknownType { name: Seq<char> },
    InvalidStruct,
    InvalidStructSize,
    InvalidOffset,
    TypeError { message: Seq<char> },
    InvalidField { message: Seq<char> },
    ClangError { message: Seq<char> },
    PDBError { message: Seq<char> },
}

impl View for BaoError {
    type V = ErrV;

    open spec fn view(&self) -> ErrV {
        match self {
            BaoError::BadPattern { pattern } => ErrV::BadPattern { pattern: pattern@ },
            BaoError::PatternNotFound { name } => ErrV::PatternNotFound { name: name@ },
            BaoError::InvalidFuncName { location } => ErrV::InvalidFuncName {
                location: location@,
            },
            BaoError::InvalidFunc { location } => ErrV::InvalidFunc { location: location@ },
            BaoError::InvalidFuncArgs { function } => ErrV::InvalidFuncArgs {
                function: function@,
            },
            BaoError::InvalidRetnType { function } => ErrV::InvalidRetnType {
                function: function@,
            },
            BaoError::InvalidCConv { function } => ErrV::InvalidCConv { function: function@ },
            BaoError::InvalidName { ty, name } => ErrV::InvalidName { ty: ty@, name: name@ },
            BaoError::UnknownType { name } => ErrV::UnknownType { name: name@ },
            BaoError::InvalidStruct => ErrV::InvalidStruct,
            BaoError::InvalidStructSize => ErrV::InvalidStructSize,
            BaoError::InvalidOffset => ErrV::InvalidOffset,
            BaoError::TypeError { message } => ErrV::TypeError { message: message@ },
            BaoError::InvalidField { message } => ErrV::InvalidField { message: message@ },
            BaoError::ClangError { message } => ErrV::ClangError { message: message@ },
            BaoError::PDBError { message } => ErrV::PDBError { message: message@ },
        }
    }
}

} // verus!
