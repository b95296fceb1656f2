//! The library's model of the external C declaration tree.
//!
//! The source parser is an external collaborator: the surrounding program
//! walks its entities and reduces each declaration to the plain values below —
//! a kind tag, the nested element/pointee/member types, byte sizes, display
//! names, and the calling convention where applicable.  An accessor the
//! parser cannot answer becomes a `None`, which the translator turns into the
//! matching structural error.

use vstd::prelude::*;

verus! {

/// The primitive kinds of the source type system that map one-to-one onto
/// closed debug-info tags.
#[derive(Clone, Copy, PartialEq, Eq, Structural, Debug)]
pub enum PrimKind {
    Void,
    Bool,
    CharS,
    CharU,
    SChar,
    UChar,
    WChar,
    Char16,
    Char32,
    Short,
    UShort,
    Int,
    UInt,
    Long,
    ULong,
    LongLong,
    ULongLong,
    Int128,
    UInt128,
    Float16,
    Float,
    Double,
    LongDouble,
    Float128,
}

/// The calling conventions a source function type can carry.  Only the first
/// five are representable in the debug-info model; the rest are structural
/// errors.
#[derive(Clone, Copy, PartialEq, Eq, Structural, Debug)]
pub enum SrcCConv {
    Cdecl,
    Fastcall,
    Stdcall,
    Thiscall,
    Win64,
    Vectorcall,
    Other,
}

/// The severity of one diagnostic of the source parser.
#[derive(Clone, Copy, PartialEq, Eq, Structural, Debug)]
pub enum CSeverity {
    Ignored,
    Note,
    Warning,
    Error,
    Fatal,
}

/// One node of the source type tree, reduced to what the translator reads.
/// `display` is the node's display name, used only in error payloads.
pub struct CType {
    pub display: String,
    pub kind: CTypeKind,
}

/// The kind tag of a source type node with its nested data.
pub enum CTypeKind {
    Primitive(PrimKind),
    /// An alias; the payload is the underlying canonical type.
    Typedef(Box<CType>),
    /// A fixed-size array: its element type and its total byte size, each
    /// absent when the parser cannot determine it.
    ConstantArray(Option<Box<CType>>, Option<usize>),
    FunctionPrototype(CProto),
    /// A pointer; the payload is the canonical pointee type, absent when the
    /// parser cannot determine it.
    Pointer(Option<Box<CType>>),
    /// A struct or union reference; the payload is the declaration's display
    /// name, absent when the declaration or its name is unavailable.
    Record(Option<String>),
    Other,
}

/// What a function-prototype node exposes: return type, parameter types in
/// declared order, and the calling convention.
pub struct CProto {
    pub result: Option<Box<CType>>,
    pub args: Option<Vec<CType>>,
    pub cconv: Option<SrcCConv>,
}

/// A function declaration: its linkage name, its source location (used only
/// in error payloads), its display name, and its type.
pub struct CFuncDecl {
    pub name: Option<String>,
    pub location: String,
    pub display: String,
    pub ty: Option<CType>,
}

/// One member of a struct declaration: its display name, its type, and its
/// bit offset as reported by the source type system.
pub struct CField {
    pub display: String,
    pub name: Option<String>,
    pub ty: Option<CType>,
    pub bit_offset: Option<usize>,
}

/// A struct declaration: whether it exposes a type at all, its display name,
/// its members, and its total byte size.
pub struct CStructDecl {
    pub display: String,
    pub has_type: bool,
    pub name: Option<String>,
    pub fields: Option<Vec<CField>>,
    pub size: Option<usize>,
}

/// The mathematical image of a [`CType`].
pub struct CTypeV {
    pub display: Seq<char>,
    pub kind: CTypeKindV,
}

pub enum CTypeKindV {
    Primitive(PrimKind),
    Typedef(Box<CTypeV>),
    ConstantArray(Option<Box<CTypeV>>, Option<usize>),
    FunctionPrototype(CProtoV),
    Pointer(Option<Box<CTypeV>>),
    Record(Option<Seq<char>>),
    Other,
}

pub struct CProtoV {
    pub result: Option<Box<CTypeV>>,
    pub args: Option<Seq<CTypeV>>,
    pub cconv: Option<SrcCConv>,
}

/// The view of one source type node.
pub open spec fn ctype_view(t: CType) -> CTypeV
    decreases t via ctype_view_dec
{
    CTypeV {
        display: t.display@,
        kind: match t.kind {
            CTypeKind::Primitive(k) => CTypeKindV::Primitive(k),
            CTypeKind::Typedef(b) => CTypeKindV::Typedef(Box::new(ctype_view(*b))),
            CTypeKind::ConstantArray(e, s) => CTypeKindV::ConstantArray(
                match e {
                    None => None,
                    Some(b) => Some(Box::new(ctype_view(*b))),
                },
                s,
            ),
            CTypeKind::FunctionPrototype(p) => CTypeKindV::FunctionPrototype(
                CProtoV {
                    result: match p.result {
                        None => None,
                        Some(b) => Some(Box::new(ctype_view(*b))),
                    },
                    args: match p.args {
                        None => None,
                        Some(v) => Some(ctype_seq_view(v@)),
                    },
                    cconv: p.cconv,
                },
            ),
            CTypeKind::Pointer(e) => CTypeKindV::Pointer(
                match e {
                    None => None,
                    Some(b) => Some(Box::new(ctype_view(*b))),
                },
            ),
            CTypeKind::Record(n) => CTypeKindV::Record(
                match n {
                    None => None,
                    Some(s) => Some(s@),
                },
            ),
            CTypeKind::Other => CTypeKindV::Other,
        },
    }
}

/// The view of a list of source type nodes, element by element.
pub open spec fn ctype_seq_view(ts: Seq<CType>) -> Seq<CTypeV>
    decreases ts,
{
    if ts.len() == 0 {
        Seq::empty()
    } else {
        seq![ctype_view(ts[0])] + ctype_seq_view(ts.subrange(1, ts.len() as int))
    }
}

/// `ctype_seq_view` maps the view over the list, element by element.
pub proof fn lemma_ctype_seq_view(ts: Seq<CType>)
    ensures
        ctype_seq_view(ts).len() == ts.len(),
        forall|k: int| 0 <= k < ts.len() ==> ctype_seq_view(ts)[k] == ctype_view(#[trigger] ts[k]),
    decreases ts.len(),
{
    if ts.len() > 0 {
        let rest = ts.subrange(1, ts.len() as int);
        lemma_ctype_seq_view(rest);
        assert forall|k: int| 0 <= k < ts.len() implies ctype_seq_view(ts)[k] == ctype_view(
            #[trigger] ts[k],
        ) by {
            if k > 0 {
                assert(rest[k - 1] == ts[k]);
            }
        }
    }
}

#[via_fn]
proof fn ctype_view_dec(t: CType) {
    match t.kind {
        CTypeKind::FunctionPrototype(p) => match p.args {
            Some(v) => {
                assert(decreases_to!(t => t.kind));
                assert(decreases_to!(t.kind => p));
                assert(decreases_to!(p => p.args));
                assert(decreases_to!(p.args => v));
                assert(decreases_to!(v => v@));
            },
            None => {},
        },
        _ => {},
    }
}

impl View for CType {
    type V = CTypeV;

    open spec fn view(&self) -> CTypeV {
        ctype_view(*self)
    }
}

/// The mathematical image of a [`CFuncDecl`].
pub struct CFuncDeclV {
    pub name: Option<Seq<char>>,
    pub location: Seq<char>,
    pub display: Seq<char>,
    pub ty: Option<CTypeV>,
}

impl View for CFuncDecl {
    type V = CFuncDeclV;

    open spec fn view(&self) -> CFuncDeclV {
        CFuncDeclV {
            name: match self.name {
                None => None,
                Some(s) => Some(s@),
            },
            location: self.location@,
            display: self.display@,
            ty: match self.ty {
                None => None,
                Some(t) => Some(ctype_view(t)),
            },
        }
    }
}

/// The mathematical image of a [`CField`].
pub struct CFieldV {
    pub display: Seq<char>,
    pub name: Option<Seq<char>>,
    pub ty: Option<CTypeV>,
    pub bit_offset: Option<usize>,
}

impl View for CField {
    type V = CFieldV;

    open spec fn view(&self) -> CFieldV {
        CFieldV {
            display: self.display@,
            name: match self.name {
                None => None,
                Some(s) => Some(s@),
            },
            ty: match self.ty {
                None => None,
                Some(t) => Some(ctype_view(t)),
            },
            bit_offset: self.bit_offset,
        }
    }
}

/// The mathematical image of a [`CStructDecl`].
pub struct CStructDeclV {
    pub display: Seq<char>,
    pub has_type: bool,
    pub name: Option<Seq<char>>,
    pub fields: Option<Seq<CFieldV>>,
    pub size: Option<usize>,
}

impl View for CStructDecl {
    type V = CStructDeclV;

    open spec fn view(&self) -> CStructDeclV {
        CStructDeclV {
            display: self.display@,
            has_type: self.has_type,
            name: match self.name {
                None => None,
                Some(s) => Some(s@),
            },
            fields: match self.fields {
                None => None,
                Some(fs) => Some(Seq::new(fs@.len(), |k: int| fs@[k]@)),
            },
            size: self.size,
        }
    }
}

/// Whether one diagnostic is above warning severity and so blocks the run.
pub open spec fn spec_blocking(s: CSeverity) -> bool {
    s == CSeverity::Error || s == CSeverity::Fatal
}

/// The parse-severity gate: diagnostics at or above error severity stop the
/// run before any symbol resolution begins.
pub fn has_blocking_diagnostic(diags: &Vec<CSeverity>) -> (r: bool)
    ensures
        r == exists|k: int| 0 <= k < diags@.len() && spec_blocking(#[trigger] diags@[k]),
{
    let n = diags.len();
    let mut i: usize = 0;
    while i < n
        invariant
            n == diags@.len(),
            i <= n,
            forall|k: int| 0 <= k < i ==> !spec_blocking(#[trigger] diags@[k]),
        decreases n - i,
    {
        let d = diags[i];
        if match d {
            CSeverity::Error => true,
            CSeverity::Fatal => true,
            _ => false,
        } {
            assert(spec_blocking(diags@[i as int]));
            return true;
        }
        i += 1;
    }
    false
}

} // verus!
