//! The type translator: converts nodes of the external declaration tree into
//! the closed debug-info type model, and builds function signatures and
//! struct layouts from declarations.
//!
//! Any structural failure — a missing name, an undeterminable size, an
//! unsupported calling convention, a bit-field offset — is an error that the
//! caller treats as fatal: a half-translated aggregate must never reach the
//! debug-info writer.

use crate::ctypes::{
    ctype_seq_view, ctype_view, lemma_ctype_seq_view, CFieldV, CFuncDecl, CFuncDeclV, CStructDecl,
    CStructDeclV, CType, CTypeKind, CTypeKindV, CTypeV, PrimKind, SrcCConv,
};
use crate::error::{BaoError, ErrV};
use vstd::prelude::*;

verus! {

/// The closed set of primitive debug-info type tags.
#[derive(Clone, Copy, PartialEq, Eq, Structural, Debug)]
pub enum SimpleKind {
    Void,
    Boolean8,
    SignedCharacter,
    UnsignedCharacter,
    WideCharacter,
    Character16,
    Character32,
    Int16Short,
    UInt16Short,
    Int32,
    UInt32,
    Int32Long,
    UInt32Long,
    Int64Quad,
    UInt64Quad,
    Int128,
    UInt128,
    Float16,
    Float32,
    Float64,
    Float80,
    Float128,
}

/// The closed set of calling conventions the debug-info model supports.
#[derive(Clone, Copy, PartialEq, Eq, Structural, Debug)]
pub enum CConv {
    NearC,
    NearFast,
    NearStdCall,
    ThisCall,
}

/// A closed debug-info type: a primitive, a pointer, a fixed-size array with
/// its total byte size, a callable signature, or a struct referenced by name
/// only — a struct body is never embedded, so no type is ever
/// self-referential.
#[derive(Debug)]
pub enum BaoType {
    SimpleType(SimpleKind),
    Pointer(Box<BaoType>),
    ConstantArray(Box<BaoType>, usize),
    Function(FuncSig),
    Struct(String),
}

/// A bare callable signature: return type, parameter types in declared order,
/// and calling convention.
#[derive(Debug)]
pub struct FuncSig {
    pub retn: Box<BaoType>,
    pub args: Vec<BaoType>,
    pub cconv: CConv,
}

/// A translated function declaration: a callable signature with its linkage
/// name.
#[derive(Debug)]
pub struct BaoFunc {
    pub retn: BaoType,
    pub name: String,
    pub args: Vec<BaoType>,
    pub cconv: CConv,
}

/// One translated struct member: its type, its name, and its byte offset.
#[derive(Debug)]
pub struct StructField {
    pub ty: BaoType,
    pub name: String,
    pub offset: u64,
}

/// A translated struct layout: its name, its members in declared order, and
/// its total byte size.
#[derive(Debug)]
pub struct BaoStruct {
    pub name: String,
    pub fields: Vec<StructField>,
    pub size: usize,
}

/// The mathematical image of a [`BaoType`].
pub enum TypeV {
    SimpleType(SimpleKind),
    Pointer(Box<TypeV>),
    ConstantArray(Box<TypeV>, usize),
    Function(FuncSigV),
    Struct(Seq<char>),
}

pub struct FuncSigV {
    pub retn: Box<TypeV>,
    pub args: Seq<TypeV>,
    pub cconv: CConv,
}

/// The mathematical image of a [`BaoFunc`].
pub struct BaoFuncV {
    pub retn: TypeV,
    pub name: Seq<char>,
    pub args: Seq<TypeV>,
    pub cconv: CConv,
}

/// The mathematical image of a [`StructField`].
pub struct StructFieldV {
    pub ty: TypeV,
    pub name: Seq<char>,
    pub offset: u64,
}

/// The mathematical image of a [`BaoStruct`].
pub struct BaoStructV {
    pub name: Seq<char>,
    pub fields: Seq<StructFieldV>,
    pub size: usize,
}

/// The view of one debug-info type.
pub open spec fn type_view(t: BaoType) -> TypeV
    decreases t via type_view_dec
{
    match t {
        BaoType::SimpleType(k) => TypeV::SimpleType(k),
        BaoType::Pointer(b) => TypeV::Pointer(Box::new(type_view(*b))),
        BaoType::ConstantArray(b, s) => TypeV::ConstantArray(Box::new(type_view(*b)), s),
        BaoType::Function(f) => TypeV::Function(
            FuncSigV {
                retn: Box::new(type_view(*f.retn)),
                args: type_seq_view(f.args@),
                cconv: f.cconv,
            },
        ),
        BaoType::Struct(n) => TypeV::Struct(n@),
    }
}

/// The view of a list of debug-info types, element by element.
pub open spec fn type_seq_view(ts: Seq<BaoType>) -> Seq<TypeV>
    decreases ts,
{
    if ts.len() == 0 {
        Seq::empty()
    } else {
        seq![type_view(ts[0])] + type_seq_view(ts.subrange(1, ts.len() as int))
    }
}

#[via_fn]
proof fn type_view_dec(t: BaoType) {
    match t {
        BaoType::Function(f) => {
            assert(decreases_to!(t => f));
            assert(decreases_to!(f => f.args));
            assert(decreases_to!(f.args => f.args@));
            assert(decreases_to!(f => *f.retn));
        },
        _ => {},
    }
}

/// `type_seq_view` maps the view over the list, element by element.
pub proof fn lemma_type_seq_view(ts: Seq<BaoType>)
    ensures
        type_seq_view(ts).len() == ts.len(),
        forall|k: int| 0 <= k < ts.len() ==> type_seq_view(ts)[k] == type_view(#[trigger] ts[k]),
    decreases ts.len(),
{
    if ts.len() > 0 {
        let rest = ts.subrange(1, ts.len() as int);
        lemma_type_seq_view(rest);
        assert forall|k: int| 0 <= k < ts.len() implies type_seq_view(ts)[k] == type_view(
            #[trigger] ts[k],
        ) by {
            if k > 0 {
                assert(rest[k - 1] == ts[k]);
            }
        }
    }
}

impl View for BaoType {
    type V = TypeV;

    open spec fn view(&self) -> TypeV {
        type_view(*self)
    }
}

impl View for BaoFunc {
    type V = BaoFuncV;

    open spec fn view(&self) -> BaoFuncV {
        BaoFuncV {
            retn: type_view(self.retn),
            name: self.name@,
            args: type_seq_view(self.args@),
            cconv: self.cconv,
        }
    }
}

impl View for StructField {
    type V = StructFieldV;

    open spec fn view(&self) -> StructFieldV {
        StructFieldV { ty: type_view(self.ty), name: self.name@, offset: self.offset }
    }
}

impl View for BaoStruct {
    type V = BaoStructV;

    open spec fn view(&self) -> BaoStructV {
        BaoStructV {
            name: self.name@,
            fields: Seq::new(self.fields@.len(), |k: int| self.fields@[k]@),
            size: self.size,
        }
    }
}

/// The one-to-one mapping of source primitive kinds onto debug-info tags.
pub open spec fn prim_kind_map(k: PrimKind) -> SimpleKind {
    match k {
        PrimKind::Void => SimpleKind::Void,
        PrimKind::Bool => SimpleKind::Boolean8,
        PrimKind::CharS => SimpleKind::SignedCharacter,
        PrimKind::CharU => SimpleKind::UnsignedCharacter,
        PrimKind::SChar => SimpleKind::SignedCharacter,
        PrimKind::UChar => SimpleKind::UnsignedCharacter,
        PrimKind::WChar => SimpleKind::WideCharacter,
        PrimKind::Char16 => SimpleKind::Character16,
        PrimKind::Char32 => SimpleKind::Character32,
        PrimKind::Short => SimpleKind::Int16Short,
        PrimKind::UShort => SimpleKind::UInt16Short,
        PrimKind::Int => SimpleKind::Int32,
        PrimKind::UInt => SimpleKind::UInt32,
        PrimKind::Long => SimpleKind::Int32Long,
        PrimKind::ULong => SimpleKind::UInt32Long,
        PrimKind::LongLong => SimpleKind::Int64Quad,
        PrimKind::ULongLong => SimpleKind::UInt64Quad,
        PrimKind::Int128 => SimpleKind::Int128,
        PrimKind::UInt128 => SimpleKind::UInt128,
        PrimKind::Float16 => SimpleKind::Float16,
        PrimKind::Float => SimpleKind::Float32,
        PrimKind::Double => SimpleKind::Float64,
        PrimKind::LongDouble => SimpleKind::Float80,
        PrimKind::Float128 => SimpleKind::Float128,
    }
}

/// The mapping of source calling conventions onto the supported set: `None`
/// is an unsupported convention.  The default 64-bit convention maps to
/// near-fast, as `fastcall` does.
pub open spec fn cconv_map(c: SrcCConv) -> Option<CConv> {
    match c {
        SrcCConv::Cdecl => Some(CConv::NearC),
        SrcCConv::Fastcall => Some(CConv::NearFast),
        SrcCConv::Stdcall => Some(CConv::NearStdCall),
        SrcCConv::Thiscall => Some(CConv::ThisCall),
        SrcCConv::Win64 => Some(CConv::NearFast),
        SrcCConv::Vectorcall => None,
        SrcCConv::Other => None,
    }
}

/// The meaning of translating one type node.  Primitives map one-to-one;
/// aliases recurse on the canonical type; arrays recurse on the element and
/// keep the total byte size; prototypes become callable signatures; pointers
/// recurse on the pointee; records become a name-only reference; anything
/// else is an unknown type.
pub open spec fn spec_translate_type(t: CTypeV) -> Result<TypeV, ErrV>
    decreases t, 1int, 0int,
{
    match t.kind {
        CTypeKindV::Primitive(k) => Ok(TypeV::SimpleType(prim_kind_map(k))),
        CTypeKindV::Typedef(b) => spec_translate_type(*b),
        CTypeKindV::ConstantArray(elem, size) => match elem {
            None => Err(ErrV::TypeError { message: t.display }),
            Some(e) => match size {
                None => Err(ErrV::TypeError { message: t.display }),
                Some(sz) => match spec_translate_type(*e) {
                    Err(err) => Err(err),
                    Ok(inner) => Ok(TypeV::ConstantArray(Box::new(inner), sz)),
                },
            },
        },
        CTypeKindV::FunctionPrototype(_) => match spec_translate_func(t) {
            Err(err) => Err(err),
            Ok(f) => Ok(
                TypeV::Function(FuncSigV { retn: Box::new(f.retn), args: f.args, cconv: f.cconv }),
            ),
        },
        CTypeKindV::Pointer(p) => match p {
            None => Err(ErrV::TypeError { message: t.display }),
            Some(inner) => match spec_translate_type(*inner) {
                Err(err) => Err(err),
                Ok(v) => Ok(TypeV::Pointer(Box::new(v))),
            },
        },
        CTypeKindV::Record(n) => match n {
            None => Err(ErrV::InvalidName { ty: "type"@, name: t.display }),
            Some(name) => Ok(TypeV::Struct(name)),
        },
        CTypeKindV::Other => Err(ErrV::UnknownType { name: t.display }),
    }
}

/// The meaning of building a callable signature from a type node: the return
/// type is translated first, then every parameter in declared order, then the
/// calling convention is mapped.  A node that is no function prototype has no
/// return type.
pub open spec fn spec_translate_func(t: CTypeV) -> Result<BaoFuncV, ErrV>
    decreases t, 0int, 0int,
{
    match t.kind {
        CTypeKindV::FunctionPrototype(p) => match p.result {
            None => Err(ErrV::InvalidRetnType { function: t.display }),
            Some(rt) => match spec_translate_type(*rt) {
                Err(err) => Err(err),
                Ok(retn) => match p.args {
                    None => Err(ErrV::InvalidFuncArgs { function: t.display }),
                    Some(args) => match spec_translate_args(args, 0) {
                        Err(err) => Err(err),
                        Ok(argvs) => match p.cconv {
                            None => Err(ErrV::InvalidCConv { function: t.display }),
                            Some(c) => match cconv_map(c) {
                                None => Err(ErrV::InvalidCConv { function: t.display }),
                                Some(cc) => Ok(
                                    BaoFuncV {
                                        retn,
                                        name: Seq::empty(),
                                        args: argvs,
                                        cconv: cc,
                                    },
                                ),
                            },
                        },
                    },
                },
            },
        },
        _ => Err(ErrV::InvalidRetnType { function: t.display }),
    }
}

/// The meaning of translating the parameter list from position `i` on: the
/// first failure wins.
pub open spec fn spec_translate_args(ts: Seq<CTypeV>, i: int) -> Result<Seq<TypeV>, ErrV>
    decreases ts, 2int, ts.len() - i,
{
    if i < 0 || i >= ts.len() {
        Ok(Seq::empty())
    } else {
        match spec_translate_type(ts[i]) {
            Err(err) => Err(err),
            Ok(v) => match spec_translate_args(ts, i + 1) {
                Err(err) => Err(err),
                Ok(rest) => Ok(seq![v] + rest),
            },
        }
    }
}

/// The meaning of translating the member list from position `i` on: each
/// member needs a name, a type that translates, and a bit offset that is an
/// exact multiple of 8 — a bit-field is a structural error, never rounded.
pub open spec fn spec_translate_fields(fs: Seq<CFieldV>, i: int) -> Result<Seq<StructFieldV>, ErrV>
    decreases fs.len() - i,
{
    if i < 0 || i >= fs.len() {
        Ok(Seq::empty())
    } else {
        let f = fs[i];
        match f.name {
            None => Err(ErrV::InvalidName { ty: "field"@, name: f.display }),
            Some(nm) => match f.ty {
                None => Err(ErrV::InvalidField { message: f.display }),
                Some(t) => match spec_translate_type(t) {
                    Err(err) => Err(err),
                    Ok(tv) => match f.bit_offset {
                        None => Err(ErrV::InvalidOffset),
                        Some(bo) => if bo % 8 != 0 {
                            Err(ErrV::InvalidOffset)
                        } else {
                            match spec_translate_fields(fs, i + 1) {
                                Err(err) => Err(err),
                                Ok(rest) => Ok(
                                    seq![
                                        StructFieldV {
                                            ty: tv,
                                            name: nm,
                                            offset: (bo / 8) as u64,
                                        },
                                    ] + rest,
                                ),
                            }
                        },
                    },
                },
            },
        }
    }
}

/// The meaning of building a struct layout from a declaration.
pub open spec fn spec_translate_struct(d: CStructDeclV) -> Result<BaoStructV, ErrV> {
    if !d.has_type {
        Err(ErrV::InvalidName { ty: "struct"@, name: d.display })
    } else {
        match d.name {
            None => Err(ErrV::InvalidName { ty: "struct"@, name: d.display }),
            Some(nm) => match d.fields {
                None => Err(ErrV::InvalidStruct),
                Some(fs) => match spec_translate_fields(fs, 0) {
                    Err(err) => Err(err),
                    Ok(fvs) => match d.size {
                        None => Err(ErrV::InvalidStructSize),
                        Some(sz) => Ok(BaoStructV { name: nm, fields: fvs, size: sz }),
                    },
                },
            },
        }
    }
}

/// The meaning of building a named function from a declaration: the
/// declaration needs a linkage name and a type, and the type must build a
/// callable signature.
pub open spec fn spec_translate_func_decl(d: CFuncDeclV) -> Result<BaoFuncV, ErrV> {
    match d.name {
        None => Err(ErrV::InvalidFuncName { location: d.location }),
        Some(nm) => match d.ty {
            None => Err(ErrV::InvalidFunc { location: d.display }),
            Some(t) => match spec_translate_func(t) {
                Err(err) => Err(err),
                Ok(f) => Ok(BaoFuncV { retn: f.retn, name: nm, args: f.args, cconv: f.cconv }),
            },
        },
    }
}

/// A member that the layout builder accepts: it has a name, a type that
/// translates, and a bit offset that is an exact multiple of 8.
pub open spec fn field_well_formed(f: CFieldV) -> bool {
    &&& f.name is Some
    &&& f.ty is Some
    &&& spec_translate_type(f.ty->0) is Ok
    &&& f.bit_offset is Some
    &&& f.bit_offset->0 % 8 == 0
}

/// Translating a member list whose every member is well formed succeeds, and
/// each member's byte offset is exactly its bit offset divided by 8.
pub proof fn lemma_struct_fields_ok(fs: Seq<CFieldV>, i: int)
    requires
        0 <= i <= fs.len(),
        forall|k: int| i <= k < fs.len() ==> field_well_formed(#[trigger] fs[k]),
    ensures
        match spec_translate_fields(fs, i) {
            Ok(out) => out.len() == fs.len() - i && forall|k: int|
                i <= k < fs.len() ==> ((#[trigger] out[k - i]).offset == fs[k].bit_offset->0 / 8
                    && out[k - i].name == fs[k].name->0 && out[k - i].ty == spec_translate_type(
                    fs[k].ty->0,
                )->Ok_0),
            Err(_) => false,
        },
    decreases fs.len() - i,
{
    if i < fs.len() {
        assert(field_well_formed(fs[i]));
        lemma_struct_fields_ok(fs, i + 1);
        let out = spec_translate_fields(fs, i)->Ok_0;
        let rest = spec_translate_fields(fs, i + 1)->Ok_0;
        assert(spec_translate_fields(fs, i) is Ok);
        assert forall|k: int| i <= k < fs.len() implies ((#[trigger] out[k - i]).offset
            == fs[k].bit_offset->0 / 8 && out[k - i].name == fs[k].name->0 && out[k - i].ty
            == spec_translate_type(fs[k].ty->0)->Ok_0) by {
            if k == i {
                assert(out[0].offset == fs[i].bit_offset->0 / 8);
            } else {
                assert(out[k - i] == rest[k - i - 1]);
                assert(rest[k - (i + 1)].offset == fs[k].bit_offset->0 / 8);
            }
        }
    }
}

/// The struct round trip: a declaration with a type, a name, a size, and only
/// well-formed members yields a layout whose name and size are the declared
/// ones and whose member offsets are exactly the bit offsets divided by 8.
pub proof fn lemma_struct_round_trip(d: CStructDeclV)
    requires
        d.has_type,
        d.name is Some,
        d.size is Some,
        d.fields is Some,
        forall|k: int| 0 <= k < d.fields->0.len() ==> field_well_formed(#[trigger] d.fields->0[k]),
    ensures
        match spec_translate_struct(d) {
            Ok(s) => s.name == d.name->0 && s.size == d.size->0 && s.fields.len()
                == d.fields->0.len() && forall|k: int|
                0 <= k < d.fields->0.len() ==> ((#[trigger] s.fields[k]).offset
                    == d.fields->0[k].bit_offset->0 / 8 && s.fields[k].name
                    == d.fields->0[k].name->0),
            Err(_) => false,
        },
{
    lemma_struct_fields_ok(d.fields->0, 0);
    let fs = d.fields->0;
    let out = spec_translate_fields(fs, 0)->Ok_0;
    assert forall|k: int| 0 <= k < fs.len() implies ((#[trigger] out[k]).offset
        == fs[k].bit_offset->0 / 8 && out[k].name == fs[k].name->0) by {
        assert(out[k - 0].offset == fs[k].bit_offset->0 / 8);
        assert(out[k - 0].name == fs[k].name->0);
    }
}

/// A member whose bit offset is not an exact multiple of 8 fails the member
/// list with the offset error — it is never rounded — provided the members
/// before it pass.
pub proof fn lemma_fields_bitfield_rejected(fs: Seq<CFieldV>, i: int, k: int)
    requires
        0 <= i <= k < fs.len(),
        forall|j: int| i <= j < k ==> field_well_formed(#[trigger] fs[j]),
        fs[k].name is Some,
        fs[k].ty is Some,
        spec_translate_type(fs[k].ty->0) is Ok,
        fs[k].bit_offset is Some,
        fs[k].bit_offset->0 % 8 != 0,
    ensures
        spec_translate_fields(fs, i) == Err::<Seq<StructFieldV>, ErrV>(ErrV::InvalidOffset),
    decreases k - i,
{
    if i < k {
        assert(field_well_formed(fs[i]));
        lemma_fields_bitfield_rejected(fs, i + 1, k);
    }
}

/// A declaration holding a member with a non-byte-aligned bit offset fails as
/// a whole with the offset error, provided the members before it pass.
pub proof fn lemma_bitfield_rejected(d: CStructDeclV, k: int)
    requires
        d.has_type,
        d.name is Some,
        d.fields is Some,
        0 <= k < d.fields->0.len(),
        forall|j: int| 0 <= j < k ==> field_well_formed(#[trigger] d.fields->0[j]),
        d.fields->0[k].name is Some,
        d.fields->0[k].ty is Some,
        spec_translate_type(d.fields->0[k].ty->0) is Ok,
        d.fields->0[k].bit_offset is Some,
        d.fields->0[k].bit_offset->0 % 8 != 0,
    ensures
        spec_translate_struct(d) == Err::<BaoStructV, ErrV>(ErrV::InvalidOffset),
{
    lemma_fields_bitfield_rejected(d.fields->0, 0, k);
}

/// A calling convention outside the supported set is a structural error: a
/// prototype whose return type and parameters all translate still fails as a
/// whole with the calling-convention error.  Contrast the symbol finder,
/// which demotes pattern-level failures to warnings and carries on.
pub proof fn lemma_unsupported_cconv(t: CTypeV)
    requires
        t.kind matches CTypeKindV::FunctionPrototype(p) && (p.result matches Some(rt)
            && spec_translate_type(*rt) is Ok) && (p.args matches Some(a) && spec_translate_args(
            a,
            0,
        ) is Ok) && match p.cconv {
            None => true,
            Some(c) => cconv_map(c) is None,
        },
    ensures
        spec_translate_func(t) == Err::<BaoFuncV, ErrV>(
            ErrV::InvalidCConv { function: t.display },
        ),
        spec_translate_type(t) == Err::<TypeV, ErrV>(ErrV::InvalidCConv { function: t.display }),
{
}

/// Whether an executable type-translation result means what the spec says.
pub open spec fn type_result_matches(r: Result<BaoType, BaoError>, s: Result<TypeV, ErrV>) -> bool {
    match s {
        Ok(v) => r matches Ok(x) && x@ == v,
        Err(e) => r matches Err(x) && x@ == e,
    }
}

/// Whether an executable signature-building result means what the spec says.
pub open spec fn func_result_matches(
    r: Result<BaoFunc, BaoError>,
    s: Result<BaoFuncV, ErrV>,
) -> bool {
    match s {
        Ok(v) => r matches Ok(x) && x@ == v,
        Err(e) => r matches Err(x) && x@ == e,
    }
}

/// Whether an executable layout-building result means what the spec says.
pub open spec fn struct_result_matches(
    r: Result<BaoStruct, BaoError>,
    s: Result<BaoStructV, ErrV>,
) -> bool {
    match s {
        Ok(v) => r matches Ok(x) && x@ == v,
        Err(e) => r matches Err(x) && x@ == e,
    }
}

/// Executable form of [`prim_kind_map`].
fn map_prim(k: PrimKind) -> (r: SimpleKind)
    ensures
        r == prim_kind_map(k),
{
    match k {
        PrimKind::Void => SimpleKind::Void,
        PrimKind::Bool => SimpleKind::Boolean8,
        PrimKind::CharS => SimpleKind::SignedCharacter,
        PrimKind::CharU => SimpleKind::UnsignedCharacter,
        PrimKind::SChar => SimpleKind::SignedCharacter,
        PrimKind::UChar => SimpleKind::UnsignedCharacter,
        PrimKind::WChar => SimpleKind::WideCharacter,
        PrimKind::Char16 => SimpleKind::Character16,
        PrimKind::Char32 => SimpleKind::Character32,
        PrimKind::Short => SimpleKind::Int16Short,
        PrimKind::UShort => SimpleKind::UInt16Short,
        PrimKind::Int => SimpleKind::Int32,
        PrimKind::UInt => SimpleKind::UInt32,
        PrimKind::Long => SimpleKind::Int32Long,
        PrimKind::ULong => SimpleKind::UInt32Long,
        PrimKind::LongLong => SimpleKind::Int64Quad,
        PrimKind::ULongLong => SimpleKind::UInt64Quad,
        PrimKind::Int128 => SimpleKind::Int128,
        PrimKind::UInt128 => SimpleKind::UInt128,
        PrimKind::Float16 => SimpleKind::Float16,
        PrimKind::Float => SimpleKind::Float32,
        PrimKind::Double => SimpleKind::Float64,
        PrimKind::LongDouble => SimpleKind::Float80,
        PrimKind::Float128 => SimpleKind::Float128,
    }
}

/// Executable form of [`cconv_map`].
fn map_cconv(c: SrcCConv) -> (r: Option<CConv>)
    ensures
        r == cconv_map(c),
{
    match c {
        SrcCConv::Cdecl => Some(CConv::NearC),
        SrcCConv::Fastcall => Some(CConv::NearFast),
        SrcCConv::Stdcall => Some(CConv::NearStdCall),
        SrcCConv::Thiscall => Some(CConv::ThisCall),
        SrcCConv::Win64 => Some(CConv::NearFast),
        SrcCConv::Vectorcall => None,
        SrcCConv::Other => None,
    }
}

impl BaoFunc {
    /// Drops the linkage name, leaving the bare callable signature.
    pub fn into_sig(self) -> (r: FuncSig)
        ensures
            type_view(BaoType::Function(r)) == TypeV::Function(
                FuncSigV { retn: Box::new(self@.retn), args: self@.args, cconv: self@.cconv },
            ),
    {
        FuncSig { retn: Box::new(self.retn), args: self.args, cconv: self.cconv }
    }
}

impl BaoType {
    /// Translates one node of the source type tree into the closed type
    /// model.
    #[verifier::loop_isolation(false)]
    pub fn try_from_c(t: &CType) -> (r: Result<BaoType, BaoError>)
        ensures
            type_result_matches(r, spec_translate_type(t@)),
        decreases *t, 1int, 0int,
    {
        match &t.kind {
            CTypeKind::Primitive(k) => Ok(BaoType::SimpleType(map_prim(*k))),
            CTypeKind::Typedef(b) => BaoType::try_from_c(&**b),
            CTypeKind::ConstantArray(e, s) => match e {
                None => Err(BaoError::TypeError { message: t.display.clone() }),
                Some(eb) => match s {
                    None => Err(BaoError::TypeError { message: t.display.clone() }),
                    Some(sz) => match BaoType::try_from_c(&**eb) {
                        Err(err) => Err(err),
                        Ok(inner) => Ok(BaoType::ConstantArray(Box::new(inner), *sz)),
                    },
                },
            },
            CTypeKind::FunctionPrototype(_) => match BaoFunc::try_from_c(t) {
                Err(err) => Err(err),
                Ok(f) => Ok(BaoType::Function(f.into_sig())),
            },
            CTypeKind::Pointer(p) => match p {
                None => Err(BaoError::TypeError { message: t.display.clone() }),
                Some(ib) => match BaoType::try_from_c(&**ib) {
                    Err(err) => Err(err),
                    Ok(v) => Ok(BaoType::Pointer(Box::new(v))),
                },
            },
            CTypeKind::Record(n) => match n {
                None => Err(
                    BaoError::InvalidName { ty: "type".to_owned(), name: t.display.clone() },
                ),
                Some(name) => Ok(BaoType::Struct(name.clone())),
            },
            CTypeKind::Other => Err(BaoError::UnknownType { name: t.display.clone() }),
        }
    }
}

impl BaoFunc {
    /// Builds a bare callable signature from a function-prototype node: the
    /// return type first, then every parameter in declared order, then the
    /// calling convention.
    #[verifier::loop_isolation(false)]
    pub fn try_from_c(t: &CType) -> (r: Result<BaoFunc, BaoError>)
        ensures
            func_result_matches(r, spec_translate_func(t@)),
        decreases *t, 0int, 0int,
    {
        match &t.kind {
            CTypeKind::FunctionPrototype(p) => {
                let rt = match &p.result {
                    None => {
                        return Err(
                            BaoError::InvalidRetnType { function: t.display.clone() },
                        );
                    },
                    Some(rb) => &**rb,
                };
                let retn = match BaoType::try_from_c(rt) {
                    Err(err) => {
                        return Err(err);
                    },
                    Ok(v) => v,
                };
                let argv = match &p.args {
                    None => {
                        return Err(
                            BaoError::InvalidFuncArgs { function: t.display.clone() },
                        );
                    },
                    Some(v) => v,
                };
                let ghost argsv = ctype_seq_view(argv@);
                proof {
                    lemma_ctype_seq_view(argv@);
                }
                let n = argv.len();
                let mut out: Vec<BaoType> = Vec::new();
                let mut i: usize = 0;
                proof {
                    assert(type_seq_view(out@) =~= Seq::<TypeV>::empty());
                    match spec_translate_args(argsv, 0) {
                        Ok(rest) => {
                            assert(type_seq_view(out@) + rest =~= rest);
                        },
                        Err(_) => {},
                    }
                }
                while i < n
                    invariant
                        i <= n,
                        match spec_translate_args(argsv, i as int) {
                            Err(e) => spec_translate_args(argsv, 0) == Err::<Seq<TypeV>, ErrV>(e),
                            Ok(rest) => spec_translate_args(argsv, 0) == Ok::<Seq<TypeV>, ErrV>(
                                type_seq_view(out@) + rest,
                            ),
                        },
                    decreases n - i,
                {
                    let elem = &argv[i];
                    proof {
                        assert(argsv[i as int] == ctype_view(argv@[i as int]));
                    }
                    match BaoType::try_from_c(elem) {
                        Err(err) => {
                            return Err(err);
                        },
                        Ok(v) => {
                            let ghost prev = out@;
                            out.push(v);
                            proof {
                                lemma_type_seq_view(prev);
                                lemma_type_seq_view(out@);
                                assert forall|k: int| 0 <= k < out@.len() implies type_seq_view(
                                    out@,
                                )[k] == (type_seq_view(prev) + seq![type_view(v)])[k] by {
                                    if k < prev.len() {
                                        assert(out@[k] == prev[k]);
                                    } else {
                                        assert(out@[k] == v);
                                    }
                                }
                                assert(type_seq_view(out@) =~= type_seq_view(prev) + seq![
                                    type_view(v),
                                ]);
                                match spec_translate_args(argsv, i + 1) {
                                    Ok(rest) => {
                                        assert(type_seq_view(prev) + (seq![type_view(v)] + rest)
                                            =~= type_seq_view(out@) + rest);
                                    },
                                    Err(_) => {},
                                }
                            }
                        },
                    }
                    i += 1;
                }
                proof {
                    match spec_translate_args(argsv, n as int) {
                        Ok(rest) => {
                            assert(type_seq_view(out@) + rest =~= type_seq_view(out@));
                        },
                        Err(_) => {},
                    }
                }
                let cc = match &p.cconv {
                    None => {
                        return Err(BaoError::InvalidCConv { function: t.display.clone() });
                    },
                    Some(c) => match map_cconv(*c) {
                        None => {
                            return Err(
                                BaoError::InvalidCConv { function: t.display.clone() },
                            );
                        },
                        Some(cc) => cc,
                    },
                };
                Ok(BaoFunc { retn, name: String::new(), args: out, cconv: cc })
            },
            _ => Err(BaoError::InvalidRetnType { function: t.display.clone() }),
        }
    }

    /// Builds a named function from a function declaration: the declaration
    /// must carry a linkage name and a type.
    pub fn try_from_entity(d: &CFuncDecl) -> (r: Result<BaoFunc, BaoError>)
        ensures
            func_result_matches(r, spec_translate_func_decl(d@)),
    {
        let name = match &d.name {
            None => {
                return Err(BaoError::InvalidFuncName { location: d.location.clone() });
            },
            Some(n) => n.clone(),
        };
        let ty = match &d.ty {
            None => {
                return Err(BaoError::InvalidFunc { location: d.display.clone() });
            },
            Some(t) => t,
        };
        match BaoFunc::try_from_c(ty) {
            Err(err) => Err(err),
            Ok(mut f) => {
                f.name = name;
                Ok(f)
            },
        }
    }
}

impl BaoStruct {
    /// Builds a struct layout from a struct declaration: every member needs a
    /// name, a translatable type, and a byte-aligned bit offset; the
    /// declaration needs a total size and a name of its own.
    #[verifier::loop_isolation(false)]
    pub fn try_from_decl(d: &CStructDecl) -> (r: Result<BaoStruct, BaoError>)
        ensures
            struct_result_matches(r, spec_translate_struct(d@)),
    {
        if !d.has_type {
            return Err(BaoError::InvalidName { ty: "struct".to_owned(), name: d.display.clone() });
        }
        let name = match &d.name {
            None => {
                return Err(
                    BaoError::InvalidName { ty: "struct".to_owned(), name: d.display.clone() },
                );
            },
            Some(n) => n.clone(),
        };
        let fs = match &d.fields {
            None => {
                return Err(BaoError::InvalidStruct);
            },
            Some(fs) => fs,
        };
        let ghost fsv = Seq::new(fs@.len(), |k: int| fs@[k]@);
        let n = fs.len();
        let mut out: Vec<StructField> = Vec::new();
        let mut i: usize = 0;
        proof {
            let outv = Seq::new(out@.len(), |k: int| out@[k]@);
            assert(outv =~= Seq::<StructFieldV>::empty());
            match spec_translate_fields(fsv, 0) {
                Ok(rest) => {
                    assert(outv + rest =~= rest);
                },
                Err(_) => {},
            }
        }
        while i < n
            invariant
                i <= n,
                match spec_translate_fields(fsv, i as int) {
                    Err(e) => spec_translate_fields(fsv, 0) == Err::<Seq<StructFieldV>, ErrV>(e),
                    Ok(rest) => spec_translate_fields(fsv, 0) == Ok::<Seq<StructFieldV>, ErrV>(
                        Seq::new(out@.len(), |k: int| out@[k]@) + rest,
                    ),
                },
            decreases n - i,
        {
            let field = &fs[i];
            let fname = match &field.name {
                None => {
                    return Err(
                        BaoError::InvalidName {
                            ty: "field".to_owned(),
                            name: field.display.clone(),
                        },
                    );
                },
                Some(nm) => nm.clone(),
            };
            let fty = match &field.ty {
                None => {
                    return Err(BaoError::InvalidField { message: field.display.clone() });
                },
                Some(t) => t,
            };
            let tv = match BaoType::try_from_c(fty) {
                Err(err) => {
                    return Err(err);
                },
                Ok(v) => v,
            };
            let bo = match field.bit_offset {
                None => {
                    return Err(BaoError::InvalidOffset);
                },
                Some(b) => b,
            };
            if bo % 8 != 0 {
                return Err(BaoError::InvalidOffset);
            }
            let ghost prevv = Seq::new(out@.len(), |k: int| out@[k]@);
            out.push(StructField { ty: tv, name: fname, offset: (bo / 8) as u64 });
            proof {
                let outv = Seq::new(out@.len(), |k: int| out@[k]@);
                assert(outv =~= prevv + seq![out@[out@.len() - 1]@]);
                match spec_translate_fields(fsv, i + 1) {
                    Ok(rest) => {
                        assert(prevv + (seq![out@[out@.len() - 1]@] + rest) =~= outv + rest);
                    },
                    Err(_) => {},
                }
            }
            i += 1;
        }
        proof {
            match spec_translate_fields(fsv, n as int) {
                Ok(rest) => {
                    assert(Seq::new(out@.len(), |k: int| out@[k]@) + rest =~= Seq::new(
                        out@.len(),
                        |k: int| out@[k]@,
                    ));
                },
                Err(_) => {},
            }
        }
        let size = match d.size {
            None => {
                return Err(BaoError::InvalidStructSize);
            },
            Some(sz) => sz,
        };
        Ok(BaoStruct { name, fields: out, size })
    }
}

} // verus!
