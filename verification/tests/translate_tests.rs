use bao::ctypes::{
    has_blocking_diagnostic, CField, CFuncDecl, CProto, CSeverity, CStructDecl, CType, CTypeKind,
    PrimKind, SrcCConv,
};
use bao::error::BaoError;
use bao::parsing::{BaoFunc, BaoStruct, BaoType, CConv, SimpleKind};

fn prim(k: PrimKind) -> CType {
    CType {
        display: "prim".to_string(),
        kind: CTypeKind::Primitive(k),
    }
}

fn proto(result: Option<CType>, args: Option<Vec<CType>>, cconv: Option<SrcCConv>) -> CType {
    CType {
        display: "proto".to_string(),
        kind: CTypeKind::FunctionPrototype(CProto {
            result: result.map(Box::new),
            args,
            cconv,
        }),
    }
}

fn field(name: &str, ty: CType, bit_offset: usize) -> CField {
    CField {
        display: format!("field {}", name),
        name: Some(name.to_string()),
        ty: Some(ty),
        bit_offset: Some(bit_offset),
    }
}

#[test]
fn struct_round_trip_divides_bit_offsets_by_eight() {
    let decl = CStructDecl {
        display: "Foo".to_string(),
        has_type: true,
        name: Some("Foo".to_string()),
        fields: Some(vec![
            field("a", prim(PrimKind::Int), 0),
            field("b", prim(PrimKind::CharS), 32),
            field("c", prim(PrimKind::Double), 64),
        ]),
        size: Some(16),
    };
    let s = BaoStruct::try_from_decl(&decl).unwrap();
    assert_eq!(s.name, "Foo");
    assert_eq!(s.size, 16);
    assert_eq!(s.fields.len(), 3);
    assert_eq!(s.fields[0].offset, 0);
    assert_eq!(s.fields[1].offset, 4);
    assert_eq!(s.fields[2].offset, 8);
    assert_eq!(s.fields[0].name, "a");
    assert!(matches!(
        s.fields[0].ty,
        BaoType::SimpleType(SimpleKind::Int32)
    ));
    assert!(matches!(
        s.fields[1].ty,
        BaoType::SimpleType(SimpleKind::SignedCharacter)
    ));
    assert!(matches!(
        s.fields[2].ty,
        BaoType::SimpleType(SimpleKind::Float64)
    ));
}

#[test]
fn bitfield_offset_fails_instead_of_rounding() {
    let decl = CStructDecl {
        display: "Bits".to_string(),
        has_type: true,
        name: Some("Bits".to_string()),
        fields: Some(vec![
            field("a", prim(PrimKind::Int), 0),
            field("b", prim(PrimKind::Int), 12),
        ]),
        size: Some(8),
    };
    assert!(matches!(
        BaoStruct::try_from_decl(&decl),
        Err(BaoError::InvalidOffset)
    ));
}

#[test]
fn struct_without_name_fields_or_size_fails_structurally() {
    let no_type = CStructDecl {
        display: "S".to_string(),
        has_type: false,
        name: Some("S".to_string()),
        fields: Some(vec![]),
        size: Some(0),
    };
    assert!(matches!(
        BaoStruct::try_from_decl(&no_type),
        Err(BaoError::InvalidName { .. })
    ));
    let no_name = CStructDecl {
        display: "S".to_string(),
        has_type: true,
        name: None,
        fields: Some(vec![]),
        size: Some(0),
    };
    assert!(matches!(
        BaoStruct::try_from_decl(&no_name),
        Err(BaoError::InvalidName { .. })
    ));
    let no_fields = CStructDecl {
        display: "S".to_string(),
        has_type: true,
        name: Some("S".to_string()),
        fields: None,
        size: Some(0),
    };
    assert!(matches!(
        BaoStruct::try_from_decl(&no_fields),
        Err(BaoError::InvalidStruct)
    ));
    let no_size = CStructDecl {
        display: "S".to_string(),
        has_type: true,
        name: Some("S".to_string()),
        fields: Some(vec![]),
        size: None,
    };
    assert!(matches!(
        BaoStruct::try_from_decl(&no_size),
        Err(BaoError::InvalidStructSize)
    ));
}

#[test]
fn nameless_or_typeless_field_fails_structurally() {
    let decl = CStructDecl {
        display: "S".to_string(),
        has_type: true,
        name: Some("S".to_string()),
        fields: Some(vec![CField {
            display: "anon".to_string(),
            name: None,
            ty: Some(prim(PrimKind::Int)),
            bit_offset: Some(0),
        }]),
        size: Some(4),
    };
    assert!(matches!(
        BaoStruct::try_from_decl(&decl),
        Err(BaoError::InvalidName { .. })
    ));
    let decl = CStructDecl {
        display: "S".to_string(),
        has_type: true,
        name: Some("S".to_string()),
        fields: Some(vec![CField {
            display: "broken".to_string(),
            name: Some("broken".to_string()),
            ty: None,
            bit_offset: Some(0),
        }]),
        size: Some(4),
    };
    assert!(matches!(
        BaoStruct::try_from_decl(&decl),
        Err(BaoError::InvalidField { .. })
    ));
}

#[test]
fn vector_call_yields_invalid_cconv() {
    let t = proto(
        Some(prim(PrimKind::Void)),
        Some(vec![prim(PrimKind::Int)]),
        Some(SrcCConv::Vectorcall),
    );
    match BaoFunc::try_from_c(&t) {
        Err(BaoError::InvalidCConv { function }) => assert_eq!(function, "proto"),
        other => panic!("expected InvalidCConv, got {:?}", other),
    }
    assert!(matches!(
        BaoType::try_from_c(&t),
        Err(BaoError::InvalidCConv { .. })
    ));
}

#[test]
fn missing_cconv_yields_invalid_cconv() {
    let t = proto(Some(prim(PrimKind::Void)), Some(vec![]), None);
    assert!(matches!(
        BaoFunc::try_from_c(&t),
        Err(BaoError::InvalidCConv { .. })
    ));
}

#[test]
fn supported_cconvs_map_onto_the_closed_set() {
    let cases = [
        (SrcCConv::Cdecl, CConv::NearC),
        (SrcCConv::Fastcall, CConv::NearFast),
        (SrcCConv::Stdcall, CConv::NearStdCall),
        (SrcCConv::Thiscall, CConv::ThisCall),
        (SrcCConv::Win64, CConv::NearFast),
    ];
    for (src, want) in cases {
        let t = proto(Some(prim(PrimKind::Void)), Some(vec![]), Some(src));
        let f = BaoFunc::try_from_c(&t).unwrap();
        assert_eq!(f.cconv, want);
        assert_eq!(f.name, "");
        assert!(f.args.is_empty());
        assert!(matches!(f.retn, BaoType::SimpleType(SimpleKind::Void)));
    }
}

#[test]
fn prototype_failures_name_the_missing_part() {
    let no_retn = proto(None, Some(vec![]), Some(SrcCConv::Cdecl));
    assert!(matches!(
        BaoFunc::try_from_c(&no_retn),
        Err(BaoError::InvalidRetnType { .. })
    ));
    let no_args = proto(Some(prim(PrimKind::Void)), None, Some(SrcCConv::Cdecl));
    assert!(matches!(
        BaoFunc::try_from_c(&no_args),
        Err(BaoError::InvalidFuncArgs { .. })
    ));
    let not_a_function = prim(PrimKind::Int);
    assert!(matches!(
        BaoFunc::try_from_c(&not_a_function),
        Err(BaoError::InvalidRetnType { .. })
    ));
}

#[test]
fn typedef_recurses_on_the_canonical_type() {
    let t = CType {
        display: "alias".to_string(),
        kind: CTypeKind::Typedef(Box::new(CType {
            display: "alias2".to_string(),
            kind: CTypeKind::Typedef(Box::new(prim(PrimKind::Int))),
        })),
    };
    assert!(matches!(
        BaoType::try_from_c(&t).unwrap(),
        BaoType::SimpleType(SimpleKind::Int32)
    ));
}

#[test]
fn arrays_keep_their_total_byte_size() {
    let t = CType {
        display: "int [8]".to_string(),
        kind: CTypeKind::ConstantArray(Some(Box::new(prim(PrimKind::Int))), Some(32)),
    };
    match BaoType::try_from_c(&t).unwrap() {
        BaoType::ConstantArray(elem, size) => {
            assert_eq!(size, 32);
            assert!(matches!(*elem, BaoType::SimpleType(SimpleKind::Int32)));
        }
        other => panic!("expected array, got {:?}", other),
    }
    let no_elem = CType {
        display: "broken []".to_string(),
        kind: CTypeKind::ConstantArray(None, Some(32)),
    };
    match BaoType::try_from_c(&no_elem) {
        Err(BaoError::TypeError { message }) => assert_eq!(message, "broken []"),
        other => panic!("expected TypeError, got {:?}", other),
    }
    let no_size = CType {
        display: "int []".to_string(),
        kind: CTypeKind::ConstantArray(Some(Box::new(prim(PrimKind::Int))), None),
    };
    assert!(matches!(
        BaoType::try_from_c(&no_size),
        Err(BaoError::TypeError { .. })
    ));
}

#[test]
fn pointers_recurse_on_the_pointee() {
    let t = CType {
        display: "int *".to_string(),
        kind: CTypeKind::Pointer(Some(Box::new(prim(PrimKind::Int)))),
    };
    match BaoType::try_from_c(&t).unwrap() {
        BaoType::Pointer(inner) => {
            assert!(matches!(*inner, BaoType::SimpleType(SimpleKind::Int32)))
        }
        other => panic!("expected pointer, got {:?}", other),
    }
    let broken = CType {
        display: "? *".to_string(),
        kind: CTypeKind::Pointer(None),
    };
    assert!(matches!(
        BaoType::try_from_c(&broken),
        Err(BaoError::TypeError { .. })
    ));
}

#[test]
fn records_become_name_only_references() {
    let t = CType {
        display: "struct Foo".to_string(),
        kind: CTypeKind::Record(Some("Foo".to_string())),
    };
    match BaoType::try_from_c(&t).unwrap() {
        BaoType::Struct(name) => assert_eq!(name, "Foo"),
        other => panic!("expected struct reference, got {:?}", other),
    }
    let anon = CType {
        display: "struct <anonymous>".to_string(),
        kind: CTypeKind::Record(None),
    };
    match BaoType::try_from_c(&anon) {
        Err(BaoError::InvalidName { ty, name }) => {
            assert_eq!(ty, "type");
            assert_eq!(name, "struct <anonymous>");
        }
        other => panic!("expected InvalidName, got {:?}", other),
    }
}

#[test]
fn unknown_kinds_carry_a_description() {
    let t = CType {
        display: "__weird_builtin".to_string(),
        kind: CTypeKind::Other,
    };
    match BaoType::try_from_c(&t) {
        Err(BaoError::UnknownType { name }) => assert_eq!(name, "__weird_builtin"),
        other => panic!("expected UnknownType, got {:?}", other),
    }
}

#[test]
fn primitive_kinds_map_one_to_one() {
    let cases = [
        (PrimKind::Void, SimpleKind::Void),
        (PrimKind::Bool, SimpleKind::Boolean8),
        (PrimKind::CharU, SimpleKind::UnsignedCharacter),
        (PrimKind::WChar, SimpleKind::WideCharacter),
        (PrimKind::UShort, SimpleKind::UInt16Short),
        (PrimKind::Long, SimpleKind::Int32Long),
        (PrimKind::ULongLong, SimpleKind::UInt64Quad),
        (PrimKind::Int128, SimpleKind::Int128),
        (PrimKind::Float16, SimpleKind::Float16),
        (PrimKind::LongDouble, SimpleKind::Float80),
        (PrimKind::Float128, SimpleKind::Float128),
    ];
    for (src, want) in cases {
        match BaoType::try_from_c(&prim(src)).unwrap() {
            BaoType::SimpleType(k) => assert_eq!(k, want),
            other => panic!("expected a primitive, got {:?}", other),
        }
    }
}

#[test]
fn function_declarations_need_name_and_type() {
    let good = CFuncDecl {
        name: Some("my_func".to_string()),
        location: "input.c:3".to_string(),
        display: "my_func(int)".to_string(),
        ty: Some(proto(
            Some(prim(PrimKind::Void)),
            Some(vec![prim(PrimKind::Int)]),
            Some(SrcCConv::Cdecl),
        )),
    };
    let f = BaoFunc::try_from_entity(&good).unwrap();
    assert_eq!(f.name, "my_func");
    assert_eq!(f.args.len(), 1);
    assert!(matches!(
        f.args[0],
        BaoType::SimpleType(SimpleKind::Int32)
    ));

    let unnamed = CFuncDecl {
        name: None,
        location: "input.c:4".to_string(),
        display: "?".to_string(),
        ty: None,
    };
    match BaoFunc::try_from_entity(&unnamed) {
        Err(BaoError::InvalidFuncName { location }) => assert_eq!(location, "input.c:4"),
        other => panic!("expected InvalidFuncName, got {:?}", other),
    }

    let untyped = CFuncDecl {
        name: Some("g".to_string()),
        location: "input.c:5".to_string(),
        display: "g".to_string(),
        ty: None,
    };
    assert!(matches!(
        BaoFunc::try_from_entity(&untyped),
        Err(BaoError::InvalidFunc { .. })
    ));
}

#[test]
fn nested_argument_failure_propagates() {
    let t = proto(
        Some(prim(PrimKind::Void)),
        Some(vec![
            prim(PrimKind::Int),
            CType {
                display: "mystery".to_string(),
                kind: CTypeKind::Other,
            },
        ]),
        Some(SrcCConv::Cdecl),
    );
    match BaoFunc::try_from_c(&t) {
        Err(BaoError::UnknownType { name }) => assert_eq!(name, "mystery"),
        other => panic!("expected UnknownType, got {:?}", other),
    }
}

#[test]
fn severity_gate_blocks_only_errors_and_fatals() {
    assert!(!has_blocking_diagnostic(&vec![]));
    assert!(!has_blocking_diagnostic(&vec![
        CSeverity::Ignored,
        CSeverity::Note,
        CSeverity::Warning,
    ]));
    assert!(has_blocking_diagnostic(&vec![
        CSeverity::Warning,
        CSeverity::Error,
    ]));
    assert!(has_blocking_diagnostic(&vec![CSeverity::Fatal]));
}
