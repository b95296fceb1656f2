use bao::ctypes::{CField, CStructDecl, CType, CTypeKind, PrimKind};
use bao::error::BaoError;
use bao::matching::BaoSymbol;
use bao::parsing::BaoStruct;
use bao::pe::{BaoPE, BaoSection};

fn sym(name: &str, pattern: &str) -> BaoSymbol {
    BaoSymbol {
        name: name.to_string(),
        pattern: pattern.to_string(),
        start_rva: 0,
        extra: 0,
        offsets: vec![],
        relative: false,
        rip_relative: false,
        rip_offset: 0,
    }
}

fn image() -> (BaoPE, Vec<u8>) {
    let pe = BaoPE {
        image_base: 0x400000,
        is_64: false,
        sections: vec![BaoSection {
            virtual_address: 0x1000,
            virtual_size: 0x100,
            pointer_to_raw_data: 0,
            size_of_raw_data: 0x100,
        }],
    };
    let mut data = vec![0u8; 0x100];
    data[0x20] = 0xAA;
    data[0x21] = 0xBB;
    data[0x40] = 0xCC;
    data[0x41] = 0xDD;
    (pe, data)
}

#[test]
fn absent_pattern_warns_once_and_the_rest_resolve() {
    let (pe, data) = image();
    let symbols = vec![
        sym("first", "AA BB"),
        sym("missing", "FE ED FA CE"),
        sym("second", "CC DD"),
    ];
    let mut warnings = Vec::new();
    let results = pe.find_symbols(symbols, &data, &mut warnings);

    assert_eq!(warnings.len(), 1);
    match &warnings[0] {
        BaoError::PatternNotFound { name } => assert_eq!(name, "missing"),
        other => panic!("expected PatternNotFound, got {:?}", other),
    }

    assert_eq!(results.len(), 2);
    assert_eq!(results[0].name, "first");
    assert_eq!(results[0].offset, 0x20);
    assert_eq!(results[0].index, 1);
    assert_eq!(results[1].name, "second");
    assert_eq!(results[1].offset, 0x40);
    assert_eq!(results[1].index, 1);

    // Struct layouts are built independently of the symbol search and still
    // succeed.
    let decl = CStructDecl {
        display: "Pair".to_string(),
        has_type: true,
        name: Some("Pair".to_string()),
        fields: Some(vec![
            CField {
                display: "x".to_string(),
                name: Some("x".to_string()),
                ty: Some(CType {
                    display: "int".to_string(),
                    kind: CTypeKind::Primitive(PrimKind::Int),
                }),
                bit_offset: Some(0),
            },
            CField {
                display: "y".to_string(),
                name: Some("y".to_string()),
                ty: Some(CType {
                    display: "int".to_string(),
                    kind: CTypeKind::Primitive(PrimKind::Int),
                }),
                bit_offset: Some(32),
            },
        ]),
        size: Some(8),
    };
    let layout = BaoStruct::try_from_decl(&decl).unwrap();
    assert_eq!(layout.name, "Pair");
    assert_eq!(layout.fields.len(), 2);
}

#[test]
fn bad_pattern_warns_and_processing_continues() {
    let (pe, data) = image();
    let symbols = vec![sym("broken", "XY"), sym("good", "AA BB")];
    let mut warnings = Vec::new();
    let results = pe.find_symbols(symbols, &data, &mut warnings);
    assert_eq!(warnings.len(), 1);
    match &warnings[0] {
        BaoError::BadPattern { pattern } => assert_eq!(pattern, "XY"),
        other => panic!("expected BadPattern, got {:?}", other),
    }
    assert_eq!(results.len(), 1);
    assert_eq!(results[0].name, "good");
}

#[test]
fn unmapped_address_warns_with_name_and_pattern() {
    let pe = BaoPE {
        image_base: 0x400000,
        is_64: false,
        sections: vec![BaoSection {
            virtual_address: 0x1000,
            virtual_size: 0x100,
            pointer_to_raw_data: 0x80,
            size_of_raw_data: 0x40,
        }],
    };
    let mut data = vec![0u8; 0x100];
    data[0x10] = 0xAA;
    data[0x11] = 0xBB;
    // The raw match offset 0x10 lies below the single raw range [0x80, 0xC0).
    let symbols = vec![sym("lost", "AA BB")];
    let mut warnings = Vec::new();
    let results = pe.find_symbols(symbols, &data, &mut warnings);
    assert!(results.is_empty());
    assert_eq!(warnings.len(), 1);
    match &warnings[0] {
        BaoError::BadPattern { pattern } => assert_eq!(
            pattern,
            "lost (AA BB) could not be translated. Please check relative and rip_relative!"
        ),
        other => panic!("expected BadPattern, got {:?}", other),
    }
}

#[test]
fn existing_warnings_are_kept_and_new_ones_appended() {
    let (pe, data) = image();
    let mut warnings = vec![BaoError::InvalidStruct];
    let results = pe.find_symbols(vec![sym("missing", "12 34 56")], &data, &mut warnings);
    assert!(results.is_empty());
    assert_eq!(warnings.len(), 2);
    assert!(matches!(warnings[0], BaoError::InvalidStruct));
    assert!(matches!(warnings[1], BaoError::PatternNotFound { .. }));
}

#[test]
fn start_rva_symbols_map_through_the_virtual_table() {
    let pe = BaoPE {
        image_base: 0x400000,
        is_64: false,
        sections: vec![BaoSection {
            virtual_address: 0x1000,
            virtual_size: 0x1000,
            pointer_to_raw_data: 0,
            size_of_raw_data: 0,
        }],
    };
    let data = vec![0u8; 0x10];
    let mut s = sym("fixed", "");
    // The resolver adds the image base to the override, so the mapper sees
    // base + rva: 0x401004, which falls outside the virtual table.
    s.start_rva = 0x1004;
    let mut warnings = Vec::new();
    let results = pe.find_symbols(vec![s], &data, &mut warnings);
    assert!(results.is_empty());
    assert_eq!(warnings.len(), 1);

    // A base of zero leaves the override itself, which maps.
    let pe0 = BaoPE {
        image_base: 0,
        is_64: false,
        sections: pe.sections.clone(),
    };
    let mut s = sym("fixed", "");
    s.start_rva = 0x1004;
    let mut warnings = Vec::new();
    let results = pe0.find_symbols(vec![s], &data, &mut warnings);
    assert!(warnings.is_empty());
    assert_eq!(results.len(), 1);
    assert_eq!(results[0].offset, 4);
    assert_eq!(results[0].index, 1);
}
