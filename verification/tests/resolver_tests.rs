use bao::error::BaoError;
use bao::matching::{add_signed, BaoConfiguration, BaoSymbol};

fn sym(name: &str, pattern: &str) -> BaoSymbol {
    BaoSymbol {
        name: name.to_string(),
        pattern: pattern.to_string(),
        start_rva: 0,
        extra: 0,
        offsets: vec![],
        relative: false,
        rip_relative: false,
        rip_offset: 0,
    }
}

#[test]
fn add_signed_handles_both_directions() {
    assert_eq!(add_signed(10, -3), Some(7));
    assert_eq!(add_signed(10, 3), Some(13));
    assert_eq!(add_signed(5, 0), Some(5));
    assert_eq!(add_signed(0, -1), None);
    assert_eq!(add_signed(usize::MAX, 1), None);
    assert_eq!(add_signed(usize::MAX, -1), Some(usize::MAX - 1));
}

#[test]
fn plain_match_returns_the_raw_offset() {
    let s = sym("f", "AB CD");
    let mut data = vec![0u8; 0x40];
    data[0x10] = 0xAB;
    data[0x11] = 0xCD;
    assert_eq!(s.find(&data, 0x1000).unwrap(), (0x10, false));
}

#[test]
fn start_rva_overrides_the_search_entirely() {
    let mut s = sym("f", "GG not even a valid pattern");
    s.start_rva = 0x100;
    let data = vec![0u8; 4];
    assert_eq!(s.find(&data, 0x1000).unwrap(), (0x1100, true));
}

#[test]
fn dereference_chain_follows_little_endian_values() {
    // A match at offset O = 0x10, chain [4, -2]: a 4-byte little-endian
    // 0x1000 at O+4 and a little-endian 0x2000 at 0x1000-2 give 0x2000.
    let mut s = sym("f", "AB CD");
    s.offsets = vec![4, -2];
    let mut data = vec![0u8; 0x1010];
    data[0x10] = 0xAB;
    data[0x11] = 0xCD;
    data[0x14..0x18].copy_from_slice(&0x1000u32.to_le_bytes());
    data[0xFFE..0x1002].copy_from_slice(&0x2000u32.to_le_bytes());
    assert_eq!(s.find(&data, 0).unwrap(), (0x2000, true));
}

#[test]
fn dereference_out_of_range_is_a_bad_pattern() {
    let mut s = sym("f", "AB CD");
    s.offsets = vec![0x100];
    let mut data = vec![0u8; 0x20];
    data[0] = 0xAB;
    data[1] = 0xCD;
    assert!(matches!(
        s.find(&data, 0),
        Err(BaoError::BadPattern { .. })
    ));
}

#[test]
fn rip_relative_adds_displacement_modulo_two_pow_32() {
    // Address A = 8 holds little-endian displacement D = 0x100; the adjusted
    // address is (A + D) mod 2^32, then the configured rip offset is added.
    let mut s = sym("f", "AB CD");
    s.rip_relative = true;
    s.rip_offset = 5;
    let mut data = vec![0u8; 0x20];
    data[8] = 0xAB;
    data[9] = 0xCD;
    // The displacement is read at the match offset itself, so its bytes are
    // the pattern bytes followed by two zeros: D = 0x0000CDAB.
    let expected = (8u32.wrapping_add(0x0000CDAB)) as usize + 5;
    assert_eq!(s.find(&data, 0).unwrap(), (expected, false));
}

#[test]
fn rip_relative_wraps_at_32_bits() {
    let mut s = sym("f", "");
    s.rip_relative = true;
    // The match of the empty pattern is offset 0; the displacement there is
    // 0xFFFFFFFF, so the adjusted address is (0 + 0xFFFFFFFF) mod 2^32.
    let data = vec![0xFFu8; 8];
    assert_eq!(s.find(&data, 0).unwrap(), (0xFFFFFFFF, false));
}

#[test]
fn relative_subtracts_the_image_base() {
    let mut s = sym("f", "AB CD");
    s.start_rva = 0;
    s.relative = true;
    s.offsets = vec![0];
    let mut data = vec![0u8; 0x20];
    data[4] = 0xAB;
    data[5] = 0xCD;
    // Dereference at the match offset itself: the bytes AB CD 00 00 read as
    // little-endian 0x0000CDAB.
    assert_eq!(s.find(&data, 0xAB).unwrap(), (0xCDAB - 0xAB, true));
}

#[test]
fn relative_below_the_base_is_a_bad_pattern() {
    let mut s = sym("f", "AB");
    s.relative = true;
    let mut data = vec![0u8; 8];
    data[2] = 0xAB;
    assert!(matches!(
        s.find(&data, 0x1000),
        Err(BaoError::BadPattern { .. })
    ));
}

#[test]
fn missing_pattern_names_the_symbol() {
    let s = sym("my_function", "DE AD");
    let data = vec![0u8; 16];
    match s.find(&data, 0) {
        Err(BaoError::PatternNotFound { name }) => assert_eq!(name, "my_function"),
        other => panic!("expected PatternNotFound, got {:?}", other),
    }
}

#[test]
fn malformed_pattern_fails_before_searching() {
    let s = sym("f", "ZZ");
    let data = vec![0u8; 16];
    match s.find(&data, 0) {
        Err(BaoError::BadPattern { pattern }) => assert_eq!(pattern, "ZZ"),
        other => panic!("expected BadPattern, got {:?}", other),
    }
}

#[test]
fn extra_adjustment_shifts_the_result() {
    let mut s = sym("f", "AB CD");
    s.extra = -3;
    let mut data = vec![0u8; 0x20];
    data[0x10] = 0xAB;
    data[0x11] = 0xCD;
    assert_eq!(s.find(&data, 0).unwrap(), (0x10 - 3, false));
}

#[test]
fn start_rva_overflow_is_a_bad_pattern() {
    let mut s = sym("f", "");
    s.start_rva = usize::MAX;
    let data = vec![0u8; 4];
    assert!(matches!(
        s.find(&data, 2),
        Err(BaoError::BadPattern { .. })
    ));
}

#[test]
fn extra_underflow_is_a_bad_pattern() {
    let mut s = sym("f", "AB");
    s.extra = isize::MIN;
    let mut data = vec![0u8; 8];
    data[1] = 0xAB;
    assert!(matches!(
        s.find(&data, 0),
        Err(BaoError::BadPattern { .. })
    ));
}

#[test]
fn rip_read_past_the_buffer_is_a_bad_pattern() {
    let mut s = sym("f", "AB CD");
    s.rip_relative = true;
    let mut data = vec![0u8; 8];
    // The match sits so close to the end that no 4-byte displacement fits.
    data[6] = 0xAB;
    data[7] = 0xCD;
    assert!(matches!(
        s.find(&data, 0),
        Err(BaoError::BadPattern { .. })
    ));
}

#[test]
fn default_configuration_is_empty() {
    let c = BaoConfiguration::default();
    assert!(c.functions.is_empty());
    assert!(c.globals.is_empty());
}
