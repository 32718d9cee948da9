use sale_actions::hex::{hex_of_bytes, nibble_char, to_hex};

#[test]
fn test_to_hex_small_number() {
    let num = starknet::core::types::FieldElement::from(255u64);
    assert_eq!(to_hex(num), "0xff");
}

#[test]
fn test_to_hex_large_number() {
    let num = starknet::core::types::FieldElement::from(1234567890u64);
    assert_eq!(to_hex(num), "0x499602d2");
}

#[test]
fn test_single_digit() {
    let num = starknet::core::types::FieldElement::from(10u64);
    assert_eq!(to_hex(num), "0x0a");
}

#[test]
fn test_boundary_values() {
    let cases = [
        (u64::MAX, "0xffffffffffffffff"),
        (u64::MIN, "0x0"),
        (u32::MAX as u64, "0xffffffff"),
    ];

    for (input, expected) in cases {
        let num = starknet::core::types::FieldElement::from(input);
        assert_eq!(to_hex(num), expected);
    }
}

#[test]
fn test_to_hex_max() {
    let max = starknet::core::types::FieldElement::MAX;
    assert_eq!(to_hex(max).len(), 66);
    assert!(to_hex(max).starts_with("0x"));
}

#[test]
fn to_hex_reads_the_value_and_not_its_inner_form() {
    let one = starknet::core::types::FieldElement::from(1u64);
    assert_eq!(to_hex(one), "0x01");
    let max = starknet::core::types::FieldElement::MAX;
    assert_eq!(
        to_hex(max),
        "0x0800000000000011000000000000000000000000000000000000000000000000"
    );
}

#[test]
fn hex_of_bytes_writes_zero_as_one_digit() {
    assert_eq!(hex_of_bytes(&[]), "0x0");
    assert_eq!(hex_of_bytes(&[0]), "0x0");
    assert_eq!(hex_of_bytes(&[0, 0, 0]), "0x0");
}

#[test]
fn hex_of_bytes_drops_leading_zero_bytes_only() {
    assert_eq!(hex_of_bytes(&[0, 1]), "0x01");
    assert_eq!(hex_of_bytes(&[0, 0, 0x12, 0x00]), "0x1200");
    assert_eq!(hex_of_bytes(&[0x10, 0x00, 0x0f]), "0x10000f");
    assert_eq!(hex_of_bytes(&[0xab, 0xcd, 0xef]), "0xabcdef");
}

#[test]
fn hex_of_bytes_keeps_two_digits_for_every_byte() {
    let bytes = [0xffu8; 32];
    let text = hex_of_bytes(&bytes);
    assert_eq!(text.len(), 66);
    assert_eq!(&text[..2], "0x");
    assert!(text[2..].chars().all(|c| c == 'f'));
}

#[test]
fn nibble_char_covers_all_sixteen_digits() {
    let digits: Vec<char> = (0u8..16).map(nibble_char).collect();
    let text: String = digits.into_iter().collect();
    assert_eq!(text, "0123456789abcdef");
}
