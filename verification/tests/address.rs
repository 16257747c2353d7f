use shinobi::address::metadata_address;
use shinobi::model::Address;
use solana_sdk::pubkey::Pubkey;
use std::str::FromStr;

const METADATA_PROGRAM: &str = "metaqbxxUerdq28cj1RbAWkYQm3ybzjb6a8bt518x1s";
const METADATA_PROGRAM_BYTES: [u8; 32] = [
    11, 112, 101, 177, 227, 209, 124, 69, 56, 157, 82, 127, 107, 4, 195, 205, 88, 184, 108, 115,
    26, 160, 253, 181, 73, 182, 209, 188, 3, 248, 41, 70,
];

#[test]
fn parses_the_base58_form_of_an_address() {
    let program = Address::parse(METADATA_PROGRAM).expect("an address");
    assert_eq!(program.bytes, METADATA_PROGRAM_BYTES);
    let zero = Address::parse("11111111111111111111111111111111").expect("an address");
    assert_eq!(zero.bytes, [0; 32]);
}

#[test]
fn writes_an_address_in_base58() {
    assert_eq!(Address { bytes: METADATA_PROGRAM_BYTES }.to_base58(), METADATA_PROGRAM);
    assert_eq!(Address { bytes: [0; 32] }.to_base58(), "11111111111111111111111111111111");
}

#[test]
fn characters_outside_base58_are_no_address() {
    // 0, O, I and l are not in the alphabet
    assert!(Address::parse("0etaqbxxUerdq28cj1RbAWkYQm3ybzjb6a8bt518x1s").is_err());
    assert!(Address::parse("OetaqbxxUerdq28cj1RbAWkYQm3ybzjb6a8bt518x1s").is_err());
    assert!(Address::parse("IetaqbxxUerdq28cj1RbAWkYQm3ybzjb6a8bt518x1s").is_err());
    assert!(Address::parse("letaqbxxUerdq28cj1RbAWkYQm3ybzjb6a8bt518x1s").is_err());
    assert!(Address::parse("meta-bxxUerdq28cj1RbAWkYQm3ybzjb6a8bt518x1s").is_err());
    assert!(Address::parse("not an address").is_err());
}

#[test]
fn text_of_the_wrong_length_is_no_address() {
    assert!(Address::parse("").is_err());
    assert!(Address::parse("abc").is_err());
    assert!(Address::parse(&"1".repeat(45)).is_err());
    assert!(Address::parse(&"z".repeat(44)).is_err());
}

#[test]
fn bytes_of_an_address_come_out_in_order() {
    let mut bytes = [0u8; 32];
    for (i, b) in bytes.iter_mut().enumerate() {
        *b = i as u8;
    }
    assert_eq!(Address { bytes }.to_vec(), bytes.to_vec());
}

#[test]
fn metadata_address_is_derived_from_the_word_the_program_and_the_mint() {
    let program = Pubkey::from_str(METADATA_PROGRAM).expect("an address");
    for seed in [0u8, 1, 42, 200, 255] {
        let mint = Pubkey::new_from_array([seed; 32]);
        let (expected, _bump) = Pubkey::find_program_address(
            &[b"metadata", program.as_ref(), mint.as_ref()],
            &program,
        );
        let derived = metadata_address(&Address { bytes: [seed; 32] }).expect("derives");
        assert_eq!(derived.bytes, expected.to_bytes());
        assert_ne!(derived.bytes, [seed; 32]);
    }
}

#[test]
fn error_says_why_a_text_is_no_address() {
    assert_eq!(Address::parse("not an address").err(), Some("Invalid Base58 string".to_string()));
    assert_eq!(Address::parse("abc").err(), Some("String is the wrong size".to_string()));
    assert_eq!(Address::parse(&"1".repeat(45)).err(), Some("String is the wrong size".to_string()));
}
