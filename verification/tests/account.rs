use shinobi::account::{decode_metadata, Fault};
use shinobi::model::{CollectionDetails, ProgrammableConfig};

type Creators = Option<Vec<([u8; 32], bool, u8)>>;

struct Sample {
    key: u8,
    update_authority: [u8; 32],
    mint: [u8; 32],
    name: String,
    symbol: String,
    uri: String,
    fee: u16,
    creators: Creators,
    primary_sale_happened: bool,
    is_mutable: bool,
    edition_nonce: Option<u8>,
    token_standard: Option<u8>,
    collection: Option<(bool, [u8; 32])>,
    uses: Option<(u8, u64, u64)>,
    collection_details: Option<(u8, u64)>,
    programmable_config: Option<(u8, Option<[u8; 32]>)>,
}

fn sample() -> Sample {
    Sample {
        key: 4,
        update_authority: [7; 32],
        mint: [9; 32],
        name: "Shadow Fox #12\0\0".to_string(),
        symbol: "FOX\0".to_string(),
        uri: "ipfs://bafy\0\0\0".to_string(),
        fee: 550,
        creators: Some(vec![([1; 32], true, 60), ([2; 32], false, 40)]),
        primary_sale_happened: true,
        is_mutable: false,
        edition_nonce: Some(254),
        token_standard: Some(4),
        collection: Some((true, [3; 32])),
        uses: Some((1, 5, 0x0102_0304_0506_0708)),
        collection_details: Some((0, 10_000)),
        programmable_config: Some((0, Some([5; 32]))),
    }
}

fn encode(s: &Sample) -> Vec<u8> {
    borsh::to_vec(&(
        s.key,
        s.update_authority,
        s.mint,
        s.name.clone(),
        s.symbol.clone(),
        s.uri.clone(),
        s.fee,
        s.creators.clone(),
        s.primary_sale_happened,
        s.is_mutable,
        s.edition_nonce,
        s.token_standard,
        s.collection,
        s.uses,
        s.collection_details,
        s.programmable_config,
    ))
    .expect("encodes")
}

#[test]
fn decodes_every_field_of_an_account() {
    let s = sample();
    let m = decode_metadata(&encode(&s)).expect("decodes");
    assert_eq!(m.key, 4);
    assert_eq!(m.update_authority.bytes, [7; 32]);
    assert_eq!(m.mint.bytes, [9; 32]);
    assert_eq!(m.data.name, "Shadow Fox #12\0\0");
    assert_eq!(m.data.symbol, "FOX\0");
    assert_eq!(m.data.uri, "ipfs://bafy\0\0\0");
    assert_eq!(m.data.seller_fee_basis_points, 550);
    let creators = m.data.creators.expect("creators");
    assert_eq!(creators.len(), 2);
    assert_eq!(creators[0].address.bytes, [1; 32]);
    assert!(creators[0].verified);
    assert_eq!(creators[0].share, 60);
    assert_eq!(creators[1].address.bytes, [2; 32]);
    assert!(!creators[1].verified);
    assert_eq!(creators[1].share, 40);
    assert!(m.primary_sale_happened);
    assert!(!m.is_mutable);
    assert_eq!(m.edition_nonce, Some(254));
    assert_eq!(m.token_standard, Some(4));
    let collection = m.collection.expect("collection");
    assert!(collection.verified);
    assert_eq!(collection.key.bytes, [3; 32]);
    let uses = m.uses.expect("uses");
    assert_eq!((uses.use_method, uses.remaining, uses.total), (1, 5, 0x0102_0304_0506_0708));
    match m.collection_details.expect("details") {
        CollectionDetails::V1 { size } => assert_eq!(size, 10_000),
    }
    match m.programmable_config.expect("config") {
        ProgrammableConfig::V1 { rule_set } => assert_eq!(rule_set.expect("rules").bytes, [5; 32]),
    }
}

#[test]
fn decodes_an_account_without_optional_parts() {
    let mut s = sample();
    s.creators = None;
    s.edition_nonce = None;
    s.token_standard = None;
    s.collection = None;
    s.uses = None;
    s.collection_details = None;
    s.programmable_config = None;
    s.is_mutable = true;
    let m = decode_metadata(&encode(&s)).expect("decodes");
    assert!(m.data.creators.is_none());
    assert!(m.edition_nonce.is_none());
    assert!(m.token_standard.is_none());
    assert!(m.collection.is_none());
    assert!(m.uses.is_none());
    assert!(m.collection_details.is_none());
    assert!(m.programmable_config.is_none());
    assert!(m.is_mutable);
}

#[test]
fn decodes_an_account_with_no_creators_in_its_list_and_no_rule_set() {
    let mut s = sample();
    s.creators = Some(Vec::new());
    s.programmable_config = Some((0, None));
    let m = decode_metadata(&encode(&s)).expect("decodes");
    assert_eq!(m.data.creators.expect("list").len(), 0);
    match m.programmable_config.expect("config") {
        ProgrammableConfig::V1 { rule_set } => assert!(rule_set.is_none()),
    }
}

#[test]
fn bytes_after_the_last_field_are_padding() {
    let s = sample();
    let mut bytes = encode(&s);
    bytes.resize(679, 0);
    let m = decode_metadata(&bytes).expect("decodes");
    assert_eq!(m.data.uri, "ipfs://bafy\0\0\0");
}

#[test]
fn old_account_padded_with_zeros_has_no_optional_parts() {
    // an account written before the later fields existed: zeros follow the flags
    let mut bytes = borsh::to_vec(&(
        4u8,
        [1u8; 32],
        [2u8; 32],
        "Old".to_string(),
        "O".to_string(),
        "".to_string(),
        0u16,
        None::<Vec<([u8; 32], bool, u8)>>,
        false,
        true,
    ))
    .expect("encodes");
    bytes.resize(200, 0);
    let m = decode_metadata(&bytes).expect("decodes");
    assert_eq!(m.data.name, "Old");
    assert!(m.is_mutable);
    assert!(m.edition_nonce.is_none() && m.collection.is_none() && m.uses.is_none());
    assert!(m.collection_details.is_none() && m.programmable_config.is_none());
}

#[test]
fn every_truncation_of_an_account_fails_to_decode() {
    let bytes = encode(&sample());
    for len in 0..bytes.len() {
        assert_eq!(decode_metadata(&bytes[..len]).err(), Some(Fault::End), "length {len}");
    }
    assert!(decode_metadata(&bytes).is_ok());
}

#[test]
fn flag_other_than_zero_or_one_fails_to_decode() {
    let s = sample();
    let bytes = encode(&s);
    // the flags follow the descriptive part; find the first by encoding the head alone
    let head = borsh::to_vec(&(
        s.key,
        s.update_authority,
        s.mint,
        s.name.clone(),
        s.symbol.clone(),
        s.uri.clone(),
        s.fee,
        s.creators.clone(),
    ))
    .expect("encodes");
    let mut bad = bytes.clone();
    bad[head.len()] = 2;
    assert_eq!(decode_metadata(&bad).err(), Some(Fault::Flag));
    let mut bad_tag = bytes.clone();
    // the tag of the edition nonce stands after the two flags
    bad_tag[head.len() + 2] = 7;
    assert_eq!(decode_metadata(&bad_tag).err(), Some(Fault::Tag));
}

#[test]
fn unknown_variant_fails_to_decode() {
    let mut s = sample();
    s.collection_details = Some((1, 5));
    assert_eq!(decode_metadata(&encode(&s)).err(), Some(Fault::Variant));
    let mut t = sample();
    t.programmable_config = Some((3, None));
    assert_eq!(decode_metadata(&encode(&t)).err(), Some(Fault::Variant));
}

#[test]
fn text_that_is_not_utf8_fails_to_decode() {
    let s = sample();
    let mut bytes = encode(&s);
    // the name follows the key, the two addresses and its own length
    bytes[1 + 32 + 32 + 4] = 0xff;
    assert_eq!(decode_metadata(&bytes).err(), Some(Fault::Text));
}

#[test]
fn text_longer_than_the_bytes_fails_to_decode() {
    let mut bytes = vec![4u8];
    bytes.extend_from_slice(&[0; 64]);
    bytes.extend_from_slice(&u32::MAX.to_le_bytes());
    bytes.extend_from_slice(&[b'a'; 100]);
    assert_eq!(decode_metadata(&bytes).err(), Some(Fault::End));
}

#[test]
fn integers_are_read_low_byte_first() {
    let mut s = sample();
    s.fee = 0x1234;
    s.uses = Some((0, 0xffff_ffff_ffff_ffff, 1));
    let m = decode_metadata(&encode(&s)).expect("decodes");
    assert_eq!(m.data.seller_fee_basis_points, 0x1234);
    let uses = m.uses.expect("uses");
    assert_eq!(uses.remaining, u64::MAX);
    assert_eq!(uses.total, 1);
}

#[test]
fn text_of_several_bytes_per_character_decodes() {
    let mut s = sample();
    s.name = "狐 шиноби 🦊".to_string();
    let m = decode_metadata(&encode(&s)).expect("decodes");
    assert_eq!(m.data.name, "狐 шиноби 🦊");
}

#[test]
fn decoded_account_can_be_copied() {
    let m = decode_metadata(&encode(&sample())).expect("decodes");
    let copy = m.clone();
    assert_eq!(copy.data.name, m.data.name);
    assert_eq!(copy.data.clone().uri, m.data.uri);
    assert_eq!(copy.update_authority.bytes, m.update_authority.bytes);
    assert_eq!(copy.is_mutable, m.is_mutable);
}

#[test]
fn first_field_that_cannot_be_read_names_the_fault() {
    let mut bytes = encode(&sample());
    // spoil the name and cut the bytes short: the name comes first
    bytes[1 + 32 + 32 + 4] = 0xff;
    bytes.truncate(bytes.len() - 1);
    assert_eq!(decode_metadata(&bytes).err(), Some(Fault::Text));
}

#[test]
fn faults_say_what_went_wrong() {
    assert_eq!(Fault::End.message(), "Unexpected length of input");
    assert_eq!(Fault::Flag.message(), "Invalid bool representation");
    assert_eq!(Fault::Tag.message(), "Invalid Option representation");
    assert_eq!(Fault::Variant.message(), "Unexpected variant index");
    assert_eq!(Fault::Text.message(), "Invalid UTF-8 in text");
}
