//! The layout of a metadata account: its fields in a fixed order, integers
//! little-endian, text and lists behind a four-byte length, optional parts
//! behind a one-byte tag. Bytes after the last field are padding.

use vstd::prelude::*;
use vstd::slice::slice_subrange;
use vstd::utf8::{decode_utf8, valid_utf8};
use crate::model::{
    Address, Collection, CollectionDetails, CollectionView, Creator, CreatorView, Data, DataView,
    Metadata, MetadataView, ProgrammableConfig, ProgrammableConfigView, Uses,
};

verus! {

/// Number of bytes in an address.
pub const ADDRESS_LEN: usize = 32;

/// Why bytes are no metadata account.
#[derive(Debug, Clone, Copy, PartialEq, Eq, Structural)]
pub enum Fault {
    /// The bytes end before a field does.
    End,
    /// A flag is neither 0 nor 1.
    Flag,
    /// The tag of an optional part is neither 0 nor 1.
    Tag,
    /// A variant is not known.
    Variant,
    /// A text is not UTF-8.
    Text,
}

/// What is said of a fault.
pub open spec fn fault_text(fault: Fault) -> Seq<char> {
    match fault {
        Fault::End => "Unexpected length of input"@,
        Fault::Flag => "Invalid bool representation"@,
        Fault::Tag => "Invalid Option representation"@,
        Fault::Variant => "Unexpected variant index"@,
        Fault::Text => "Invalid UTF-8 in text"@,
    }
}

impl Fault {
    /// What is said of this fault.
    pub fn message(&self) -> (text: &'static str)
        ensures
            text@ == fault_text(*self),
    {
        match self {
            Fault::End => "Unexpected length of input",
            Fault::Flag => "Invalid bool representation",
            Fault::Tag => "Invalid Option representation",
            Fault::Variant => "Unexpected variant index",
            Fault::Text => "Invalid UTF-8 in text",
        }
    }
}

/// What was taken is `value`, and `next` is the position after it.
pub open spec fn read_as<T>(taken: Result<(T, int), Fault>, value: T, next: int) -> bool {
    taken == Ok::<(T, int), Fault>((value, next))
}

/// Nothing could be taken, for `fault`.
pub open spec fn fails_as<T>(taken: Result<(T, int), Fault>, fault: Fault) -> bool {
    taken == Err::<(T, int), Fault>(fault)
}

/// The byte at `at`, and the position after it.
pub open spec fn take_u8(bytes: Seq<u8>, at: int) -> Result<(u8, int), Fault> {
    if 0 <= at < bytes.len() {
        Ok((bytes[at], at + 1))
    } else {
        Err(Fault::End)
    }
}

/// A flag: one byte, 0 for false and 1 for true.
pub open spec fn take_bool(bytes: Seq<u8>, at: int) -> Result<(bool, int), Fault> {
    match take_u8(bytes, at) {
        Ok((byte, next)) => if byte == 0 {
            Ok((false, next))
        } else if byte == 1 {
            Ok((true, next))
        } else {
            Err(Fault::Flag)
        },
        Err(fault) => Err(fault),
    }
}

/// A 16-bit integer, low byte first.
pub open spec fn take_u16(bytes: Seq<u8>, at: int) -> Result<(u16, int), Fault> {
    if 0 <= at && at + 2 <= bytes.len() {
        Ok(((bytes[at] + 0x100 * bytes[at + 1]) as u16, at + 2))
    } else {
        Err(Fault::End)
    }
}

/// A 32-bit integer, low byte first.
pub open spec fn take_u32(bytes: Seq<u8>, at: int) -> Result<(u32, int), Fault> {
    if 0 <= at && at + 4 <= bytes.len() {
        Ok((
                (bytes[at] + 0x100 * bytes[at + 1] + 0x1_0000 * bytes[at + 2] + 0x100_0000 * bytes[at
                    + 3]) as u32,
                at + 4,
            ),
        )
    } else {
        Err(Fault::End)
    }
}

/// A 64-bit integer, low byte first.
pub open spec fn take_u64(bytes: Seq<u8>, at: int) -> Result<(u64, int), Fault> {
    if 0 <= at && at + 8 <= bytes.len() {
        Ok((
                (bytes[at] + 0x100 * bytes[at + 1] + 0x1_0000 * bytes[at + 2] + 0x100_0000 * bytes[at
                    + 3] + 0x1_0000_0000 * bytes[at + 4] + 0x100_0000_0000 * bytes[at + 5]
                    + 0x1_0000_0000_0000 * bytes[at + 6] + 0x100_0000_0000_0000 * bytes[at
                    + 7]) as u64,
                at + 8,
            ),
        )
    } else {
        Err(Fault::End)
    }
}

/// An address: 32 bytes as they stand.
pub open spec fn take_address(bytes: Seq<u8>, at: int) -> Result<(Seq<u8>, int), Fault> {
    if 0 <= at && at + ADDRESS_LEN <= bytes.len() {
        Ok((bytes.subrange(at, at + ADDRESS_LEN), at + ADDRESS_LEN))
    } else {
        Err(Fault::End)
    }
}

/// A text: its length in bytes as a 32-bit integer, then that many bytes
/// of UTF-8.
pub open spec fn take_text(bytes: Seq<u8>, at: int) -> Result<(Seq<char>, int), Fault> {
    match take_u32(bytes, at) {
        Ok((len, start)) => if start + len > bytes.len() {
            Err(Fault::End)
        } else if !valid_utf8(bytes.subrange(start, start + len)) {
            Err(Fault::Text)
        } else {
            Ok((decode_utf8(bytes.subrange(start, start + len)), start + len))
        },
        Err(fault) => Err(fault),
    }
}

/// The tag of an optional part: 0 where it is absent, 1 where it follows.
pub open spec fn take_tag(bytes: Seq<u8>, at: int) -> Result<(bool, int), Fault> {
    match take_u8(bytes, at) {
        Ok((byte, next)) => if byte == 0 {
            Ok((false, next))
        } else if byte == 1 {
            Ok((true, next))
        } else {
            Err(Fault::Tag)
        },
        Err(fault) => Err(fault),
    }
}

/// One creator: address, verified flag, share.
pub open spec fn take_creator(bytes: Seq<u8>, at: int) -> Result<(CreatorView, int), Fault> {
    match take_address(bytes, at) {
        Ok((address, a)) => match take_bool(bytes, a) {
            Ok((verified, b)) => match take_u8(bytes, b) {
                Ok((share, c)) => Ok((CreatorView { address, verified, share }, c)),
                Err(fault) => Err(fault),
            },
            Err(fault) => Err(fault),
        },
        Err(fault) => Err(fault),
    }
}

/// `count` creators, one after the other.
pub open spec fn take_creators(bytes: Seq<u8>, at: int, count: nat) -> Result<(Seq<CreatorView>, int), Fault>
    decreases count,
{
    if count == 0 {
        Ok((Seq::empty(), at))
    } else {
        match take_creators(bytes, at, (count - 1) as nat) {
            Ok((creators, next)) => match take_creator(bytes, next) {
                Ok((creator, end)) => Ok((creators.push(creator), end)),
                Err(fault) => Err(fault),
            },
            Err(fault) => Err(fault),
        }
    }
}

/// An optional list of creators: a tag, then the number of creators as a
/// 32-bit integer and the creators.
pub open spec fn take_creator_list(bytes: Seq<u8>, at: int) -> Result<(Option<Seq<CreatorView>>, int), Fault> {
    match take_tag(bytes, at) {
        Ok((present, a)) => if present {
            match take_u32(bytes, a) {
                Ok((count, b)) => match take_creators(bytes, b, count as nat) {
                    Ok((creators, c)) => Ok((Some(creators), c)),
                    Err(fault) => Err(fault),
                },
                Err(fault) => Err(fault),
            }
        } else {
            Ok((None, a))
        },
        Err(fault) => Err(fault),
    }
}

/// The descriptive part: name, symbol, URI, seller fee, creators.
pub open spec fn take_data(bytes: Seq<u8>, at: int) -> Result<(DataView, int), Fault> {
    match take_text(bytes, at) {
        Ok((name, a)) => match take_text(bytes, a) {
            Ok((symbol, b)) => match take_text(bytes, b) {
                Ok((uri, c)) => match take_u16(bytes, c) {
                    Ok((seller_fee_basis_points, d)) => match take_creator_list(bytes, d) {
                        Ok((creators, e)) => Ok((DataView { name, symbol, uri, seller_fee_basis_points, creators }, e),
                        ),
                        Err(fault) => Err(fault),
                    },
                    Err(fault) => Err(fault),
                },
                Err(fault) => Err(fault),
            },
            Err(fault) => Err(fault),
        },
        Err(fault) => Err(fault),
    }
}

/// An optional byte.
pub open spec fn take_optional_u8(bytes: Seq<u8>, at: int) -> Result<(Option<u8>, int), Fault> {
    match take_tag(bytes, at) {
        Ok((present, a)) => if present {
            match take_u8(bytes, a) {
                Ok((value, b)) => Ok((Some(value), b)),
                Err(fault) => Err(fault),
            }
        } else {
            Ok((None, a))
        },
        Err(fault) => Err(fault),
    }
}

/// An optional address.
pub open spec fn take_optional_address(bytes: Seq<u8>, at: int) -> Result<(Option<Seq<u8>>, int), Fault> {
    match take_tag(bytes, at) {
        Ok((present, a)) => if present {
            match take_address(bytes, a) {
                Ok((value, b)) => Ok((Some(value), b)),
                Err(fault) => Err(fault),
            }
        } else {
            Ok((None, a))
        },
        Err(fault) => Err(fault),
    }
}

/// An optional collection: verified flag, then the collection's address.
pub open spec fn take_collection(bytes: Seq<u8>, at: int) -> Result<(Option<CollectionView>, int), Fault> {
    match take_tag(bytes, at) {
        Ok((present, a)) => if present {
            match take_bool(bytes, a) {
                Ok((verified, b)) => match take_address(bytes, b) {
                    Ok((key, c)) => Ok((Some(CollectionView { verified, key }), c)),
                    Err(fault) => Err(fault),
                },
                Err(fault) => Err(fault),
            }
        } else {
            Ok((None, a))
        },
        Err(fault) => Err(fault),
    }
}

/// Optional uses: method, remaining, total.
pub open spec fn take_uses(bytes: Seq<u8>, at: int) -> Result<(Option<Uses>, int), Fault> {
    match take_tag(bytes, at) {
        Ok((present, a)) => if present {
            match take_u8(bytes, a) {
                Ok((use_method, b)) => match take_u64(bytes, b) {
                    Ok((remaining, c)) => match take_u64(bytes, c) {
                        Ok((total, d)) => Ok((Some(Uses { use_method, remaining, total }), d)),
                        Err(fault) => Err(fault),
                    },
                    Err(fault) => Err(fault),
                },
                Err(fault) => Err(fault),
            }
        } else {
            Ok((None, a))
        },
        Err(fault) => Err(fault),
    }
}

/// Optional collection details: the variant, which is 0, then the size.
pub open spec fn take_collection_details(bytes: Seq<u8>, at: int) -> Result<(Option<CollectionDetails>, int), Fault> {
    match take_tag(bytes, at) {
        Ok((present, a)) => if present {
            match take_u8(bytes, a) {
                Ok((variant, b)) => if variant == 0 {
                    match take_u64(bytes, b) {
                        Ok((size, c)) => Ok((Some(CollectionDetails::V1 { size }), c)),
                        Err(fault) => Err(fault),
                    }
                } else {
                    Err(Fault::Variant)
                },
                Err(fault) => Err(fault),
            }
        } else {
            Ok((None, a))
        },
        Err(fault) => Err(fault),
    }
}

/// An optional programmable configuration: the variant, which is 0, then
/// an optional rule set.
pub open spec fn take_programmable_config(bytes: Seq<u8>, at: int) -> Result<(Option<ProgrammableConfigView>, int), Fault> {
    match take_tag(bytes, at) {
        Ok((present, a)) => if present {
            match take_u8(bytes, a) {
                Ok((variant, b)) => if variant == 0 {
                    match take_optional_address(bytes, b) {
                        Ok((rule_set, c)) => Ok((Some(ProgrammableConfigView { rule_set }), c)),
                        Err(fault) => Err(fault),
                    }
                } else {
                    Err(Fault::Variant)
                },
                Err(fault) => Err(fault),
            }
        } else {
            Ok((None, a))
        },
        Err(fault) => Err(fault),
    }
}

/// What stands before the descriptive part: key, update authority, mint.
pub open spec fn take_head(bytes: Seq<u8>, at: int) -> Result<((u8, Seq<u8>, Seq<u8>), int), Fault> {
    match take_u8(bytes, at) {
        Ok((key, a)) => match take_address(bytes, a) {
            Ok((update_authority, b)) => match take_address(bytes, b) {
                Ok((mint, c)) => Ok(((key, update_authority, mint), c)),
                Err(fault) => Err(fault),
            },
            Err(fault) => Err(fault),
        },
        Err(fault) => Err(fault),
    }
}

/// What follows the descriptive part up to the token standard: whether
/// the primary sale happened, whether the account is mutable, the edition
/// nonce and the token standard.
pub open spec fn take_state(bytes: Seq<u8>, at: int) -> Result<((bool, bool, Option<u8>, Option<u8>), int), Fault> {
    match take_bool(bytes, at) {
        Ok((primary_sale_happened, a)) => match take_bool(bytes, a) {
            Ok((is_mutable, b)) => match take_optional_u8(bytes, b) {
                Ok((edition_nonce, c)) => match take_optional_u8(bytes, c) {
                    Ok((token_standard, d)) => Ok(((primary_sale_happened, is_mutable, edition_nonce, token_standard), d),
                    ),
                    Err(fault) => Err(fault),
                },
                Err(fault) => Err(fault),
            },
            Err(fault) => Err(fault),
        },
        Err(fault) => Err(fault),
    }
}

/// The metadata account that `bytes` begin with, if they begin with one.
pub open spec fn metadata_of(bytes: Seq<u8>) -> Result<MetadataView, Fault> {
    match take_head(bytes, 0) {
        Ok(((key, update_authority, mint), a)) => match take_data(bytes, a) {
            Ok((data, b)) => match take_state(bytes, b) {
                Ok(((primary_sale_happened, is_mutable, edition_nonce, token_standard), c)) => {
                    match take_collection(bytes, c) {
                        Ok((collection, d)) => match take_uses(bytes, d) {
                            Ok((uses, e)) => match take_collection_details(bytes, e) {
                                Ok((collection_details, f)) => match take_programmable_config(
                                    bytes,
                                    f,
                                ) {
                                    Ok((programmable_config, _)) => Ok(
                                        MetadataView {
                                            key,
                                            update_authority,
                                            mint,
                                            data,
                                            primary_sale_happened,
                                            is_mutable,
                                            edition_nonce,
                                            token_standard,
                                            collection,
                                            uses,
                                            collection_details,
                                            programmable_config,
                                        },
                                    ),
                                    Err(fault) => Err(fault),
                                },
                                Err(fault) => Err(fault),
                            },
                            Err(fault) => Err(fault),
                        },
                        Err(fault) => Err(fault),
                    }
                },
                Err(fault) => Err(fault),
            },
            Err(fault) => Err(fault),
        },
        Err(fault) => Err(fault),
    }
}

/// `String::from_utf8` of the standard library, on a copy of the bytes:
/// the text that the bytes encode in UTF-8, and nothing where they are
/// not valid UTF-8.
#[verifier::external_body]
fn text_from_utf8(bytes: &[u8]) -> (text: Option<String>)
    ensures
        match text {
            Some(t) => valid_utf8(bytes@) && t@ == decode_utf8(bytes@),
            None => !valid_utf8(bytes@),
        },
{
    String::from_utf8(bytes.to_vec()).ok()
}

fn read_u8(bytes: &[u8], at: usize) -> (r: Result<(u8, usize), Fault>)
    ensures
        match r {
            Ok((v, next)) => read_as(take_u8(bytes@, at as int), v, next as int),
            Err(fault) => fails_as(take_u8(bytes@, at as int), fault),
        },
{
    if at < bytes.len() {
        Ok((bytes[at], at + 1))
    } else {
        Err(Fault::End)
    }
}

fn read_bool(bytes: &[u8], at: usize) -> (r: Result<(bool, usize), Fault>)
    ensures
        match r {
            Ok((v, next)) => read_as(take_bool(bytes@, at as int), v, next as int),
            Err(fault) => fails_as(take_bool(bytes@, at as int), fault),
        },
{
    match read_u8(bytes, at) {
        Ok((byte, next)) => if byte == 0 {
            Ok((false, next))
        } else if byte == 1 {
            Ok((true, next))
        } else {
            Err(Fault::Flag)
        },
        Err(fault) => Err(fault),
    }
}

fn read_tag(bytes: &[u8], at: usize) -> (r: Result<(bool, usize), Fault>)
    ensures
        match r {
            Ok((v, next)) => read_as(take_tag(bytes@, at as int), v, next as int),
            Err(fault) => fails_as(take_tag(bytes@, at as int), fault),
        },
{
    match read_u8(bytes, at) {
        Ok((byte, next)) => if byte == 0 {
            Ok((false, next))
        } else if byte == 1 {
            Ok((true, next))
        } else {
            Err(Fault::Tag)
        },
        Err(fault) => Err(fault),
    }
}

fn read_u16(bytes: &[u8], at: usize) -> (r: Result<(u16, usize), Fault>)
    ensures
        match r {
            Ok((v, next)) => read_as(take_u16(bytes@, at as int), v, next as int),
            Err(fault) => fails_as(take_u16(bytes@, at as int), fault),
        },
{
    if bytes.len() < 2 || at > bytes.len() - 2 {
        return Err(Fault::End);
    }
    let v: u16 = (bytes[at] as u16) + 0x100 * (bytes[at + 1] as u16);
    Ok((v, at + 2))
}

fn read_u32(bytes: &[u8], at: usize) -> (r: Result<(u32, usize), Fault>)
    ensures
        match r {
            Ok((v, next)) => read_as(take_u32(bytes@, at as int), v, next as int),
            Err(fault) => fails_as(take_u32(bytes@, at as int), fault),
        },
{
    if bytes.len() < 4 || at > bytes.len() - 4 {
        return Err(Fault::End);
    }
    let v: u32 = (bytes[at] as u32) + 0x100 * (bytes[at + 1] as u32) + 0x1_0000 * (bytes[at
        + 2] as u32) + 0x100_0000 * (bytes[at + 3] as u32);
    Ok((v, at + 4))
}

fn read_u64(bytes: &[u8], at: usize) -> (r: Result<(u64, usize), Fault>)
    ensures
        match r {
            Ok((v, next)) => read_as(take_u64(bytes@, at as int), v, next as int),
            Err(fault) => fails_as(take_u64(bytes@, at as int), fault),
        },
{
    if bytes.len() < 8 || at > bytes.len() - 8 {
        return Err(Fault::End);
    }
    let v: u64 = (bytes[at] as u64) + 0x100 * (bytes[at + 1] as u64) + 0x1_0000 * (bytes[at
        + 2] as u64) + 0x100_0000 * (bytes[at + 3] as u64) + 0x1_0000_0000 * (bytes[at
        + 4] as u64) + 0x100_0000_0000 * (bytes[at + 5] as u64) + 0x1_0000_0000_0000 * (bytes[at
        + 6] as u64) + 0x100_0000_0000_0000 * (bytes[at + 7] as u64);
    Ok((v, at + 8))
}

fn read_address(bytes: &[u8], at: usize) -> (r: Result<(Address, usize), Fault>)
    ensures
        match r {
            Ok((v, next)) => read_as(take_address(bytes@, at as int), v@, next as int),
            Err(fault) => fails_as(take_address(bytes@, at as int), fault),
        },
{
    if bytes.len() < ADDRESS_LEN || at > bytes.len() - ADDRESS_LEN {
        return Err(Fault::End);
    }
    let mut out = [0u8; 32];
    let mut i: usize = 0;
    while i < ADDRESS_LEN
        invariant
            i <= ADDRESS_LEN,
            at + ADDRESS_LEN <= bytes.len(),
            forall|j: int| 0 <= j < i ==> out@[j] == bytes@[at + j],
        decreases ADDRESS_LEN - i,
    {
        out[i] = bytes[at + i];
        i += 1;
    }
    assert(out@ =~= bytes@.subrange(at as int, at + ADDRESS_LEN));
    Ok((Address { bytes: out }, at + ADDRESS_LEN))
}

fn read_text(bytes: &[u8], at: usize) -> (r: Result<(String, usize), Fault>)
    ensures
        match r {
            Ok((v, next)) => read_as(take_text(bytes@, at as int), v@, next as int),
            Err(fault) => fails_as(take_text(bytes@, at as int), fault),
        },
{
    let (len, start) = match read_u32(bytes, at) {
        Ok(found) => found,
        Err(fault) => return Err(fault),
    };
    if len as usize > bytes.len() - start {
        return Err(Fault::End);
    }
    let end = start + len as usize;
    match text_from_utf8(slice_subrange(bytes, start, end)) {
        Some(text) => Ok((text, end)),
        None => Err(Fault::Text),
    }
}

fn read_creator(bytes: &[u8], at: usize) -> (r: Result<(Creator, usize), Fault>)
    ensures
        match r {
            Ok((v, next)) => read_as(take_creator(bytes@, at as int), v@, next as int),
            Err(fault) => fails_as(take_creator(bytes@, at as int), fault),
        },
{
    let (address, a) = match read_address(bytes, at) {
        Ok(found) => found,
        Err(fault) => return Err(fault),
    };
    let (verified, b) = match read_bool(bytes, a) {
        Ok(found) => found,
        Err(fault) => return Err(fault),
    };
    let (share, c) = match read_u8(bytes, b) {
        Ok(found) => found,
        Err(fault) => return Err(fault),
    };
    Ok((Creator { address, verified, share }, c))
}

/// Where fewer creators cannot be read, more cannot either.
proof fn lemma_creators_stay_unreadable(bytes: Seq<u8>, at: int, fewer: nat, more: nat)
    requires
        fewer <= more,
        take_creators(bytes, at, fewer) is Err,
    ensures
        take_creators(bytes, at, more) == take_creators(bytes, at, fewer),
    decreases more,
{
    if fewer < more {
        lemma_creators_stay_unreadable(bytes, at, fewer, (more - 1) as nat);
    }
}

fn read_creators(bytes: &[u8], at: usize, count: u32) -> (r: Result<(Vec<Creator>, usize), Fault>)
    ensures
        match r {
            Ok((v, next)) => read_as(take_creators(bytes@, at as int, count as nat), v@.map_values(|c: Creator| c@), next as int),
            Err(fault) => fails_as(take_creators(bytes@, at as int, count as nat), fault),
        },
{
    let mut creators: Vec<Creator> = Vec::new();
    let mut next = at;
    let mut i: u32 = 0;
    assert(creators@.map_values(|c: Creator| c@) =~= Seq::<CreatorView>::empty());
    while i < count
        invariant
            i <= count,
            read_as(
                take_creators(bytes@, at as int, i as nat),
                creators@.map_values(|c: Creator| c@),
                next as int,
            ),
        decreases count - i,
    {
        let ghost before = creators@;
        match read_creator(bytes, next) {
            Ok((creator, end)) => {
                creators.push(creator);
                next = end;
                assert(creators@.map_values(|c: Creator| c@) =~= before.map_values(
                    |c: Creator| c@,
                ).push(creator@));
            },
            Err(fault) => {
                proof {
                    lemma_creators_stay_unreadable(
                        bytes@,
                        at as int,
                        (i + 1) as nat,
                        count as nat,
                    );
                }
                return Err(fault);
            },
        }
        i += 1;
    }
    Ok((creators, next))
}

fn read_creator_list(bytes: &[u8], at: usize) -> (r: Result<(Option<Vec<Creator>>, usize), Fault>)
    ensures
        match r {
            Ok((Some(v), next)) => read_as(take_creator_list(bytes@, at as int), Some(v@.map_values(|c: Creator| c@)), next as int),
            Ok((None, next)) => read_as(take_creator_list(bytes@, at as int), None::<Seq<CreatorView>>, next as int),
            Err(fault) => fails_as(take_creator_list(bytes@, at as int), fault),
        },
{
    let (present, a) = match read_tag(bytes, at) {
        Ok(found) => found,
        Err(fault) => return Err(fault),
    };
    if !present {
        return Ok((None, a));
    }
    let (count, b) = match read_u32(bytes, a) {
        Ok(found) => found,
        Err(fault) => return Err(fault),
    };
    match read_creators(bytes, b, count) {
        Ok((creators, c)) => Ok((Some(creators), c)),
        Err(fault) => Err(fault),
    }
}

fn read_data(bytes: &[u8], at: usize) -> (r: Result<(Data, usize), Fault>)
    ensures
        match r {
            Ok((v, next)) => read_as(take_data(bytes@, at as int), v@, next as int),
            Err(fault) => fails_as(take_data(bytes@, at as int), fault),
        },
{
    let (name, a) = match read_text(bytes, at) {
        Ok(found) => found,
        Err(fault) => return Err(fault),
    };
    let (symbol, b) = match read_text(bytes, a) {
        Ok(found) => found,
        Err(fault) => return Err(fault),
    };
    let (uri, c) = match read_text(bytes, b) {
        Ok(found) => found,
        Err(fault) => return Err(fault),
    };
    let (seller_fee_basis_points, d) = match read_u16(bytes, c) {
        Ok(found) => found,
        Err(fault) => return Err(fault),
    };
    let (creators, e) = match read_creator_list(bytes, d) {
        Ok(found) => found,
        Err(fault) => return Err(fault),
    };
    Ok((Data { name, symbol, uri, seller_fee_basis_points, creators }, e))
}

fn read_optional_u8(bytes: &[u8], at: usize) -> (r: Result<(Option<u8>, usize), Fault>)
    ensures
        match r {
            Ok((v, next)) => read_as(take_optional_u8(bytes@, at as int), v, next as int),
            Err(fault) => fails_as(take_optional_u8(bytes@, at as int), fault),
        },
{
    let (present, a) = match read_tag(bytes, at) {
        Ok(found) => found,
        Err(fault) => return Err(fault),
    };
    if !present {
        return Ok((None, a));
    }
    match read_u8(bytes, a) {
        Ok((value, b)) => Ok((Some(value), b)),
        Err(fault) => Err(fault),
    }
}

/// An optional address as a value.
pub open spec fn optional_address_view(address: Option<Address>) -> Option<Seq<u8>> {
    match address {
        Some(a) => Some(a@),
        None => None,
    }
}

fn read_optional_address(bytes: &[u8], at: usize) -> (r: Result<(Option<Address>, usize), Fault>)
    ensures
        match r {
            Ok((v, next)) => read_as(take_optional_address(bytes@, at as int), optional_address_view(v), next as int),
            Err(fault) => fails_as(take_optional_address(bytes@, at as int), fault),
        },
{
    let (present, a) = match read_tag(bytes, at) {
        Ok(found) => found,
        Err(fault) => return Err(fault),
    };
    if !present {
        return Ok((None, a));
    }
    match read_address(bytes, a) {
        Ok((value, b)) => Ok((Some(value), b)),
        Err(fault) => Err(fault),
    }
}

/// An optional collection as a value.
pub open spec fn optional_collection_view(collection: Option<Collection>) -> Option<
    CollectionView,
> {
    match collection {
        Some(c) => Some(c@),
        None => None,
    }
}

fn read_collection(bytes: &[u8], at: usize) -> (r: Result<(Option<Collection>, usize), Fault>)
    ensures
        match r {
            Ok((v, next)) => read_as(take_collection(bytes@, at as int), optional_collection_view(v), next as int),
            Err(fault) => fails_as(take_collection(bytes@, at as int), fault),
        },
{
    let (present, a) = match read_tag(bytes, at) {
        Ok(found) => found,
        Err(fault) => return Err(fault),
    };
    if !present {
        return Ok((None, a));
    }
    let (verified, b) = match read_bool(bytes, a) {
        Ok(found) => found,
        Err(fault) => return Err(fault),
    };
    match read_address(bytes, b) {
        Ok((key, c)) => Ok((Some(Collection { verified, key }), c)),
        Err(fault) => Err(fault),
    }
}

fn read_uses(bytes: &[u8], at: usize) -> (r: Result<(Option<Uses>, usize), Fault>)
    ensures
        match r {
            Ok((v, next)) => read_as(take_uses(bytes@, at as int), v, next as int),
            Err(fault) => fails_as(take_uses(bytes@, at as int), fault),
        },
{
    let (present, a) = match read_tag(bytes, at) {
        Ok(found) => found,
        Err(fault) => return Err(fault),
    };
    if !present {
        return Ok((None, a));
    }
    let (use_method, b) = match read_u8(bytes, a) {
        Ok(found) => found,
        Err(fault) => return Err(fault),
    };
    let (remaining, c) = match read_u64(bytes, b) {
        Ok(found) => found,
        Err(fault) => return Err(fault),
    };
    match read_u64(bytes, c) {
        Ok((total, d)) => Ok((Some(Uses { use_method, remaining, total }), d)),
        Err(fault) => Err(fault),
    }
}

fn read_collection_details(bytes: &[u8], at: usize) -> (r: Result<(Option<CollectionDetails>, usize), Fault>)
    ensures
        match r {
            Ok((v, next)) => read_as(take_collection_details(bytes@, at as int), v, next as int),
            Err(fault) => fails_as(take_collection_details(bytes@, at as int), fault),
        },
{
    let (present, a) = match read_tag(bytes, at) {
        Ok(found) => found,
        Err(fault) => return Err(fault),
    };
    if !present {
        return Ok((None, a));
    }
    let (variant, b) = match read_u8(bytes, a) {
        Ok(found) => found,
        Err(fault) => return Err(fault),
    };
    if variant != 0 {
        return Err(Fault::Variant);
    }
    match read_u64(bytes, b) {
        Ok((size, c)) => Ok((Some(CollectionDetails::V1 { size }), c)),
        Err(fault) => Err(fault),
    }
}

/// An optional programmable configuration as a value.
pub open spec fn optional_config_view(config: Option<ProgrammableConfig>) -> Option<
    ProgrammableConfigView,
> {
    match config {
        Some(c) => Some(c@),
        None => None,
    }
}

fn read_programmable_config(bytes: &[u8], at: usize) -> (r: Result<(Option<ProgrammableConfig>, usize), Fault>)
    ensures
        match r {
            Ok((v, next)) => read_as(take_programmable_config(bytes@, at as int), optional_config_view(v), next as int),
            Err(fault) => fails_as(take_programmable_config(bytes@, at as int), fault),
        },
{
    let (present, a) = match read_tag(bytes, at) {
        Ok(found) => found,
        Err(fault) => return Err(fault),
    };
    if !present {
        return Ok((None, a));
    }
    let (variant, b) = match read_u8(bytes, a) {
        Ok(found) => found,
        Err(fault) => return Err(fault),
    };
    if variant != 0 {
        return Err(Fault::Variant);
    }
    match read_optional_address(bytes, b) {
        Ok((rule_set, c)) => Ok((Some(ProgrammableConfig::V1 { rule_set }), c)),
        Err(fault) => Err(fault),
    }
}

/// Decodes the metadata account that `bytes` begin with. There is none
/// where the bytes end before the last field does, where a flag or a tag is
/// neither 0 nor 1, where a variant is not known, or where a text is not
/// UTF-8; the fault is that of the first field that cannot be read.
pub fn decode_metadata(bytes: &[u8]) -> (metadata: Result<Metadata, Fault>)
    ensures
        match metadata {
            Ok(m) => metadata_of(bytes@) == Ok::<MetadataView, Fault>(m@),
            Err(fault) => metadata_of(bytes@) == Err::<MetadataView, Fault>(fault),
        },
{
    let (key, a) = match read_u8(bytes, 0) {
        Ok(found) => found,
        Err(fault) => return Err(fault),
    };
    let (update_authority, a) = match read_address(bytes, a) {
        Ok(found) => found,
        Err(fault) => return Err(fault),
    };
    let (mint, a) = match read_address(bytes, a) {
        Ok(found) => found,
        Err(fault) => return Err(fault),
    };
    let (data, b) = match read_data(bytes, a) {
        Ok(found) => found,
        Err(fault) => return Err(fault),
    };
    let (primary_sale_happened, c) = match read_bool(bytes, b) {
        Ok(found) => found,
        Err(fault) => return Err(fault),
    };
    let (is_mutable, c) = match read_bool(bytes, c) {
        Ok(found) => found,
        Err(fault) => return Err(fault),
    };
    let (edition_nonce, c) = match read_optional_u8(bytes, c) {
        Ok(found) => found,
        Err(fault) => return Err(fault),
    };
    let (token_standard, c) = match read_optional_u8(bytes, c) {
        Ok(found) => found,
        Err(fault) => return Err(fault),
    };
    let (collection, d) = match read_collection(bytes, c) {
        Ok(found) => found,
        Err(fault) => return Err(fault),
    };
    let (uses, e) = match read_uses(bytes, d) {
        Ok(found) => found,
        Err(fault) => return Err(fault),
    };
    let (collection_details, f) = match read_collection_details(bytes, e) {
        Ok(found) => found,
        Err(fault) => return Err(fault),
    };
    let (programmable_config, _) = match read_programmable_config(bytes, f) {
        Ok(found) => found,
        Err(fault) => return Err(fault),
    };
    Ok(
        Metadata {
            key,
            update_authority,
            mint,
            data,
            primary_sale_happened,
            is_mutable,
            edition_nonce,
            token_standard,
            collection,
            uses,
            collection_details,
            programmable_config,
        },
    )
}

} // verus!
