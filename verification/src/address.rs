//! Account addresses: their base58 form, and the address at which the
//! metadata of a mint is kept.

use vstd::prelude::*;
use vstd::array::array_as_slice;
use vstd::slice::slice_to_vec;
use crate::model::Address;

verus! {

/// A character of the base58 alphabet: a digit but `0`, or a letter but
/// `I`, `O` and `l`.
pub open spec fn is_base58_char(c: char) -> bool {
    let u = c as u32;
    ||| 0x31 <= u <= 0x39
    ||| (0x41 <= u <= 0x5A && u != 0x49 && u != 0x4F)
    ||| (0x61 <= u <= 0x7A && u != 0x6C)
}

/// A text of base58 characters only.
pub open spec fn is_base58(text: Seq<char>) -> bool {
    forall|i: int| 0 <= i < text.len() ==> is_base58_char(#[trigger] text[i])
}

/// What `Pubkey::from_str` of the crate `solana_sdk` makes of a text: the
/// address it reads, or what its error says.
pub uninterp spec fn parsed_address(text: Seq<char>) -> Result<Seq<u8>, Seq<char>>;

/// The text that a `Pubkey` of the crate `solana_sdk` is displayed as: its
/// bytes in base58.
pub uninterp spec fn base58_text(bytes: Seq<u8>) -> Seq<char>;

/// The address and bump seed that `Pubkey::try_find_program_address` of the
/// crate `solana_sdk` derives from seeds and a program's address, if it
/// finds any.
pub uninterp spec fn program_address(seeds: Seq<Seq<u8>>, program: Seq<u8>) -> Option<
    (Seq<u8>, u8),
>;

/// The seeds that a list of byte vectors holds.
pub open spec fn seeds_of(seeds: Seq<Vec<u8>>) -> Seq<Seq<u8>> {
    Seq::new(seeds.len(), |i: int| seeds[i]@)
}

/// `address` is what was made of `text`.
pub open spec fn is_parsed(address: Result<Address, String>, text: Seq<char>) -> bool {
    match address {
        Ok(a) => parsed_address(text) == Ok::<Seq<u8>, Seq<char>>(a@),
        Err(cause) => parsed_address(text) == Err::<Seq<u8>, Seq<char>>(cause@),
    }
}

/// `Pubkey::from_str` of the crate `solana_sdk`: the 32 bytes that a text
/// encodes in base58, or what its error says. It reads none from a text
/// that holds a character outside the base58 alphabet.
#[verifier::external_body]
fn pubkey_from_str(text: &str) -> (address: Result<Address, String>)
    ensures
        match address {
            Ok(a) => parsed_address(text@) == Ok::<Seq<u8>, Seq<char>>(a@),
            Err(cause) => parsed_address(text@) == Err::<Seq<u8>, Seq<char>>(cause@),
        },
        !is_base58(text@) ==> address is Err,
{
    match text.parse::<solana_sdk::pubkey::Pubkey>() {
        Ok(key) => Ok(Address { bytes: key.to_bytes() }),
        Err(e) => Err(e.to_string()),
    }
}

/// `Pubkey::to_string` of the crate `solana_sdk`: an address in base58.
#[verifier::external_body]
fn pubkey_to_string(address: &Address) -> (text: String)
    ensures
        text@ == base58_text(address@),
{
    solana_sdk::pubkey::Pubkey::new_from_array(address.bytes).to_string()
}

/// `Pubkey::try_find_program_address` of the crate `solana_sdk`: the
/// address off the curve that the seeds and the program's address hash to
/// with the highest bump seed that gives one, and that bump seed.
#[verifier::external_body]
fn try_find_program_address(seeds: &Vec<Vec<u8>>, program: &Address) -> (found: Option<
    (Address, u8),
>)
    ensures
        match found {
            Some((a, bump)) => program_address(seeds_of(seeds@), program@) == Some((a@, bump)),
            None => program_address(seeds_of(seeds@), program@) is None,
        },
{
    let parts: Vec<&[u8]> = seeds.iter().map(|seed| seed.as_slice()).collect();
    let program = solana_sdk::pubkey::Pubkey::new_from_array(program.bytes);
    match solana_sdk::pubkey::Pubkey::try_find_program_address(&parts, &program) {
        Some((key, bump)) => Some((Address { bytes: key.to_bytes() }, bump)),
        None => None,
    }
}

/// The text of the address of the token metadata program.
pub open spec fn metadata_program_text() -> Seq<char> {
    "metaqbxxUerdq28cj1RbAWkYQm3ybzjb6a8bt518x1s"@
}

/// The first seed of a metadata address: the word `metadata`.
pub open spec fn metadata_seed() -> Seq<u8> {
    seq![109u8, 101u8, 116u8, 97u8, 100u8, 97u8, 116u8, 97u8]
}

/// The address at which the metadata of `mint` is kept: the address
/// derived for the token metadata program from the word `metadata`, the
/// program's own address and the mint's address.
pub open spec fn metadata_address_of(mint: Seq<u8>) -> Option<Seq<u8>> {
    match parsed_address(metadata_program_text()) {
        Ok(program) => match program_address(seq![metadata_seed(), program, mint], program) {
            Some((address, _)) => Some(address),
            None => None,
        },
        Err(_) => None,
    }
}

impl Address {
    /// Reads an address from its base58 form, or says why there is none.
    pub fn parse(text: &str) -> (address: Result<Address, String>)
        ensures
            is_parsed(address, text@),
            !is_base58(text@) ==> address is Err,
    {
        pubkey_from_str(text)
    }

    /// The base58 form of this address.
    pub fn to_base58(&self) -> (text: String)
        ensures
            text@ == base58_text(self@),
    {
        pubkey_to_string(self)
    }

    /// The bytes of this address.
    pub fn to_vec(&self) -> (bytes: Vec<u8>)
        ensures
            bytes@ == self@,
    {
        slice_to_vec(array_as_slice(&self.bytes))
    }
}

/// The address at which the metadata of `mint` is kept.
pub fn metadata_address(mint: &Address) -> (address: Option<Address>)
    ensures
        match address {
            Some(a) => metadata_address_of(mint@) == Some(a@),
            None => metadata_address_of(mint@) is None,
        },
{
    let program = match Address::parse("metaqbxxUerdq28cj1RbAWkYQm3ybzjb6a8bt518x1s") {
        Ok(program) => program,
        Err(_) => return None,
    };
    let mut word: Vec<u8> = Vec::new();
    word.push(109);
    word.push(101);
    word.push(116);
    word.push(97);
    word.push(100);
    word.push(97);
    word.push(116);
    word.push(97);
    assert(word@ =~= metadata_seed());
    let mut seeds: Vec<Vec<u8>> = Vec::new();
    seeds.push(word);
    seeds.push(program.to_vec());
    seeds.push(mint.to_vec());
    assert(seeds_of(seeds@) =~= seq![metadata_seed(), program@, mint@]);
    match try_find_program_address(&seeds, &program) {
        Some((address, _)) => Some(address),
        None => None,
    }
}

} // verus!
