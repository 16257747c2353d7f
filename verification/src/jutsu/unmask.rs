//! Unmasking a mint, one step at a time: each step says what to ask of
//! the network next, or that the mission is over. Whoever drives the mission
//! sends the request and hands back what came of it.

use vstd::prelude::*;
use vstd::string::StrSliceExecFns;
use vstd::string::StringExecFns;
use crate::account::{decode_metadata, fault_text, metadata_of};
use crate::address::{
    base58_text, is_base58, metadata_address, metadata_address_of, parsed_address,
};
use crate::model::{
    Address, Attribute, Metadata, MetadataView, OffChainMetadata, OffChainView, UnmaskReport,
};
use crate::rpc::{
    base64_decoded, decode_base64, is_reply_of, quote_reply, quoted_reply, read_account_reply,
    AccountReply,
};
use crate::text::{unpad, unpadded};
use crate::uri::{is_http, resolve_uri, rewritten, Resolution};

verus! {

/// What was found malformed.
#[derive(Debug, Clone, Copy, PartialEq, Eq, Structural)]
pub enum Malformed {
    /// The reply to the account query is not JSON.
    ReplyNotJson,
    /// The reply holds neither an error nor a result.
    ReplyWithoutResult,
    /// The reply does not hold the data of the account.
    ReplyWithoutData,
    /// The data of the account is not base64.
    Base64,
    /// The data of the account is no metadata account.
    Account,
    /// The off-chain document is not metadata.
    OffChain,
}

/// Why a mission failed.
#[derive(Debug)]
pub enum UnmaskError {
    /// The mint address is no address; `cause` says why.
    InvalidAddress { address: String, cause: String },
    /// No metadata address can be derived for the mint.
    NoMetadataAddress,
    /// There is no metadata account; `fallback` quotes the reply to the
    /// query for the mint itself.
    NotFound { metadata_address: String, fallback: String },
    /// A request did not get through.
    Transport { reason: String },
    /// The node answered with an error.
    Protocol { error: String },
    /// Something that was received could not be decoded; `cause` says
    /// why, or quotes what was received.
    Decode { what: Malformed, cause: String },
    /// What was handed back does not answer what was asked.
    OutOfTurn,
}

/// What is said of something malformed.
pub open spec fn malformed_text(what: Malformed) -> Seq<char> {
    match what {
        Malformed::ReplyNotJson => "Failed to parse RPC response as JSON"@,
        Malformed::ReplyWithoutResult => "Missing `result` field in RPC response"@,
        Malformed::ReplyWithoutData => "Failed to find account data in RPC result"@,
        Malformed::Base64 => "base64 decode failed"@,
        Malformed::Account => "Failed to parse metadata from bytes"@,
        Malformed::OffChain => "Failed to parse off-chain metadata"@,
    }
}

/// The message of an error.
pub open spec fn error_text(error: UnmaskError) -> Seq<char> {
    match error {
        UnmaskError::InvalidAddress { address, cause } => "Invalid mint address '"@ + address@
            + "': "@ + cause@,
        UnmaskError::NoMetadataAddress => "Unable to derive the metadata address"@,
        UnmaskError::NotFound { metadata_address, fallback } => "Metadata PDA "@
            + metadata_address@ + " not found. Fallback mint query returned: "@ + fallback@,
        UnmaskError::Transport { reason } => "Request failed: "@ + reason@,
        UnmaskError::Protocol { error } => "RPC returned error: "@ + error@,
        UnmaskError::Decode { what, cause } => malformed_text(what) + ": "@ + cause@,
        UnmaskError::OutOfTurn => "Unexpected reply"@,
    }
}

impl UnmaskError {
    /// The message of this error.
    pub fn message(&self) -> (text: String)
        ensures
            text@ == error_text(*self),
    {
        match self {
            UnmaskError::InvalidAddress { address, cause } => {
                let mut text = String::from_str("Invalid mint address '");
                text.append(address.as_str());
                text.append("': ");
                text.append(cause.as_str());
                text
            },
            UnmaskError::NoMetadataAddress => String::from_str(
                "Unable to derive the metadata address",
            ),
            UnmaskError::NotFound { metadata_address, fallback } => {
                let mut text = String::from_str("Metadata PDA ");
                text.append(metadata_address.as_str());
                text.append(" not found. Fallback mint query returned: ");
                text.append(fallback.as_str());
                text
            },
            UnmaskError::Transport { reason } => {
                let mut text = String::from_str("Request failed: ");
                text.append(reason.as_str());
                text
            },
            UnmaskError::Protocol { error } => {
                let mut text = String::from_str("RPC returned error: ");
                text.append(error.as_str());
                text
            },
            UnmaskError::Decode { what, cause } => {
                let mut text = match what {
                    Malformed::ReplyNotJson => String::from_str(
                        "Failed to parse RPC response as JSON",
                    ),
                    Malformed::ReplyWithoutResult => String::from_str(
                        "Missing `result` field in RPC response",
                    ),
                    Malformed::ReplyWithoutData => String::from_str(
                        "Failed to find account data in RPC result",
                    ),
                    Malformed::Base64 => String::from_str("base64 decode failed"),
                    Malformed::Account => String::from_str("Failed to parse metadata from bytes"),
                    Malformed::OffChain => String::from_str("Failed to parse off-chain metadata"),
                };
                text.append(": ");
                text.append(cause.as_str());
                text
            },
            UnmaskError::OutOfTurn => String::from_str("Unexpected reply"),
        }
    }
}

/// How much of a report could be filled in.
#[derive(Debug, Clone, Copy, PartialEq, Eq, Structural)]
pub enum Completeness {
    /// On-chain and off-chain metadata.
    Full,
    /// On-chain metadata only: the account names no URI.
    PartialNoUri,
    /// On-chain metadata only: the URI is not one that can be fetched.
    PartialUnresolvedScheme,
}

/// What is asked of the network.
#[derive(Debug)]
pub enum Request {
    /// The account at `address`, its data in base64.
    AccountInfo { address: String },
    /// The JSON document at `url`.
    Document { url: String },
    /// The bytes at `url`.
    Image { url: String },
}

/// Where a mission stands while a request is under way.
#[derive(Debug)]
pub enum Stage {
    /// The metadata account was asked for.
    Account { mint: Address, metadata_address: Address, image: bool },
    /// The metadata account is missing, and the mint itself was asked for.
    Fallback { metadata_address: Address },
    /// The off-chain document was asked for.
    OffChain { on_chain: Metadata, image: bool },
    /// The artwork was asked for.
    Image { on_chain: Metadata, off_chain: OffChainMetadata },
}

/// What came of a request.
#[derive(Debug)]
pub enum Event {
    /// The body of the reply to an account query.
    Reply { body: String },
    /// The off-chain document, or why what came is not metadata.
    Document { parsed: Result<OffChainMetadata, String> },
    /// The bytes of the artwork.
    Image { bytes: Vec<u8> },
    /// The request did not get through.
    Lost { reason: String },
}

/// What a mission does next.
#[derive(Debug)]
pub enum Step {
    /// Send `request`, and come back at `stage` with what came of it.
    Ask { request: Request, stage: Stage },
    /// The mission is over, and this is its report.
    Done { report: UnmaskReport, completeness: Completeness },
    /// The mission is over, and it failed.
    Failed { error: UnmaskError },
}

/// The off-chain part of a report that rests on the account alone: the
/// account's own name and symbol, no image and no attributes.
pub open spec fn on_chain_only(on_chain: MetadataView) -> OffChainView {
    OffChainView {
        name: unpadded(on_chain.data.name),
        symbol: unpadded(on_chain.data.symbol),
        image: Seq::empty(),
        attributes: Seq::empty(),
    }
}

/// `step` ends the mission with a report that rests on the account alone.
pub open spec fn ends_partial(step: Step, on_chain: MetadataView, how: Completeness) -> bool {
    &&& step matches Step::Done { report, completeness }
    &&& completeness == how
    &&& report.on_chain@ == on_chain
    &&& report.off_chain@ == on_chain_only(on_chain)
    &&& report.image_data is None
}

/// `step` is what follows once the account is decoded: without a URI, or
/// with one that cannot be fetched once rewritten, the mission ends with
/// what the account holds; else the document at the rewritten URI is asked
/// for.
pub open spec fn follows_account(step: Step, on_chain: MetadataView, image: bool) -> bool {
    let uri = unpadded(on_chain.data.uri);
    if uri.len() == 0 {
        ends_partial(step, on_chain, Completeness::PartialNoUri)
    } else if !is_http(rewritten(uri)) {
        ends_partial(step, on_chain, Completeness::PartialUnresolvedScheme)
    } else {
        &&& step matches Step::Ask { request, stage }
        &&& request matches Request::Document { url }
        &&& url@ == rewritten(uri)
        &&& stage matches Stage::OffChain { on_chain: kept, image: wanted }
        &&& kept@ == on_chain
        &&& wanted == image
    }
}

/// `step` fails the mission because `what` is malformed, for `cause`.
pub open spec fn fails_decoding(step: Step, what: Malformed, cause: Seq<char>) -> bool {
    &&& step matches Step::Failed { error }
    &&& error matches UnmaskError::Decode { what: found, cause: told }
    &&& found == what
    &&& told@ == cause
}

/// `step` is what follows the reply to the query for the metadata
/// account. An error of the node and a malformed reply fail the mission;
/// a missing account has the mint itself asked for; the data of the
/// account is decoded from base64 and then as a metadata account. A reply
/// that lacks a part is quoted as it came, `body`.
pub open spec fn follows_reply(
    step: Step,
    reply: AccountReply,
    body: Seq<char>,
    mint: Seq<u8>,
    metadata_address: Seq<u8>,
    image: bool,
) -> bool {
    match reply {
        AccountReply::Unreadable { cause } => fails_decoding(
            step,
            Malformed::ReplyNotJson,
            cause@,
        ),
        AccountReply::NoResult => fails_decoding(step, Malformed::ReplyWithoutResult, body),
        AccountReply::NoData => fails_decoding(step, Malformed::ReplyWithoutData, body),
        AccountReply::Failed { error } => {
            &&& step matches Step::Failed { error: failure }
            &&& failure matches UnmaskError::Protocol { error: told }
            &&& told@ == error@
        },
        AccountReply::Missing => {
            &&& step matches Step::Ask { request, stage }
            &&& request matches Request::AccountInfo { address }
            &&& address@ == base58_text(mint)
            &&& stage matches Stage::Fallback { metadata_address: kept }
            &&& kept@ == metadata_address
        },
        AccountReply::Data { base64 } => match base64_decoded(base64@) {
            Err(cause) => fails_decoding(step, Malformed::Base64, cause),
            Ok(bytes) => match metadata_of(bytes) {
                Err(fault) => fails_decoding(step, Malformed::Account, fault_text(fault)),
                Ok(on_chain) => follows_account(step, on_chain, image),
            },
        },
    }
}

/// `step` fails the mission because the mint address is no address.
pub open spec fn rejects_address(step: Step) -> bool {
    step matches Step::Failed { error } && error is InvalidAddress
}

/// `step` is the first step of a mission: a mint address that is no
/// address fails it before anything is asked; else the account at the
/// metadata address of the mint is asked for.
pub open spec fn is_first_step(step: Step, mint_address: Seq<char>, image: bool) -> bool {
    match parsed_address(mint_address) {
        Err(cause) => {
            &&& step matches Step::Failed { error }
            &&& error matches UnmaskError::InvalidAddress { address, cause: told }
            &&& address@ == mint_address
            &&& told@ == cause
        },
        Ok(mint) => match metadata_address_of(mint) {
            None => step matches Step::Failed { error } && error is NoMetadataAddress,
            Some(derived) => {
                &&& step matches Step::Ask { request, stage }
                &&& request matches Request::AccountInfo { address }
                &&& address@ == base58_text(derived)
                &&& stage matches Stage::Account { mint: kept, metadata_address, image: wanted }
                &&& kept@ == mint
                &&& metadata_address@ == derived
                &&& wanted == image
            },
        },
    }
}

/// `step` is what follows the off-chain document: a document that is not
/// metadata fails the mission; where the artwork is wanted and the
/// document names an image, the image is asked for; else the mission ends
/// with a full report.
pub open spec fn follows_document(
    step: Step,
    on_chain: Metadata,
    image: bool,
    parsed: Result<OffChainMetadata, String>,
) -> bool {
    match parsed {
        Err(cause) => fails_decoding(step, Malformed::OffChain, cause@),
        Ok(off_chain) => if image && off_chain.image@.len() > 0 {
            &&& step matches Step::Ask { request, stage }
            &&& request matches Request::Image { url }
            &&& url@ == off_chain.image@
            &&& stage == (Stage::Image { on_chain, off_chain })
        } else {
            &&& step matches Step::Done { report, completeness }
            &&& completeness == Completeness::Full
            &&& report == (UnmaskReport { on_chain, off_chain, image_data: None })
        },
    }
}

/// `step` is what follows `event` at `stage`.
pub open spec fn is_next_step(step: Step, stage: Stage, event: Event) -> bool {
    match event {
        Event::Lost { reason } => {
            &&& step matches Step::Failed { error }
            &&& error == (UnmaskError::Transport { reason })
        },
        Event::Reply { body } => match stage {
            Stage::Account { mint, metadata_address, image } => exists|reply: AccountReply|
                is_reply_of(reply, body@) && follows_reply(
                    step,
                    reply,
                    body@,
                    mint@,
                    metadata_address@,
                    image,
                ),
            Stage::Fallback { metadata_address } => {
                &&& step matches Step::Failed { error }
                &&& error matches UnmaskError::NotFound { metadata_address: missing, fallback }
                &&& missing@ == base58_text(metadata_address@)
                &&& fallback@ == quoted_reply(body@)
            },
            _ => step matches Step::Failed { error } && error is OutOfTurn,
        },
        Event::Document { parsed } => match stage {
            Stage::OffChain { on_chain, image } => follows_document(step, on_chain, image, parsed),
            _ => step matches Step::Failed { error } && error is OutOfTurn,
        },
        Event::Image { bytes } => match stage {
            Stage::Image { on_chain, off_chain } => {
                &&& step matches Step::Done { report, completeness }
                &&& completeness == Completeness::Full
                &&& report == (UnmaskReport { on_chain, off_chain, image_data: Some(bytes) })
            },
            _ => step matches Step::Failed { error } && error is OutOfTurn,
        },
    }
}

/// The first step of a mission against the mint at `mint_address`.
pub fn begin(mint_address: &str, image: bool) -> (step: Step)
    ensures
        is_first_step(step, mint_address@, image),
        !is_base58(mint_address@) ==> rejects_address(step),
{
    let mint = match Address::parse(mint_address) {
        Ok(mint) => mint,
        Err(cause) => {
            return Step::Failed {
                error: UnmaskError::InvalidAddress {
                    address: String::from_str(mint_address),
                    cause,
                },
            };
        },
    };
    let derived = match metadata_address(&mint) {
        Some(derived) => derived,
        None => {
            return Step::Failed { error: UnmaskError::NoMetadataAddress };
        },
    };
    Step::Ask {
        request: Request::AccountInfo { address: derived.to_base58() },
        stage: Stage::Account { mint, metadata_address: derived, image },
    }
}

/// The step that follows once the account is decoded.
pub fn after_account(on_chain: Metadata, image: bool) -> (step: Step)
    ensures
        follows_account(step, on_chain@, image),
{
    let how = match resolve_uri(on_chain.data.uri.as_str()) {
        Resolution::Fetch { url } => {
            return Step::Ask {
                request: Request::Document { url },
                stage: Stage::OffChain { on_chain, image },
            };
        },
        Resolution::NoUri => Completeness::PartialNoUri,
        Resolution::Unresolved { uri: _ } => Completeness::PartialUnresolvedScheme,
    };
    let attributes: Vec<Attribute> = Vec::new();
    let off_chain = OffChainMetadata {
        name: unpad(on_chain.data.name.as_str()),
        symbol: unpad(on_chain.data.symbol.as_str()),
        image: String::new(),
        attributes,
    };
    assert(off_chain@.attributes =~= Seq::empty());
    assert(off_chain@ == on_chain_only(on_chain@));
    Step::Done { report: UnmaskReport { on_chain, off_chain, image_data: None }, completeness: how }
}

/// The step that follows the reply to the query for the metadata account.
pub fn after_reply(
    reply: AccountReply,
    body: &str,
    mint: &Address,
    metadata_address: &Address,
    image: bool,
) -> (step: Step)
    ensures
        follows_reply(step, reply, body@, mint@, metadata_address@, image),
{
    match reply {
        AccountReply::Unreadable { cause } => Step::Failed {
            error: UnmaskError::Decode { what: Malformed::ReplyNotJson, cause },
        },
        AccountReply::NoResult => Step::Failed {
            error: UnmaskError::Decode {
                what: Malformed::ReplyWithoutResult,
                cause: String::from_str(body),
            },
        },
        AccountReply::NoData => Step::Failed {
            error: UnmaskError::Decode {
                what: Malformed::ReplyWithoutData,
                cause: String::from_str(body),
            },
        },
        AccountReply::Failed { error } => Step::Failed { error: UnmaskError::Protocol { error } },
        AccountReply::Missing => Step::Ask {
            request: Request::AccountInfo { address: mint.to_base58() },
            stage: Stage::Fallback { metadata_address: *metadata_address },
        },
        AccountReply::Data { base64 } => {
            let bytes = match decode_base64(base64.as_str()) {
                Ok(bytes) => bytes,
                Err(cause) => {
                    return Step::Failed {
                        error: UnmaskError::Decode { what: Malformed::Base64, cause },
                    };
                },
            };
            match decode_metadata(bytes.as_slice()) {
                Ok(on_chain) => after_account(on_chain, image),
                Err(fault) => Step::Failed {
                    error: UnmaskError::Decode {
                        what: Malformed::Account,
                        cause: String::from_str(fault.message()),
                    },
                },
            }
        },
    }
}

/// The step that follows the off-chain document.
pub fn after_document(
    on_chain: Metadata,
    image: bool,
    parsed: Result<OffChainMetadata, String>,
) -> (step: Step)
    ensures
        follows_document(step, on_chain, image, parsed),
{
    match parsed {
        Err(cause) => Step::Failed {
            error: UnmaskError::Decode { what: Malformed::OffChain, cause },
        },
        Ok(off_chain) => {
            if image && off_chain.image.as_str().unicode_len() > 0 {
                let url = off_chain.image.clone();
                Step::Ask { request: Request::Image { url }, stage: Stage::Image { on_chain, off_chain } }
            } else {
                Step::Done {
                    report: UnmaskReport { on_chain, off_chain, image_data: None },
                    completeness: Completeness::Full,
                }
            }
        },
    }
}

/// The step that follows `event` at `stage`.
pub fn advance(stage: Stage, event: Event) -> (step: Step)
    ensures
        is_next_step(step, stage, event),
{
    match event {
        Event::Lost { reason } => Step::Failed { error: UnmaskError::Transport { reason } },
        Event::Reply { body } => match stage {
            Stage::Account { mint, metadata_address, image } => {
                let reply = read_account_reply(body.as_str());
                let ghost read = reply;
                let step = after_reply(reply, body.as_str(), &mint, &metadata_address, image);
                assert(is_reply_of(read, body@) && follows_reply(
                    step,
                    read,
                    body@,
                    mint@,
                    metadata_address@,
                    image,
                ));
                step
            },
            Stage::Fallback { metadata_address } => Step::Failed {
                error: UnmaskError::NotFound {
                    metadata_address: metadata_address.to_base58(),
                    fallback: quote_reply(body.as_str()),
                },
            },
            _ => Step::Failed { error: UnmaskError::OutOfTurn },
        },
        Event::Document { parsed } => match stage {
            Stage::OffChain { on_chain, image } => after_document(on_chain, image, parsed),
            _ => Step::Failed { error: UnmaskError::OutOfTurn },
        },
        Event::Image { bytes } => match stage {
            Stage::Image { on_chain, off_chain } => Step::Done {
                report: UnmaskReport { on_chain, off_chain, image_data: Some(bytes) },
                completeness: Completeness::Full,
            },
            _ => Step::Failed { error: UnmaskError::OutOfTurn },
        },
    }
}

/// An account without a URI ends the mission at once: nothing more is
/// asked of the network, and the report holds neither an image nor
/// attributes. So does an account whose URI, once rewritten, is not one
/// that can be fetched.
pub proof fn lemma_no_fetch_without_http_uri(step: Step, on_chain: MetadataView, image: bool)
    requires
        follows_account(step, on_chain, image),
        unpadded(on_chain.data.uri).len() == 0 || !is_http(rewritten(unpadded(on_chain.data.uri))),
    ensures
        step matches Step::Done { report, completeness } && completeness != Completeness::Full
            && report.off_chain@.image.len() == 0 && report.off_chain@.attributes.len() == 0
            && report.image_data is None,
{
}

/// A mint address that holds a character outside the base58 alphabet
/// fails the mission at its first step, before anything is asked of the
/// network.
pub proof fn lemma_invalid_mint_fails_first(step: Step, mint_address: Seq<char>, image: bool)
    requires
        is_first_step(step, mint_address, image),
        parsed_address(mint_address) is Err,
    ensures
        rejects_address(step),
{
}

} // verus!
