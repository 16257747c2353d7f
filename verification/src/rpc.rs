//! Talking to the chain: where requests go, what they ask, and how a reply
//! to an account query is read.

use vstd::prelude::*;
use vstd::string::StrSliceExecFns;
use vstd::string::StringExecFns;

verus! {

/// Seconds after which a request to the chain is given up.
pub const RPC_TIMEOUT_SECS: u64 = 15;

/// The most assets that are asked for in one page.
pub const ASSET_PAGE_LIMIT: u32 = 1000;

/// The public endpoint of the chain.
pub open spec fn default_rpc_url() -> Seq<char> {
    "https://api.mainnet-beta.solana.com"@
}

/// The indexer's endpoint for an API key.
pub open spec fn helius_url_for(api_key: Seq<char>) -> Seq<char> {
    if api_key.len() == 0 {
        default_rpc_url()
    } else {
        "https://mainnet.helius-rpc.com/?api-key="@ + api_key
    }
}

/// The endpoint of the chain: the configured one, else the public one.
pub fn rpc_url(configured: Option<String>) -> (url: String)
    ensures
        url@ == match configured {
            Some(chosen) => chosen@,
            None => default_rpc_url(),
        },
{
    match configured {
        Some(chosen) => chosen,
        None => String::from_str("https://api.mainnet-beta.solana.com"),
    }
}

/// The endpoint that assets are asked of: the indexer's where there is an
/// API key, else the public endpoint of the chain.
pub fn helius_url(api_key: &str) -> (url: String)
    ensures
        url@ == helius_url_for(api_key@),
{
    if api_key.unicode_len() == 0 {
        String::from_str("https://api.mainnet-beta.solana.com")
    } else {
        let mut url = String::from_str("https://mainnet.helius-rpc.com/?api-key=");
        url.append(api_key);
        url
    }
}

/// Whether a status code says that a request succeeded: 200 to 299.
pub fn is_success(status: u16) -> (ok: bool)
    ensures
        ok == (200 <= status <= 299),
{
    200 <= status && status <= 299
}

/// `Value` of the crate `serde_json`: a JSON value, of which nothing is
/// known but what the functions below say.
#[verifier::external_type_specification]
#[verifier::external_body]
pub struct ExJsonValue(serde_json::Value);

/// What `serde_json::from_str` makes of a text: the JSON value it reads,
/// or what its error says.
pub uninterp spec fn json_document(text: Seq<char>) -> Result<serde_json::Value, Seq<char>>;

/// The member of a JSON object under a key, as `Value::get` gives it;
/// none where the value is no object or has no such member.
pub uninterp spec fn json_member(value: serde_json::Value, key: Seq<char>) -> Option<
    serde_json::Value,
>;

/// The element of a JSON array at an index, as `Value::get` gives it;
/// none where the value is no array or is shorter.
pub uninterp spec fn json_element(value: serde_json::Value, index: nat) -> Option<
    serde_json::Value,
>;

/// Whether a JSON value is `null`.
pub uninterp spec fn json_is_null(value: serde_json::Value) -> bool;

/// The text of a JSON string; none where the value is no string.
pub uninterp spec fn json_text(value: serde_json::Value) -> Option<Seq<char>>;

/// A JSON value written out as compact JSON.
pub uninterp spec fn json_rendering(value: serde_json::Value) -> Seq<char>;

/// The JSON string that holds a text, as `Value::from` makes it.
pub uninterp spec fn json_string(text: Seq<char>) -> serde_json::Value;

/// What the `STANDARD` engine of the crate `base64` makes of a text: the
/// bytes that it encodes in base64 with the standard alphabet and padding,
/// or what the engine's error says.
pub uninterp spec fn base64_decoded(text: Seq<char>) -> Result<Seq<u8>, Seq<char>>;

/// `serde_json::from_str` for a `Value`: the value, or what the error
/// says.
#[verifier::external_body]
fn json_from_str(text: &str) -> (document: Result<serde_json::Value, String>)
    ensures
        match document {
            Ok(value) => json_document(text@) == Ok::<serde_json::Value, Seq<char>>(value),
            Err(cause) => json_document(text@) == Err::<serde_json::Value, Seq<char>>(cause@),
        },
{
    serde_json::from_str::<serde_json::Value>(text).map_err(|e| e.to_string())
}

/// `Value::get` of the crate `serde_json` with a key.
#[verifier::external_body]
fn json_get<'a>(value: &'a serde_json::Value, key: &str) -> (member: Option<&'a serde_json::Value>)
    ensures
        match member {
            Some(m) => json_member(*value, key@) == Some(*m),
            None => json_member(*value, key@) is None,
        },
{
    value.get(key)
}

/// `Value::get` of the crate `serde_json` with an index.
#[verifier::external_body]
fn json_at<'a>(value: &'a serde_json::Value, index: usize) -> (element: Option<
    &'a serde_json::Value,
>)
    ensures
        match element {
            Some(e) => json_element(*value, index as nat) == Some(*e),
            None => json_element(*value, index as nat) is None,
        },
{
    value.get(index)
}

/// `Value::is_null` of the crate `serde_json`.
#[verifier::external_body]
fn json_null(value: &serde_json::Value) -> (null: bool)
    ensures
        null == json_is_null(*value),
{
    value.is_null()
}

/// `Value::as_str` of the crate `serde_json`, copied.
#[verifier::external_body]
fn json_as_str(value: &serde_json::Value) -> (text: Option<String>)
    ensures
        match text {
            Some(t) => json_text(*value) == Some(t@),
            None => json_text(*value) is None,
        },
{
    value.as_str().map(|text| text.to_string())
}

/// `Value::to_string` of the crate `serde_json`.
#[verifier::external_body]
fn json_to_string(value: &serde_json::Value) -> (text: String)
    ensures
        text@ == json_rendering(*value),
{
    value.to_string()
}

/// `Value::from` of the crate `serde_json`, for a text: the JSON string
/// that holds it.
#[verifier::external_body]
fn json_from_text(text: &str) -> (value: serde_json::Value)
    ensures
        value == json_string(text@),
{
    serde_json::Value::from(text)
}

/// `bytes` is what was made of `text`.
pub open spec fn is_decoded(bytes: Result<Vec<u8>, String>, text: Seq<char>) -> bool {
    match bytes {
        Ok(b) => base64_decoded(text) == Ok::<Seq<u8>, Seq<char>>(b@),
        Err(cause) => base64_decoded(text) == Err::<Seq<u8>, Seq<char>>(cause@),
    }
}

/// `Engine::decode` of the crate `base64`, on its `STANDARD` engine: the
/// bytes, or what the error says.
#[verifier::external_body]
fn base64_decode(text: &str) -> (bytes: Result<Vec<u8>, String>)
    ensures
        match bytes {
            Ok(b) => base64_decoded(text@) == Ok::<Seq<u8>, Seq<char>>(b@),
            Err(cause) => base64_decoded(text@) == Err::<Seq<u8>, Seq<char>>(cause@),
        },
{
    base64::Engine::decode(&base64::engine::general_purpose::STANDARD, text)
        .map_err(|e| e.to_string())
}

/// What a reply to an account query says.
#[derive(Debug)]
pub enum AccountReply {
    /// The reply is not JSON; `cause` says why.
    Unreadable { cause: String },
    /// The node reports an error.
    Failed { error: String },
    /// The reply holds neither an error nor a result.
    NoResult,
    /// There is no account at the address.
    Missing,
    /// There is an account, but the reply does not hold its data.
    NoData,
    /// The data of the account, in base64.
    Data { base64: String },
}

/// The data of an account in a result's value: the text of the first
/// element of its member `data`.
pub open spec fn account_data(value: serde_json::Value) -> Option<Seq<char>> {
    match json_member(value, "data"@) {
        Some(data) => match json_element(data, 0) {
            Some(first) => json_text(first),
            None => None,
        },
        None => None,
    }
}

/// `reply` is what the reply `body` says. An error reported by the node
/// comes first; then the result is looked at: without a value, or with
/// the value `null`, there is no account.
pub open spec fn is_reply_of(reply: AccountReply, body: Seq<char>) -> bool {
    match json_document(body) {
        Err(cause) => reply matches AccountReply::Unreadable { cause: told } && told@ == cause,
        Ok(document) => match json_member(document, "error"@) {
            Some(error) => reply matches AccountReply::Failed { error: text } && text@
                == json_rendering(error),
            None => match json_member(document, "result"@) {
                None => reply is NoResult,
                Some(result) => match json_member(result, "value"@) {
                    None => reply is Missing,
                    Some(value) => if json_is_null(value) {
                        reply is Missing
                    } else {
                        match account_data(value) {
                            Some(data) => reply matches AccountReply::Data { base64 } && base64@
                                == data,
                            None => reply is NoData,
                        }
                    },
                },
            },
        },
    }
}

/// Reads the reply to an account query.
pub fn read_account_reply(body: &str) -> (reply: AccountReply)
    ensures
        is_reply_of(reply, body@),
{
    let document = match json_from_str(body) {
        Ok(document) => document,
        Err(cause) => return AccountReply::Unreadable { cause },
    };
    if let Some(error) = json_get(&document, "error") {
        return AccountReply::Failed { error: json_to_string(error) };
    }
    let result = match json_get(&document, "result") {
        Some(result) => result,
        None => return AccountReply::NoResult,
    };
    let value = match json_get(result, "value") {
        Some(value) => value,
        None => return AccountReply::Missing,
    };
    if json_null(value) {
        return AccountReply::Missing;
    }
    let data = match json_get(value, "data") {
        Some(data) => data,
        None => return AccountReply::NoData,
    };
    let first = match json_at(data, 0) {
        Some(first) => first,
        None => return AccountReply::NoData,
    };
    match json_as_str(first) {
        Some(base64) => AccountReply::Data { base64 },
        None => AccountReply::NoData,
    }
}

/// A reply as it is quoted: read as JSON and written out again, or,
/// where it is no JSON, written out as a JSON string.
pub open spec fn quoted_reply(body: Seq<char>) -> Seq<char> {
    match json_document(body) {
        Ok(document) => json_rendering(document),
        Err(_) => json_rendering(json_string(body)),
    }
}

/// Quotes a reply: reads it as JSON and writes it out again, or, where
/// it is no JSON, writes it out as a JSON string.
pub fn quote_reply(body: &str) -> (quoted: String)
    ensures
        quoted@ == quoted_reply(body@),
{
    match json_from_str(body) {
        Ok(document) => json_to_string(&document),
        Err(_) => {
            let text = json_from_text(body);
            json_to_string(&text)
        },
    }
}

/// Decodes the data of an account from base64, or says why it cannot.
pub fn decode_base64(text: &str) -> (bytes: Result<Vec<u8>, String>)
    ensures
        is_decoded(bytes, text@),
{
    base64_decode(text)
}

} // verus!
