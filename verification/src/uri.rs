//! Where off-chain metadata lives: the schemes a metadata URI may use and
//! the gateway addresses they are rewritten to.

use vstd::prelude::*;
use vstd::string::StrSliceExecFns;
use vstd::string::StringExecFns;
use crate::text::{starts_with, unpad, unpadded};

verus! {

/// The address a URI is fetched from: `ipfs://X` becomes
/// `https://ipfs.io/ipfs/X`, `ar://X` becomes `https://arweave.net/X`, a
/// path `/X` becomes `https://arweave.net/X`, and any other URI stays.
pub open spec fn rewritten(uri: Seq<char>) -> Seq<char> {
    if "ipfs://"@.is_prefix_of(uri) {
        "https://ipfs.io/ipfs/"@ + uri.skip("ipfs://"@.len() as int)
    } else if "ar://"@.is_prefix_of(uri) {
        "https://arweave.net/"@ + uri.skip("ar://"@.len() as int)
    } else if "/"@.is_prefix_of(uri) {
        "https://arweave.net"@ + uri
    } else {
        uri
    }
}

/// Whether an address can be fetched over HTTP or HTTPS.
pub open spec fn is_http(url: Seq<char>) -> bool {
    "http://"@.is_prefix_of(url) || "https://"@.is_prefix_of(url)
}

/// What is to be done about the URI of a metadata account.
#[derive(Debug)]
pub enum Resolution {
    /// The account names no URI.
    NoUri,
    /// The URI, rewritten, is not one that can be fetched.
    Unresolved { uri: String },
    /// The off-chain metadata is to be fetched from `url`.
    Fetch { url: String },
}

/// The resolution of the URI field `raw` of a metadata account.
pub open spec fn is_resolution_of(resolution: Resolution, raw: Seq<char>) -> bool {
    let uri = unpadded(raw);
    match resolution {
        Resolution::NoUri => uri.len() == 0,
        Resolution::Unresolved { uri: kept } => {
            &&& uri.len() > 0
            &&& !is_http(rewritten(uri))
            &&& kept@ == rewritten(uri)
        },
        Resolution::Fetch { url } => {
            &&& uri.len() > 0
            &&& is_http(rewritten(uri))
            &&& url@ == rewritten(uri)
        },
    }
}

/// The address a URI is fetched from.
pub fn rewrite_uri(uri: &str) -> (url: String)
    ensures
        url@ == rewritten(uri@),
{
    let n = uri.unicode_len();
    if starts_with(uri, "ipfs://") {
        let skip = "ipfs://".unicode_len();
        let mut url = String::from_str("https://ipfs.io/ipfs/");
        url.append(uri.substring_char(skip, n));
        url
    } else if starts_with(uri, "ar://") {
        let skip = "ar://".unicode_len();
        let mut url = String::from_str("https://arweave.net/");
        url.append(uri.substring_char(skip, n));
        url
    } else if starts_with(uri, "/") {
        let mut url = String::from_str("https://arweave.net");
        url.append(uri);
        url
    } else {
        String::from_str(uri)
    }
}

/// Whether an address can be fetched over HTTP or HTTPS.
pub fn is_http_url(url: &str) -> (b: bool)
    ensures
        b == is_http(url@),
{
    starts_with(url, "http://") || starts_with(url, "https://")
}

/// Decides what is to be done about the URI field of a metadata account.
pub fn resolve_uri(raw: &str) -> (resolution: Resolution)
    ensures
        is_resolution_of(resolution, raw@),
{
    let uri = unpad(raw);
    if uri.as_str().unicode_len() == 0 {
        return Resolution::NoUri;
    }
    let url = rewrite_uri(uri.as_str());
    if is_http_url(url.as_str()) {
        Resolution::Fetch { url }
    } else {
        Resolution::Unresolved { uri: url }
    }
}

/// How the schemes are rewritten, whatever follows them: the IPFS and
/// Arweave schemes go to their gateways, a path goes to the Arweave
/// gateway, and each of these can be fetched. A URI of none of these forms
/// stays as it is.
pub proof fn lemma_rewrite_schemes(rest: Seq<char>)
    ensures
        rewritten("ipfs://"@ + rest) == "https://ipfs.io/ipfs/"@ + rest,
        rewritten("ar://"@ + rest) == "https://arweave.net/"@ + rest,
        rewritten("/"@ + rest) == "https://arweave.net/"@ + rest,
        is_http(rewritten("ipfs://"@ + rest)),
        is_http(rewritten("ar://"@ + rest)),
        is_http(rewritten("/"@ + rest)),
        !"ipfs://"@.is_prefix_of(rest) && !"ar://"@.is_prefix_of(rest) && !"/"@.is_prefix_of(rest)
            ==> rewritten(rest) == rest,
{
    reveal_strlit("ipfs://");
    reveal_strlit("ar://");
    reveal_strlit("/");
    reveal_strlit("https://");
    reveal_strlit("http://");
    reveal_strlit("https://ipfs.io/ipfs/");
    reveal_strlit("https://arweave.net/");
    reveal_strlit("https://arweave.net");
    let ipfs = "ipfs://"@ + rest;
    let ar = "ar://"@ + rest;
    let path = "/"@ + rest;
    assert(ipfs.subrange(0, 7) =~= "ipfs://"@);
    assert(ipfs.skip(7) =~= rest);
    assert(ar.subrange(0, 5) =~= "ar://"@);
    assert(ar.skip(5) =~= rest);
    assert(!"ipfs://"@.is_prefix_of(ar)) by {
        if "ipfs://"@.is_prefix_of(ar) {
            assert(ar.subrange(0, 7)[0] == 'i');
        }
    }
    assert(path.subrange(0, 1) =~= "/"@);
    assert(!"ipfs://"@.is_prefix_of(path)) by {
        if "ipfs://"@.is_prefix_of(path) {
            assert(path.subrange(0, 7)[0] == 'i');
        }
    }
    assert(!"ar://"@.is_prefix_of(path)) by {
        if "ar://"@.is_prefix_of(path) {
            assert(path.subrange(0, 5)[0] == 'a');
        }
    }
    assert("https://arweave.net"@ + path =~= "https://arweave.net/"@ + rest);
    assert(("https://ipfs.io/ipfs/"@ + rest).subrange(0, 8) =~= "https://"@);
    assert(("https://arweave.net/"@ + rest).subrange(0, 8) =~= "https://"@);
}

} // verus!
