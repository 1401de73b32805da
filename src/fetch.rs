//! Which request fetches a contract's source, and how the answer is read.
use vstd::prelude::*;

use crate::address::{address_text, Address};
use crate::chain::Chain;
use crate::json::{element, member, model_element, model_member, parse_json, parsed_json, JsonModel};

verus! {

/// Why a contract's source could not be had.
#[derive(Debug, Clone, PartialEq, Eq)]
pub enum FetchError {
    /// The chain is known but has no explorer to ask; nothing was sent.
    UnsupportedChain(Chain),
    /// The request failed on its way, or the explorer answered with an error status.
    Transport(String),
    /// The explorer's answer is no JSON.
    MalformedJson,
    /// The answer is JSON, but holds no string at `result[0].SourceCode`.
    ApiShape,
}

/// The explorer request that asks Ethereum's explorer for a contract's source.
pub open spec fn ethereum_source_url(address: Seq<u8>) -> Seq<char> {
    "https://api.etherscan.io/api?module=contract&action=getsourcecode&address="@ + address_text(
        address,
    )
}

/// The URL to fetch a contract's source from; an unsupported chain is refused
/// before any request is made.
pub fn source_request_url(chain: Chain, address: &Address) -> (r: Result<String, FetchError>)
    ensures
        chain == Chain::Ethereum ==> (r matches Ok(u) && u@ == ethereum_source_url(address.bytes@)),
        chain != Chain::Ethereum ==> r == Err::<String, FetchError>(
            FetchError::UnsupportedChain(chain),
        ),
{
    match chain {
        Chain::Ethereum => {
            let mut url = String::from_str(
                "https://api.etherscan.io/api?module=contract&action=getsourcecode&address=",
            );
            let text = address.to_hex_string();
            url.append(text.as_str());
            Ok(url)
        },
        _ => Err(FetchError::UnsupportedChain(chain)),
    }
}

/// The text at `result[0].SourceCode` of an explorer's answer, when it is a string.
pub open spec fn source_code_of(v: JsonModel) -> Option<Seq<char>> {
    match model_member(v, "result"@) {
        Some(res) => match model_element(res, 0) {
            Some(first) => match model_member(first, "SourceCode"@) {
                Some(JsonModel::Str(t)) => Some(t),
                _ => None,
            },
            None => None,
        },
        None => None,
    }
}

/// Reads the source text at `result[0].SourceCode` of an explorer's answer.
pub fn extract_source_code(body: &str) -> (r: Result<String, FetchError>)
    ensures
        r == Err::<String, FetchError>(FetchError::MalformedJson) <==> parsed_json(body@) is None,
        parsed_json(body@) matches Some(v) ==> match source_code_of(v) {
            Some(t) => (r matches Ok(s) && s@ == t),
            None => r == Err::<String, FetchError>(FetchError::ApiShape),
        },
{
    let parsed = match parse_json(body) {
        Ok(v) => v,
        Err(_) => return Err(FetchError::MalformedJson),
    };
    let result = match member(&parsed, "result") {
        Some(v) => v,
        None => return Err(FetchError::ApiShape),
    };
    let first = match element(result, 0) {
        Some(v) => v,
        None => return Err(FetchError::ApiShape),
    };
    let code = match member(first, "SourceCode") {
        Some(v) => v,
        None => return Err(FetchError::ApiShape),
    };
    match code.as_str() {
        Some(s) => Ok(String::from_str(s)),
        None => Err(FetchError::ApiShape),
    }
}

} // verus!
