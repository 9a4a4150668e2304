//! The language-model backend as the library sees it: where a request
//! goes, what it holds, and which part of a reply is looked at.

use crate::text::{char_len, find_char, rfind_char, trim_end_matches, without_trailing};
use vstd::prelude::*;
use vstd::string::*;

verus! {

/// Route of the "generate text from a prompt" call.
pub const GENERATE_ROUTE: &'static str = "/api/generate";

/// Route of the "embed a text" call.
pub const EMBEDDINGS_ROUTE: &'static str = "/api/embeddings";

/// A request for text.
#[derive(Debug)]
pub struct OllamaRequest {
    pub model: String,
    pub prompt: String,
    pub stream: bool,
}

/// The reply to a request for text: what the model wrote, as it wrote it.
#[derive(Debug)]
pub struct OllamaResponse {
    pub response: String,
}

/// A request for the embedding of a text.
#[derive(Debug)]
pub struct OllamaEmbeddingRequest {
    pub model: String,
    pub prompt: String,
}

/// The address of a route under a base address, which may or may not end
/// in slashes.
pub open spec fn endpoint(base_url: Seq<char>, route: Seq<char>) -> Seq<char> {
    without_trailing(base_url, '/') + route
}

/// The part of `text` from its first `open` through its last `close`,
/// where the one stands before the other.
pub open spec fn enclosed(text: Seq<char>, open: char, close: char) -> Option<Seq<char>> {
    match (text.index_of_first(open), text.index_of_last(close)) {
        (Some(first), Some(last)) => if first < last {
            Some(text.subrange(first, last + 1))
        } else {
            None
        },
        _ => None,
    }
}

/// The address of `route` under `base_url`.
pub fn endpoint_url(base_url: &str, route: &str) -> (url: String)
    ensures
        url@ == endpoint(base_url@, route@),
{
    let mut url = trim_end_matches(base_url, '/').to_owned();
    url.append(route);
    url
}

/// Where requests for text go.
pub fn generate_url(base_url: &str) -> (url: String)
    ensures
        url@ == endpoint(base_url@, GENERATE_ROUTE@),
{
    endpoint_url(base_url, GENERATE_ROUTE)
}

/// Where requests for embeddings go.
pub fn embeddings_url(base_url: &str) -> (url: String)
    ensures
        url@ == endpoint(base_url@, EMBEDDINGS_ROUTE@),
{
    endpoint_url(base_url, EMBEDDINGS_ROUTE)
}

/// A request for the whole reply at once.
pub fn generate_request(model: &str, prompt: String) -> (request: OllamaRequest)
    ensures
        request.model@ == model@,
        request.prompt == prompt,
        !request.stream,
{
    OllamaRequest { model: model.to_owned(), prompt, stream: false }
}

/// A request for the embedding of `text`.
pub fn embedding_request(model: &str, text: &str) -> (request: OllamaEmbeddingRequest)
    ensures
        request.model@ == model@,
        request.prompt@ == text@,
{
    OllamaEmbeddingRequest { model: model.to_owned(), prompt: text.to_owned() }
}

/// The part of `raw` from its first `open` through its last `close`.
/// There is none where either is missing or the last `close` stands
/// before the first `open`.
pub fn extract_enclosed(raw: &str, open: char, close: char) -> (part: Option<String>)
    ensures
        match part {
            Some(p) => enclosed(raw@, open, close) == Some(p@),
            None => enclosed(raw@, open, close) is None,
        },
{
    let len = char_len(raw);
    match find_char(raw, open) {
        Some(first) => match rfind_char(raw, close) {
            Some(last) => {
                proof {
                    raw@.index_of_last_ensures(close);
                }
                assert(last < len);
                if first < last {
                    Some(raw.substring_char(first, last + 1).to_owned())
                } else {
                    None
                }
            },
            None => None,
        },
        None => None,
    }
}

/// The JSON object in a reply that may say more before and after it.
pub fn extract_json_object(raw: &str) -> (object: Option<String>)
    ensures
        match object {
            Some(o) => enclosed(raw@, '{', '}') == Some(o@),
            None => enclosed(raw@, '{', '}') is None,
        },
{
    extract_enclosed(raw, '{', '}')
}

/// The JSON array in a reply that may say more before and after it.
pub fn extract_json_array(raw: &str) -> (array: Option<String>)
    ensures
        match array {
            Some(a) => enclosed(raw@, '[', ']') == Some(a@),
            None => enclosed(raw@, '[', ']') is None,
        },
{
    extract_enclosed(raw, '[', ']')
}

} // verus!
