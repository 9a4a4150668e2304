//! Breaking a vague agenda item down into goals that can be tracked: the
//! prompt that asks a model for them, and the reading of its reply.

use crate::backend::{enclosed, extract_json_array};
use crate::text::char_len;
use vstd::prelude::*;
use vstd::string::*;

verus! {

/// The prompt, up to the agenda item.
pub const EXPAND_OPEN: &'static str =
    "You are a meeting assistant. The user has a vague agenda item: \"";

/// The prompt, after the agenda item.
pub const EXPAND_CLOSE: &'static str =
    "\".\n        Break this down into 3-5 specific, actionable sub-items or questions that can be tracked in a meeting.\n        Return ONLY a JSON array of strings.\n        Example: [\"Discuss Q1 revenue\", \"Review marketing budget\", \"Plan Q2 hiring\"]";

/// The address of the model, up to the model's name.
pub const MODELS_URL: &'static str = "https://generativelanguage.googleapis.com/v1beta/models/";

/// The address of the model, between the model's name and the key.
pub const GENERATE_CALL: &'static str = ":generateContent?key=";

/// What is said where no key is configured.
pub const KEY_REQUIRED: &'static str = "Gemini API Key is required";

/// What is said of a reply without an array.
pub const NO_ARRAY: &'static str = "No JSON array found";

/// What stands before the parser's words.
pub const PARSE_FAILED: &'static str = "Failed to parse JSON: ";

/// What a JSON text holds where it is an array of strings, and `None`
/// where it is anything else.
pub uninterp spec fn json_strings(text: Seq<char>) -> Option<Seq<Seq<char>>>;

/// Why an agenda item could not be broken down.
#[derive(Debug)]
pub enum ExpandError {
    /// No key for the model is configured.
    MissingApiKey,
    /// The reply holds no `[` with a `]` after it.
    NoArray,
    /// What the reply holds between its brackets is no array of strings;
    /// the parser's own words say why.
    Malformed(String),
}

/// The goals that a reply lists: what the part from its first `[`
/// through its last `]` holds, where that is an array of strings.
pub open spec fn sub_items_of(reply: Seq<char>) -> Option<Seq<Seq<char>>> {
    match enclosed(reply, '[', ']') {
        Some(array) => json_strings(array),
        None => None,
    }
}

/// Reads `text` as a JSON array of strings with `serde_json::from_str`.
/// The outcome depends on `text` alone: the strings of the array, or the
/// parser's message where `text` is no such array.
#[verifier::external_body]
fn parse_string_array(text: &str) -> (parsed: Result<Vec<String>, String>)
    ensures
        json_strings(text@) == match parsed {
            Ok(items) => Some(items.deep_view()),
            Err(_) => None,
        },
{
    serde_json::from_str::<Vec<String>>(text).map_err(|e| e.to_string())
}

impl ExpandError {
    /// The error in words.
    pub fn message(&self) -> (text: String)
        ensures
            text@ == match *self {
                ExpandError::MissingApiKey => KEY_REQUIRED@,
                ExpandError::NoArray => NO_ARRAY@,
                ExpandError::Malformed(why) => PARSE_FAILED@ + why@,
            },
    {
        match self {
            ExpandError::MissingApiKey => KEY_REQUIRED.to_owned(),
            ExpandError::NoArray => NO_ARRAY.to_owned(),
            ExpandError::Malformed(why) => {
                let mut text = PARSE_FAILED.to_owned();
                text.append(why.as_str());
                text
            },
        }
    }
}

/// Nothing is asked of the model without a key.
pub fn check_api_key(api_key: &str) -> (checked: Result<(), ExpandError>)
    ensures
        checked is Ok <==> api_key@.len() > 0,
        checked matches Err(e) ==> e is MissingApiKey,
{
    if char_len(api_key) == 0 {
        Err(ExpandError::MissingApiKey)
    } else {
        Ok(())
    }
}

/// The prompt that asks for the goals behind `item_text`.
pub fn expand_prompt(item_text: &str) -> (prompt: String)
    ensures
        prompt@ == EXPAND_OPEN@ + item_text@ + EXPAND_CLOSE@,
{
    let mut prompt = EXPAND_OPEN.to_owned();
    prompt.append(item_text);
    prompt.append(EXPAND_CLOSE);
    prompt
}

/// Where the prompt is sent.
pub fn expand_url(model: &str, api_key: &str) -> (url: String)
    ensures
        url@ == MODELS_URL@ + model@ + GENERATE_CALL@ + api_key@,
{
    let mut url = MODELS_URL.to_owned();
    url.append(model);
    url.append(GENERATE_CALL);
    url.append(api_key);
    url
}

/// The goals that a reply lists, given what the part between its
/// brackets was read as.
pub fn sub_items_from(parsed: Result<Vec<String>, String>) -> (items: Result<
    Vec<String>,
    ExpandError,
>)
    ensures
        match items {
            Ok(list) => parsed == Ok::<Vec<String>, String>(list),
            Err(ExpandError::Malformed(why)) => parsed == Err::<Vec<String>, String>(why),
            Err(_) => false,
        },
{
    match parsed {
        Ok(list) => Ok(list),
        Err(why) => Err(ExpandError::Malformed(why)),
    }
}

/// The goals that a reply lists: the strings of the JSON array that
/// stands between the reply's first `[` and its last `]`.
pub fn parse_sub_items(reply: &str) -> (items: Result<Vec<String>, ExpandError>)
    ensures
        match items {
            Ok(list) => sub_items_of(reply@) == Some(list.deep_view()),
            Err(ExpandError::NoArray) => enclosed(reply@, '[', ']') is None,
            Err(ExpandError::Malformed(_)) => enclosed(reply@, '[', ']') is Some && sub_items_of(
                reply@,
            ) is None,
            Err(ExpandError::MissingApiKey) => false,
        },
{
    match extract_json_array(reply) {
        None => Err(ExpandError::NoArray),
        Some(array) => sub_items_from(parse_string_array(array.as_str())),
    }
}

} // verus!
