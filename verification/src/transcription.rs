//! What surrounds a speech-to-text run: the silence gate before it, the
//! decoding options handed to the model, and the clean-up of what the
//! model returns.

use crate::text::{
    char_len, equal, find, first_occurrence, is_space, join, joined, lemma_trimmed_is_idempotent,
    lemma_trimmed_shape, skip, starts_with, trim, trimmed,
};
use vstd::prelude::*;
use vstd::string::*;

verus! {

/// Beam width of the accurate mode.
pub const BEAM_SIZE: i32 = 5;

/// Beam patience of the accurate mode, in millionths: one whole.
pub const BEAM_PATIENCE: u32 = 1_000_000;

/// The text that primes every decoding: it biases the model towards
/// punctuation and capitals and away from filler words.
pub open spec fn guidance() -> Seq<char> {
    "The following is a high-quality, punctuated transcript of a professional conversation. It includes proper capitalization and ignores filler words like 'um' or 'uh'."@
}

/// How the guidance begins. A transcript that begins like this is taken
/// to quote the guidance back.
pub open spec fn guidance_opening() -> Seq<char> {
    "The following is a high-quality"@
}

/// How the guidance ends, with its closing quote.
pub open spec fn quoted_ending() -> Seq<char> {
    "uh'."@
}

/// How the guidance ends where the model left the closing quote out.
pub open spec fn plain_ending() -> Seq<char> {
    "uh."@
}

/// The name of the accurate mode; every other name selects the fast one.
pub open spec fn accuracy_mode() -> Seq<char> {
    "accuracy"@
}

/// `text` without the guidance at its start, where the model quoted it
/// back: everything through the first ending found is dropped, the
/// quoted ending being looked for first, and the rest is trimmed.
pub open spec fn without_echo(text: Seq<char>) -> Seq<char> {
    if guidance_opening().is_prefix_of(text) {
        match first_occurrence(text, quoted_ending()) {
            Some(at) => trimmed(text.skip(at + quoted_ending().len())),
            None => match first_occurrence(text, plain_ending()) {
                Some(at) => trimmed(text.skip(at + plain_ending().len())),
                None => text,
            },
        }
    } else {
        text
    }
}

/// The transcript that is made of the model's raw output.
pub open spec fn cleaned(raw: Seq<char>) -> Seq<char> {
    without_echo(trimmed(raw))
}

/// The decoding strategy.
#[derive(Clone, Copy, Debug, PartialEq, Eq, Structural)]
pub enum Decoding {
    /// Greedy decoding of the single best candidate.
    Greedy { best_of: i32 },
    /// Beam search; `patience` is counted in millionths.
    BeamSearch { beam_size: i32, patience: u32 },
}

/// The strategy that a mode name selects.
pub open spec fn decoding_of(mode: Seq<char>) -> Decoding {
    if mode == accuracy_mode() {
        Decoding::BeamSearch { beam_size: BEAM_SIZE, patience: BEAM_PATIENCE }
    } else {
        Decoding::Greedy { best_of: 1 }
    }
}

/// Everything the model is told for one run.
#[derive(Debug)]
pub struct DecodeOptions {
    pub strategy: Decoding,
    pub threads: usize,
    pub language: String,
    /// The priming text.
    pub initial_prompt: String,
    /// Nothing is carried over from one run to the next.
    pub no_context: bool,
    pub suppress_non_speech: bool,
    pub suppress_blank: bool,
    /// A window holds one utterance at most.
    pub single_segment: bool,
}

impl DecodeOptions {
    /// The options for `mode`, `language` and `threads`; all else is fixed.
    pub open spec fn is_for(&self, mode: Seq<char>, language: Seq<char>, threads: usize) -> bool {
        &&& self.strategy == decoding_of(mode)
        &&& self.threads == threads
        &&& self.language@ == language
        &&& self.initial_prompt@ == guidance()
        &&& self.no_context
        &&& self.suppress_non_speech
        &&& self.suppress_blank
        &&& self.single_segment
    }
}

/// What to do with a snapshot of the window.
#[derive(Debug)]
pub enum Plan {
    /// No model run: the transcript is empty.
    Skip,
    /// Run the model with these options.
    Decode(DecodeOptions),
}

/// Whether a snapshot is passed over: it is empty, or its energy lies
/// under the threshold.
pub open spec fn is_skipped(sample_count: usize, rms: u32, threshold: u32) -> bool {
    sample_count == 0 || rms < threshold
}

/// The decoding strategy for a transcription mode.
pub fn decoding_for(mode: &str) -> (strategy: Decoding)
    ensures
        strategy == decoding_of(mode@),
{
    if equal(mode, "accuracy") {
        Decoding::BeamSearch { beam_size: BEAM_SIZE, patience: BEAM_PATIENCE }
    } else {
        Decoding::Greedy { best_of: 1 }
    }
}

/// The options for one run of the model.
pub fn decode_options(mode: &str, language: &str, threads: usize) -> (options: DecodeOptions)
    ensures
        options.is_for(mode@, language@, threads),
{
    DecodeOptions {
        strategy: decoding_for(mode),
        threads,
        language: language.to_owned(),
        initial_prompt: "The following is a high-quality, punctuated transcript of a professional conversation. It includes proper capitalization and ignores filler words like 'um' or 'uh'.".to_owned(),
        no_context: true,
        suppress_non_speech: true,
        suppress_blank: true,
        single_segment: true,
    }
}

/// Decides on a snapshot of `sample_count` samples whose energy, measured
/// on the samples as they were captured, is `rms`: an empty or silent
/// snapshot is passed over without a model run.
pub fn plan_transcription(
    sample_count: usize,
    rms: u32,
    threshold: u32,
    mode: &str,
    language: &str,
    threads: usize,
) -> (plan: Plan)
    ensures
        plan is Skip <==> is_skipped(sample_count, rms, threshold),
        plan matches Plan::Decode(options) ==> options.is_for(mode@, language@, threads),
{
    if sample_count == 0 || rms < threshold {
        Plan::Skip
    } else {
        Plan::Decode(decode_options(mode, language, threads))
    }
}

/// Cleans the model's raw output: the white space at its ends goes, and
/// so does the guidance where the model quoted it back.
pub fn clean_transcript(raw: &str) -> (text: String)
    ensures
        text@ == cleaned(raw@),
{
    let text = trim(raw);
    if !starts_with(text, "The following is a high-quality") {
        return text.to_owned();
    }
    proof {
        reveal_strlit("uh'.");
        reveal_strlit("uh.");
    }
    let len = char_len(text);
    match find(text, "uh'.") {
        Some(at) => {
            assert(at + 4 <= len);
            trim(skip(text, at + 4)).to_owned()
        },
        None => match find(text, "uh.") {
            Some(at) => {
                assert(at + 3 <= len);
                trim(skip(text, at + 3)).to_owned()
            },
            None => text.to_owned(),
        },
    }
}

/// The transcript of one run: the segments that the model produced, put
/// together in order and cleaned.
pub fn finish_transcription(segments: &Vec<String>) -> (text: String)
    ensures
        text@ == cleaned(joined(segments.deep_view(), Seq::empty())),
{
    proof {
        reveal_strlit("");
        assert(""@ =~= Seq::<char>::empty());
    }
    let raw = join(segments, "");
    clean_transcript(raw.as_str())
}

/// A transcript never begins or ends with white space.
pub proof fn lemma_cleaned_is_trimmed(raw: Seq<char>)
    ensures
        trimmed(cleaned(raw)) == cleaned(raw),
        cleaned(raw).len() > 0 ==> !is_space(cleaned(raw).first()) && !is_space(
            cleaned(raw).last(),
        ),
{
    let text = trimmed(raw);
    lemma_trimmed_is_idempotent(raw);
    lemma_trimmed_shape(raw);
    if guidance_opening().is_prefix_of(text) {
        match first_occurrence(text, quoted_ending()) {
            Some(at) => {
                lemma_trimmed_is_idempotent(text.skip(at + quoted_ending().len()));
                lemma_trimmed_shape(text.skip(at + quoted_ending().len()));
            },
            None => match first_occurrence(text, plain_ending()) {
                Some(at) => {
                    lemma_trimmed_is_idempotent(text.skip(at + plain_ending().len()));
                    lemma_trimmed_shape(text.skip(at + plain_ending().len()));
                },
                None => {},
            },
        }
    }
}

/// A transcript that does not begin like the guidance is only trimmed.
pub proof fn lemma_plain_transcript_is_only_trimmed(raw: Seq<char>)
    requires
        !guidance_opening().is_prefix_of(trimmed(raw)),
    ensures
        cleaned(raw) == trimmed(raw),
{
}

} // verus!
