//! The transcript cache: the latest transcript and when it was made.
//! Within the freshness window a request for the transcript is served
//! from here, and the model is not run again.
//!
//! Times are milliseconds on a clock that does not run backwards;
//! windows are whole seconds.

use vstd::prelude::*;
use vstd::string::*;

verus! {

/// Milliseconds that have gone by at `now` since `since`; none where the
/// clock reads earlier than `since`.
pub open spec fn elapsed(since: u64, now: u64) -> int {
    if now >= since {
        now - since
    } else {
        0
    }
}

/// Whether a transcript made at `updated_at` is served at `now`: it says
/// something, and it is younger than the window.
pub open spec fn is_fresh(text: Seq<char>, updated_at: u64, now: u64, window_secs: u64) -> bool {
    text.len() > 0 && elapsed(updated_at, now) < window_secs * 1000
}

/// Milliseconds that have gone by at `now` since `since`.
pub fn elapsed_ms(since: u64, now: u64) -> (ms: u64)
    ensures
        ms == elapsed(since, now),
{
    if now >= since {
        now - since
    } else {
        0
    }
}

/// Whether `ms` milliseconds are less than `secs` seconds.
pub fn within_secs(ms: u64, secs: u64) -> (within: bool)
    ensures
        within == (ms < secs * 1000),
{
    ms / 1000 < secs
}

/// Whether `ms` milliseconds are more than `secs` seconds.
pub fn beyond_secs(ms: u64, secs: u64) -> (beyond: bool)
    ensures
        beyond == (ms > secs * 1000),
{
    ms / 1000 > secs || (ms / 1000 == secs && ms % 1000 > 0)
}

/// The latest transcript and the time of the attempt that made it.
#[derive(Debug)]
pub struct TranscriptCache {
    text: String,
    updated_at: u64,
}

/// What a request for the transcript leads to.
#[derive(Debug)]
pub enum OnDemand {
    /// The cached transcript is fresh: it is the answer.
    Cached(String),
    /// The cache cannot serve: a transcription of the window is to be
    /// made, whatever the window holds, and its outcome to be taken in.
    Transcribe,
}

impl TranscriptCache {
    /// The cached transcript.
    pub closed spec fn text(&self) -> Seq<char> {
        self.text@
    }

    /// When the cached transcript was made.
    pub closed spec fn updated_at(&self) -> u64 {
        self.updated_at
    }

    /// Whether the cache serves its transcript at `now`.
    pub open spec fn serves(&self, now: u64, window_secs: u64) -> bool {
        is_fresh(self.text(), self.updated_at(), now, window_secs)
    }

    /// A cache without a transcript, started at `now`.
    pub fn new(now: u64) -> (cache: Self)
        ensures
            cache.text() == Seq::<char>::empty(),
            cache.updated_at() == now,
    {
        TranscriptCache { text: String::new(), updated_at: now }
    }

    /// Puts the outcome of a model run in the cache, whatever it says:
    /// the time is that of the latest attempt.
    pub fn store(&mut self, text: String, now: u64)
        ensures
            final(self).text() == text@,
            final(self).updated_at() == now,
    {
        self.text = text;
        self.updated_at = now;
    }

    /// The cached transcript, as long as it is fresh.
    pub fn fresh(&self, now: u64, window_secs: u64) -> (hit: Option<String>)
        ensures
            match hit {
                Some(t) => self.serves(now, window_secs) && t@ == self.text(),
                None => !self.serves(now, window_secs),
            },
    {
        if within_secs(elapsed_ms(self.updated_at, now), window_secs) && self.text.as_str().unicode_len()
            > 0 {
            Some(self.text.clone())
        } else {
            None
        }
    }

    /// The latest transcript, fresh or not.
    pub fn latest(&self) -> (text: String)
        ensures
            text@ == self.text(),
    {
        self.text.clone()
    }

    /// Decides on a request for the transcript at `now`: the cached
    /// transcript while it is fresh, a transcription otherwise.
    pub fn on_demand(&self, now: u64, window_secs: u64) -> (plan: OnDemand)
        ensures
            match plan {
                OnDemand::Cached(t) => self.serves(now, window_secs) && t@ == self.text(),
                OnDemand::Transcribe => !self.serves(now, window_secs),
            },
    {
        match self.fresh(now, window_secs) {
            Some(t) => OnDemand::Cached(t),
            None => OnDemand::Transcribe,
        }
    }

    /// Takes in the outcome of a transcription that ended at `now`, and
    /// hands it on. A transcript is stored whatever it says, an empty one
    /// too; a failure leaves the cache as it was.
    pub fn settle(&mut self, outcome: Result<String, String>, now: u64) -> (answer: Result<
        String,
        String,
    >)
        ensures
            match outcome {
                Ok(text) => {
                    &&& final(self).text() == text@
                    &&& final(self).updated_at() == now
                    &&& answer matches Ok(t) && t@ == text@
                },
                Err(why) => {
                    &&& final(self).text() == old(self).text()
                    &&& final(self).updated_at() == old(self).updated_at()
                    &&& answer == Err::<String, String>(why)
                },
            },
    {
        match outcome {
            Ok(text) => {
                self.store(text.clone(), now);
                Ok(text)
            },
            Err(why) => Err(why),
        }
    }
}

/// What is stored is what is served, for as long as the window lasts and
/// no longer: right after a transcript that says something was stored
/// the cache serves it, and once the window has gone by it does not.
pub proof fn lemma_cache_serves_within_window(text: Seq<char>, stored_at: u64, now: u64, window_secs: u64)
    ensures
        text.len() == 0 ==> !is_fresh(text, stored_at, now, window_secs),
        text.len() > 0 && window_secs > 0 ==> is_fresh(text, stored_at, stored_at, window_secs),
        now >= stored_at && now - stored_at >= window_secs * 1000 ==> !is_fresh(
            text,
            stored_at,
            now,
            window_secs,
        ),
{
}

} // verus!
