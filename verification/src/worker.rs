//! The gates that stand before a scoring pass on each tick of the
//! worker, and the status lines that tell what a tick came to.

use crate::cache::{beyond_secs, elapsed, elapsed_ms};
use crate::fixed::{fraction_text, push_fraction};
use crate::text::{char_len, decimal, equal, push_decimal};
use vstd::prelude::*;
use vstd::string::*;

verus! {

/// The status line of an agenda without goals.
pub const EMPTY_AGENDA: &'static str = "Empty agenda";

/// The status line at the start of a scoring pass.
pub const SCANNING: &'static str = "Scanning agenda...";

/// The status line of silence, up to the energy.
pub const SILENCE_OPEN: &'static str = "Listening... (silence, rms: ";

/// The status line of an unchanged transcript, up to its length.
pub const LISTENING_OPEN: &'static str = "Listening... (";

/// The status line of an unchanged transcript, after its length.
pub const NO_CHANGE_CLOSE: &'static str = " chars, no change)";

/// The status line of a short transcript, up to its length.
pub const INSUFFICIENT_OPEN: &'static str = "Insufficient text (";

/// The status line of a short transcript, after its length.
pub const CHARS_CLOSE: &'static str = " chars)";

/// The status line of a pass that touched no goal, up to the length.
pub const NO_UPDATES_OPEN: &'static str = "No updates (";

/// The status line of a pass, between the goals and the length.
pub const UPDATED_OPEN: &'static str = " updated (";

/// The status line of a pass, after the length.
pub const RUN_CLOSE: &'static str = " chars, ollama run)";

/// What stands before the identifier of a goal.
pub const GOAL: &'static str = "Goal ";

/// What stands between two goals.
pub const LIST_SEPARATOR: &'static str = ", ";

/// The closing bracket of a status line.
pub const CLOSE: &'static str = ")";

/// Least time between two volume readings that are sent out, in
/// milliseconds.
pub const VOLUME_INTERVAL_MS: u64 = 100;

/// Holds something that happens often down to once per interval.
#[derive(Clone, Copy, Debug, PartialEq, Eq, Structural)]
pub struct Throttle {
    /// When it was last let through.
    pub last: u64,
    /// The interval, in milliseconds.
    pub every_ms: u64,
}

impl Throttle {
    /// Whether the interval has gone by at `now`.
    pub open spec fn is_due(self, now: u64) -> bool {
        elapsed(self.last, now) >= self.every_ms
    }

    /// A throttle that starts counting at `now`.
    pub fn new(now: u64, every_ms: u64) -> (throttle: Self)
        ensures
            throttle == (Throttle { last: now, every_ms }),
    {
        Throttle { last: now, every_ms }
    }

    /// Asks at `now` whether to go ahead. Going ahead starts the interval
    /// anew; being held back changes nothing.
    pub fn poll(&mut self, now: u64) -> (go: bool)
        ensures
            go == old(self).is_due(now),
            final(self).every_ms == old(self).every_ms,
            final(self).last == if go {
                now
            } else {
                old(self).last
            },
    {
        if elapsed_ms(self.last, now) >= self.every_ms {
            self.last = now;
            true
        } else {
            false
        }
    }
}

/// What the gates need to know of the configuration.
#[derive(Clone, Copy, Debug, PartialEq, Eq, Structural)]
pub struct GateSettings {
    /// Least number of characters that a transcript must have to be
    /// scored.
    pub min_chars: usize,
    /// Seconds that must have gone by since the last pass.
    pub cooldown_secs: u64,
}

/// What a tick comes to, once the transcript is there.
#[derive(Clone, Copy, Debug, PartialEq, Eq, Structural)]
pub enum Verdict {
    /// No scoring model is configured.
    NoModel,
    /// There is no goal to score.
    EmptyAgenda,
    /// The last pass is too recent.
    CoolingDown,
    /// The transcript is empty.
    Silence,
    /// The transcript is the one that was scored last.
    Unchanged,
    /// The transcript is too short.
    InsufficientText,
    /// A scoring pass is due.
    Score,
}

/// Whether the cooldown has gone by at `now`: there was no pass yet, or
/// more than `cooldown_secs` have gone by since the last.
pub open spec fn cooled_down(last_pass: Option<u64>, now: u64, cooldown_secs: u64) -> bool {
    match last_pass {
        Some(at) => elapsed(at, now) > cooldown_secs * 1000,
        None => true,
    }
}

/// The gates, in their order: the first that holds the tick back gives
/// the verdict.
pub open spec fn verdict_of(
    has_model: bool,
    agenda_len: usize,
    last_pass: Option<u64>,
    last_submitted: Seq<char>,
    transcript: Seq<char>,
    now: u64,
    settings: GateSettings,
) -> Verdict {
    if !has_model {
        Verdict::NoModel
    } else if agenda_len == 0 {
        Verdict::EmptyAgenda
    } else if !cooled_down(last_pass, now, settings.cooldown_secs) {
        Verdict::CoolingDown
    } else if transcript.len() == 0 {
        Verdict::Silence
    } else if transcript == last_submitted {
        Verdict::Unchanged
    } else if transcript.len() < settings.min_chars {
        Verdict::InsufficientText
    } else {
        Verdict::Score
    }
}

/// What the gates remember from one tick to the next: the transcript
/// that was last put to a scoring pass, and when.
#[derive(Debug)]
pub struct AgendaGate {
    last_submitted: String,
    last_pass: Option<u64>,
}

impl AgendaGate {
    /// The transcript that was last put to a scoring pass; empty before
    /// the first.
    pub closed spec fn last_submitted(&self) -> Seq<char> {
        self.last_submitted@
    }

    /// When the last scoring pass was made.
    pub closed spec fn last_pass(&self) -> Option<u64> {
        self.last_pass
    }

    /// Gates that have seen no pass yet.
    pub fn new() -> (gate: Self)
        ensures
            gate.last_submitted() == Seq::<char>::empty(),
            gate.last_pass() is None,
    {
        AgendaGate { last_submitted: String::new(), last_pass: None }
    }

    /// Decides at `now` whether `transcript` is put to a scoring pass.
    pub fn verdict(
        &self,
        has_model: bool,
        agenda_len: usize,
        transcript: &str,
        now: u64,
        settings: &GateSettings,
    ) -> (verdict: Verdict)
        ensures
            verdict == verdict_of(
                has_model,
                agenda_len,
                self.last_pass(),
                self.last_submitted(),
                transcript@,
                now,
                *settings,
            ),
    {
        if !has_model {
            return Verdict::NoModel;
        }
        if agenda_len == 0 {
            return Verdict::EmptyAgenda;
        }
        let cooled = match self.last_pass {
            Some(at) => beyond_secs(elapsed_ms(at, now), settings.cooldown_secs),
            None => true,
        };
        if !cooled {
            return Verdict::CoolingDown;
        }
        let chars = char_len(transcript);
        if chars == 0 {
            Verdict::Silence
        } else if equal(transcript, self.last_submitted.as_str()) {
            Verdict::Unchanged
        } else if chars < settings.min_chars {
            Verdict::InsufficientText
        } else {
            Verdict::Score
        }
    }

    /// Notes that `transcript` was put to a scoring pass at `now`.
    pub fn submitted(&mut self, transcript: &str, now: u64)
        ensures
            final(self).last_submitted() == transcript@,
            final(self).last_pass() == Some(now),
    {
        self.last_submitted = transcript.to_owned();
        self.last_pass = Some(now);
    }
}

/// The status line of a verdict, for a transcript of `chars` characters
/// made from a window whose energy is `rms` millionths. A verdict that
/// is not told has none.
pub open spec fn status_text(verdict: Verdict, chars: usize, rms: u32) -> Option<Seq<char>> {
    match verdict {
        Verdict::NoModel => None,
        Verdict::CoolingDown => None,
        Verdict::EmptyAgenda => Some(EMPTY_AGENDA@),
        Verdict::Silence => Some(SILENCE_OPEN@ + fraction_text(rms as nat, 6) + CLOSE@),
        Verdict::Unchanged => Some(LISTENING_OPEN@ + decimal(chars as nat) + NO_CHANGE_CLOSE@),
        Verdict::InsufficientText => Some(
            INSUFFICIENT_OPEN@ + decimal(chars as nat) + CHARS_CLOSE@,
        ),
        Verdict::Score => Some(SCANNING@),
    }
}

/// The goals of a list, named one by one.
pub open spec fn goal_list(ids: Seq<Seq<char>>) -> Seq<char>
    decreases ids.len(),
{
    if ids.len() == 0 {
        Seq::empty()
    } else if ids.len() == 1 {
        GOAL@ + ids[0]
    } else {
        goal_list(ids.drop_last()) + LIST_SEPARATOR@ + GOAL@ + ids.last()
    }
}

/// The status line after a scoring pass that touched the goals `ids`.
pub open spec fn outcome_text(ids: Seq<Seq<char>>, chars: usize) -> Seq<char> {
    if ids.len() == 0 {
        NO_UPDATES_OPEN@ + decimal(chars as nat) + RUN_CLOSE@
    } else {
        goal_list(ids) + UPDATED_OPEN@ + decimal(chars as nat) + RUN_CLOSE@
    }
}

/// The status line that tells of a verdict, if it is told at all.
pub fn status_line(verdict: Verdict, chars: usize, rms: u32) -> (line: Option<String>)
    ensures
        match line {
            Some(l) => status_text(verdict, chars, rms) == Some(l@),
            None => status_text(verdict, chars, rms) is None,
        },
{
    match verdict {
        Verdict::NoModel => None,
        Verdict::CoolingDown => None,
        Verdict::EmptyAgenda => Some(EMPTY_AGENDA.to_owned()),
        Verdict::Silence => {
            let mut line = SILENCE_OPEN.to_owned();
            push_fraction(&mut line, rms, 6);
            line.append(CLOSE);
            Some(line)
        },
        Verdict::Unchanged => {
            let mut line = LISTENING_OPEN.to_owned();
            push_decimal(&mut line, chars as u64);
            line.append(NO_CHANGE_CLOSE);
            Some(line)
        },
        Verdict::InsufficientText => {
            let mut line = INSUFFICIENT_OPEN.to_owned();
            push_decimal(&mut line, chars as u64);
            line.append(CHARS_CLOSE);
            Some(line)
        },
        Verdict::Score => Some(SCANNING.to_owned()),
    }
}

/// The status line after a scoring pass over a transcript of `chars`
/// characters that touched the goals `ids`.
pub fn outcome_line(ids: &Vec<String>, chars: usize) -> (line: String)
    ensures
        line@ == outcome_text(ids.deep_view(), chars),
{
    let n = ids.len();
    if n == 0 {
        let mut line = NO_UPDATES_OPEN.to_owned();
        push_decimal(&mut line, chars as u64);
        line.append(RUN_CLOSE);
        return line;
    }
    let mut line = String::new();
    let mut i: usize = 0;
    while i < n
        invariant
            n == ids@.len(),
            i <= n,
            line@ == goal_list(ids.deep_view().subrange(0, i as int)),
        decreases n - i,
    {
        let ghost done = ids.deep_view().subrange(0, i as int);
        let ghost more = ids.deep_view().subrange(0, i + 1);
        assert(more.drop_last() =~= done);
        assert(more.last() == ids@[i as int]@);
        if i > 0 {
            line.append(LIST_SEPARATOR);
        }
        line.append(GOAL);
        line.append(ids[i].as_str());
        assert(line@ =~= goal_list(more));
        i = i + 1;
    }
    assert(ids.deep_view().subrange(0, n as int) =~= ids.deep_view());
    line.append(UPDATED_OPEN);
    push_decimal(&mut line, chars as u64);
    line.append(RUN_CLOSE);
    line
}

/// A scoring pass is never due for a transcript that is shorter than
/// the least length, nor for the transcript that was scored last.
pub proof fn lemma_short_or_repeated_is_not_scored(
    has_model: bool,
    agenda_len: usize,
    last_pass: Option<u64>,
    last_submitted: Seq<char>,
    transcript: Seq<char>,
    now: u64,
    settings: GateSettings,
)
    requires
        transcript.len() < settings.min_chars || transcript == last_submitted,
    ensures
        verdict_of(has_model, agenda_len, last_pass, last_submitted, transcript, now, settings)
            != Verdict::Score,
{
}

/// A scoring pass is due exactly when every gate is open.
pub proof fn lemma_score_iff_all_gates_open(
    has_model: bool,
    agenda_len: usize,
    last_pass: Option<u64>,
    last_submitted: Seq<char>,
    transcript: Seq<char>,
    now: u64,
    settings: GateSettings,
)
    ensures
        verdict_of(has_model, agenda_len, last_pass, last_submitted, transcript, now, settings)
            == Verdict::Score <==> {
            &&& has_model
            &&& agenda_len > 0
            &&& cooled_down(last_pass, now, settings.cooldown_secs)
            &&& transcript.len() > 0
            &&& transcript != last_submitted
            &&& transcript.len() >= settings.min_chars
        },
{
}

} // verus!
