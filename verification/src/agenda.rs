//! The agenda: goals that are tracked through a conversation, each with
//! the evidence gathered for it so far and a completion score, and the
//! state machine that the score drives.
//!
//! Scores are counted in millionths; the engine writes none above one
//! whole.

use crate::fixed::{percent, percent_of, UNIT};
use crate::text::{decimal, equal, push_decimal};
use vstd::prelude::*;
use vstd::string::*;

verus! {

/// The answer of a goal that is complete.
pub const COMPLETED: &'static str = "Completed";

/// What stands before the percentage in the answer of a goal that is
/// under way.
pub const IN_PROGRESS_OPEN: &'static str = "In Progress (";

/// What stands after the percentage.
pub const IN_PROGRESS_CLOSE: &'static str = "%)";

/// The name of a goal of which nothing has been heard.
pub const PENDING_NAME: &'static str = "pending";

/// The name of a goal under way.
pub const IN_PROGRESS_NAME: &'static str = "captured";

/// Another name of a goal under way, which is read but never written.
pub const IN_PROGRESS_ALIAS: &'static str = "in_progress";

/// The name of a goal that is met.
pub const ANSWERED_NAME: &'static str = "answered";

/// Where a goal stands.
#[derive(Clone, Copy, Debug, PartialEq, Eq, Structural)]
pub enum Status {
    /// Nothing has been heard of it yet.
    Pending,
    /// Something has, but not all.
    InProgress,
    /// The goal is met.
    Answered,
}

/// One goal of the agenda. `E` is the embedding of the goal's text, which
/// the library carries and never looks into.
#[derive(Debug)]
pub struct AgendaItem<E> {
    pub id: String,
    pub text: String,
    pub status: Status,
    pub answer: Option<String>,
    /// Completion, in millionths.
    pub score: u32,
    pub evidence: Vec<String>,
    pub embedding: Option<E>,
}

/// A goal as contracts see it.
pub struct AgendaItemView<E> {
    pub id: Seq<char>,
    pub text: Seq<char>,
    pub status: Status,
    pub answer: Option<Seq<char>>,
    pub score: u32,
    pub evidence: Seq<Seq<char>>,
    pub embedding: Option<E>,
}

/// The text of an optional string.
pub open spec fn text_of(s: Option<String>) -> Option<Seq<char>> {
    match s {
        Some(t) => Some(t@),
        None => None,
    }
}

impl<E> View for AgendaItem<E> {
    type V = AgendaItemView<E>;

    open spec fn view(&self) -> AgendaItemView<E> {
        AgendaItemView {
            id: self.id@,
            text: self.text@,
            status: self.status,
            answer: text_of(self.answer),
            score: self.score,
            evidence: self.evidence.deep_view(),
            embedding: self.embedding,
        }
    }
}

/// The goals of a list as contracts see them.
pub open spec fn views<E>(items: Seq<AgendaItem<E>>) -> Seq<AgendaItemView<E>> {
    Seq::new(items.len(), |i: int| items[i]@)
}

/// What the model said of one goal and one stretch of transcript.
#[derive(Debug)]
pub struct ScoreResponse {
    /// Whether the transcript bears on the goal.
    pub is_match: bool,
    /// The goal's new total score, in millionths; not a difference.
    pub score: u32,
    /// What was newly heard, in a sentence.
    pub new_evidence: Option<String>,
}

/// A reply as contracts see it.
pub struct ScoreResponseView {
    pub is_match: bool,
    pub score: u32,
    pub new_evidence: Option<Seq<char>>,
}

impl View for ScoreResponse {
    type V = ScoreResponseView;

    open spec fn view(&self) -> ScoreResponseView {
        ScoreResponseView {
            is_match: self.is_match,
            score: self.score,
            new_evidence: text_of(self.new_evidence),
        }
    }
}

/// A score as it is kept: no more than one whole.
pub open spec fn capped(score: u32) -> u32 {
    if score >= UNIT {
        UNIT
    } else {
        score
    }
}

/// The state machine. A score of one whole makes a goal answered, and an
/// answered goal stays answered whatever its score does later. Below
/// that, any score above nothing puts a pending goal under way; a score
/// of nothing moves nothing.
pub open spec fn status_after(status: Status, score: u32) -> Status {
    if score >= UNIT || status == Status::Answered {
        Status::Answered
    } else if score > 0 {
        Status::InProgress
    } else {
        status
    }
}

/// The answer of a goal under way at `score`.
pub open spec fn progress_text(score: u32) -> Seq<char> {
    IN_PROGRESS_OPEN@ + decimal(percent(score as nat)) + IN_PROGRESS_CLOSE@
}

/// The answer that goes with the state machine's move: it is rewritten
/// where the score completes the goal or puts it under way, and kept
/// otherwise.
pub open spec fn answer_after(answer: Option<Seq<char>>, status: Status, score: u32) -> Option<
    Seq<char>,
> {
    if score >= UNIT {
        Some(COMPLETED@)
    } else if status != Status::Answered && score > 0 {
        Some(progress_text(score))
    } else {
        answer
    }
}

/// Evidence only ever grows, and only by what says something.
pub open spec fn evidence_after(evidence: Seq<Seq<char>>, new_evidence: Option<Seq<char>>) -> Seq<
    Seq<char>,
> {
    match new_evidence {
        Some(e) => if e.len() > 0 {
            evidence.push(e)
        } else {
            evidence
        },
        None => evidence,
    }
}

/// A goal after a reply. Where the reply found no match the goal is as it
/// was. Where it found one, the evidence grows by what is new, the score
/// becomes the reply's total, and status and answer follow the score.
pub open spec fn scored<E>(item: AgendaItemView<E>, reply: ScoreResponseView) -> AgendaItemView<
    E,
> {
    if reply.is_match {
        AgendaItemView {
            id: item.id,
            text: item.text,
            status: status_after(item.status, capped(reply.score)),
            answer: answer_after(item.answer, item.status, capped(reply.score)),
            score: capped(reply.score),
            evidence: evidence_after(item.evidence, reply.new_evidence),
            embedding: item.embedding,
        }
    } else {
        item
    }
}

/// Whether a goal is done with: it is answered and its score has reached
/// the threshold. Such a goal is not put to the model again.
pub open spec fn is_settled(status: Status, score: u32, answered_threshold: u32) -> bool {
    status == Status::Answered && score >= answered_threshold
}

/// The status that a name stands for. A goal under way is known by two
/// names; a name that is none of those written here stands for a goal
/// of which nothing has been heard.
pub open spec fn status_named(name: Seq<char>) -> Status {
    if name == ANSWERED_NAME@ {
        Status::Answered
    } else if name == IN_PROGRESS_NAME@ || name == IN_PROGRESS_ALIAS@ {
        Status::InProgress
    } else {
        Status::Pending
    }
}

impl Status {
    /// The name under which the status travels.
    pub fn as_str(self) -> (name: &'static str)
        ensures
            name@ == match self {
                Status::Pending => PENDING_NAME@,
                Status::InProgress => IN_PROGRESS_NAME@,
                Status::Answered => ANSWERED_NAME@,
            },
    {
        match self {
            Status::Pending => PENDING_NAME,
            Status::InProgress => IN_PROGRESS_NAME,
            Status::Answered => ANSWERED_NAME,
        }
    }

    /// The status that `name` stands for.
    pub fn parse(name: &str) -> (status: Status)
        ensures
            status == status_named(name@),
    {
        if equal(name, ANSWERED_NAME) {
            Status::Answered
        } else if equal(name, IN_PROGRESS_NAME) || equal(name, IN_PROGRESS_ALIAS) {
            Status::InProgress
        } else {
            Status::Pending
        }
    }

    /// The status that follows `self` once the score is `score`.
    pub fn after(self, score: u32) -> (next: Status)
        ensures
            next == status_after(self, score),
    {
        if score >= UNIT {
            Status::Answered
        } else {
            match self {
                Status::Answered => Status::Answered,
                Status::InProgress => Status::InProgress,
                Status::Pending => if score > 0 {
                    Status::InProgress
                } else {
                    Status::Pending
                },
            }
        }
    }
}

impl<E> AgendaItem<E> {
    /// A new goal: pending, with no score, evidence or embedding yet.
    pub fn new(id: String, text: String) -> (item: Self)
        ensures
            item@ == (AgendaItemView::<E> {
                id: id@,
                text: text@,
                status: Status::Pending,
                answer: None,
                score: 0,
                evidence: Seq::empty(),
                embedding: None,
            }),
    {
        let item = AgendaItem {
            id,
            text,
            status: Status::Pending,
            answer: None,
            score: 0,
            evidence: Vec::new(),
            embedding: None,
        };
        assert(item.evidence.deep_view() =~= Seq::<Seq<char>>::empty());
        item
    }

    /// Whether the goal is done with at this threshold.
    pub fn is_settled(&self, answered_threshold: u32) -> (settled: bool)
        ensures
            settled == is_settled(self.status, self.score, answered_threshold),
    {
        self.status == Status::Answered && self.score >= answered_threshold
    }

    /// Takes a reply in. Tells whether the goal was touched, which is
    /// whether the reply found a match.
    pub fn apply_score(&mut self, reply: ScoreResponse) -> (touched: bool)
        ensures
            final(self)@ == scored(old(self)@, reply@),
            touched == reply.is_match,
    {
        if !reply.is_match {
            return false;
        }
        let score = if reply.score >= UNIT {
            UNIT
        } else {
            reply.score
        };
        let ghost before = self.evidence.deep_view();
        match reply.new_evidence {
            Some(e) => {
                if e.as_str().unicode_len() > 0 {
                    self.evidence.push(e);
                    assert(self.evidence.deep_view() =~= before.push(e@));
                }
            },
            None => {},
        }
        if score >= UNIT {
            self.answer = Some(COMPLETED.to_owned());
        } else if self.status != Status::Answered && score > 0 {
            self.answer = Some(progress_answer(score));
        }
        self.status = self.status.after(score);
        self.score = score;
        true
    }
}

/// The answer of a goal under way at `score`.
pub fn progress_answer(score: u32) -> (answer: String)
    ensures
        answer@ == progress_text(score),
{
    let mut answer = IN_PROGRESS_OPEN.to_owned();
    push_decimal(&mut answer, percent_of(score) as u64);
    answer.append(IN_PROGRESS_CLOSE);
    answer
}

/// Among goals that are not answered yet, a reply makes a goal answered
/// exactly when it matches with a score of one whole or more.
pub proof fn lemma_answered_iff_score_complete<E>(item: AgendaItemView<E>, reply: ScoreResponseView)
    requires
        item.status != Status::Answered,
    ensures
        scored(item, reply).status == Status::Answered <==> reply.is_match && reply.score >= UNIT,
        status_after(item.status, reply.score) == Status::Answered <==> reply.score >= UNIT,
{
}

/// No reply takes the answered status away, and none takes evidence
/// away or changes what was gathered before.
pub proof fn lemma_replies_never_undo<E>(item: AgendaItemView<E>, reply: ScoreResponseView)
    ensures
        item.status == Status::Answered ==> scored(item, reply).status == Status::Answered,
        item.evidence.is_prefix_of(scored(item, reply).evidence),
        scored(item, reply).id == item.id,
        scored(item, reply).text == item.text,
        scored(item, reply).score <= UNIT || scored(item, reply).score == item.score,
{
}

} // verus!
