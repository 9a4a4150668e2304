//! One pass of the scoring engine over the agenda. The engine decides
//! which goal is put to the model next and with what prompt, and what a
//! reply does to the goal; the caller carries the requests out.

use crate::agenda::{is_settled, scored, views, AgendaItem, AgendaItemView, ScoreResponse};
use crate::backend::{generate_request, OllamaRequest};
use crate::fixed::{fraction_text, push_fraction};
use crate::text::{join, joined};
use vstd::prelude::*;
use vstd::string::*;

verus! {

/// The prompt, up to the goal's text.
pub const PROMPT_GOAL: &'static str =
    "You are a meeting assistant tracking a goal.\n            Goal: \"";

/// The prompt, from the goal's text to its score.
pub const PROMPT_SCORE: &'static str =
    "\"\n            \n            Current Completion Score: ";

/// The prompt, from the score to the evidence.
pub const PROMPT_EVIDENCE: &'static str =
    " (0.0 to 1.0)\n            \n            Previous Evidence:\n            - ";

/// The prompt, from the evidence to the transcript.
pub const PROMPT_SEGMENT: &'static str =
    "\n            \n            New Transcript Segment:\n            \"";

/// The prompt, after the transcript: the task and the form of the reply.
pub const PROMPT_TASK: &'static str =
    "\"\n            \n            Task:\n            1. Analyze if the New Transcript Segment MATCHES the Goal.\n            2. If it matches, does it provide NEW progress or information?\n            3. Estimate the NEW TOTAL completion score (0.0 to 1.0) based on Previous Evidence + New Segment.\n            4. Provide a one-sentence summary of the new evidence found (if any).\n            \n            Return JSON ONLY:\n            {\n                \"match\": true/false,\n                \"score\": 0.5,\n                \"new_evidence\": \"Discussed budget cap.\"\n            }";

/// What the prompt says where there is no evidence yet.
pub const NO_EVIDENCE: &'static str = "None";

/// What stands between two pieces of evidence in the prompt.
pub const EVIDENCE_SEPARATOR: &'static str = "\n- ";

/// The thresholds of a pass, both in millionths.
#[derive(Clone, Copy, Debug, PartialEq, Eq, Structural)]
pub struct ScoringConfig {
    /// Least similarity between transcript and goal at which the goal is
    /// put to the model.
    pub similarity_threshold: i32,
    /// Score from which an answered goal is done with.
    pub answered_threshold: u32,
}

/// The evidence as the prompt shows it.
pub open spec fn evidence_text(evidence: Seq<Seq<char>>) -> Seq<char> {
    if evidence.len() == 0 {
        NO_EVIDENCE@
    } else {
        joined(evidence, EVIDENCE_SEPARATOR@)
    }
}

/// The prompt for one goal and one stretch of transcript: the goal's
/// text, its score with two decimals, its evidence, and the transcript.
pub open spec fn prompt_text<E>(item: AgendaItemView<E>, transcript: Seq<char>) -> Seq<char> {
    PROMPT_GOAL@ + item.text + PROMPT_SCORE@ + fraction_text(item.score as nat, 2)
        + PROMPT_EVIDENCE@ + evidence_text(item.evidence) + PROMPT_SEGMENT@ + transcript
        + PROMPT_TASK@
}

/// The similarity gate: a goal whose similarity to the transcript is
/// known and lies under the threshold is passed over; one whose
/// similarity is not known is let through.
pub open spec fn passes_gate(similarity: Option<i32>, threshold: i32) -> bool {
    match similarity {
        Some(s) => s >= threshold,
        None => true,
    }
}

/// The similarity known for the goal at `index`, if any.
pub open spec fn similarity_at(similarities: Seq<Option<i32>>, index: int) -> Option<i32> {
    if 0 <= index < similarities.len() {
        similarities[index]
    } else {
        None
    }
}

/// Whether a goal is put to the model: it is not done with, and it
/// passes the similarity gate.
pub open spec fn is_due<E>(
    item: AgendaItemView<E>,
    similarity: Option<i32>,
    config: ScoringConfig,
) -> bool {
    &&& !is_settled(item.status, item.score, config.answered_threshold)
    &&& passes_gate(similarity, config.similarity_threshold)
}

/// The first goal at or after `from` that is put to the model.
pub open spec fn next_due<E>(
    items: Seq<AgendaItemView<E>>,
    similarities: Seq<Option<i32>>,
    config: ScoringConfig,
    from: int,
) -> Option<int>
    decreases items.len() - from,
{
    if from < 0 || from >= items.len() {
        None
    } else if is_due(items[from], similarity_at(similarities, from), config) {
        Some(from)
    } else {
        next_due(items, similarities, config, from + 1)
    }
}

/// The evidence as the prompt shows it.
pub fn evidence_line(evidence: &Vec<String>) -> (line: String)
    ensures
        line@ == evidence_text(evidence.deep_view()),
{
    if evidence.len() == 0 {
        NO_EVIDENCE.to_owned()
    } else {
        join(evidence, EVIDENCE_SEPARATOR)
    }
}

/// The prompt that puts `item` and `transcript` to the model.
pub fn score_prompt<E>(item: &AgendaItem<E>, transcript: &str) -> (prompt: String)
    ensures
        prompt@ == prompt_text(item@, transcript@),
{
    let mut prompt = PROMPT_GOAL.to_owned();
    prompt.append(item.text.as_str());
    prompt.append(PROMPT_SCORE);
    push_fraction(&mut prompt, item.score, 2);
    prompt.append(PROMPT_EVIDENCE);
    let evidence = evidence_line(&item.evidence);
    prompt.append(evidence.as_str());
    prompt.append(PROMPT_SEGMENT);
    prompt.append(transcript);
    prompt.append(PROMPT_TASK);
    assert(prompt@ =~= prompt_text(item@, transcript@));
    prompt
}

/// Whether a goal with this similarity passes the similarity gate.
pub fn passes_similarity(similarity: Option<i32>, threshold: i32) -> (passes: bool)
    ensures
        passes == passes_gate(similarity, threshold),
{
    match similarity {
        Some(s) => s >= threshold,
        None => true,
    }
}

/// One pass over the agenda. It remembers how far it has come and which
/// goals it has touched.
#[derive(Debug)]
pub struct ScoringPass {
    cursor: usize,
    updates: Vec<String>,
}

impl ScoringPass {
    /// Position of the next goal to look at.
    pub closed spec fn cursor(&self) -> int {
        self.cursor as int
    }

    /// Identifiers of the goals touched so far, in the order in which
    /// they were touched.
    pub closed spec fn updates(&self) -> Seq<Seq<char>> {
        self.updates.deep_view()
    }

    /// A pass that has not looked at any goal yet.
    pub fn new() -> (pass: Self)
        ensures
            pass.cursor() == 0,
            pass.updates() == Seq::<Seq<char>>::empty(),
    {
        let pass = ScoringPass { cursor: 0, updates: Vec::new() };
        assert(pass.updates.deep_view() =~= Seq::<Seq<char>>::empty());
        pass
    }

    /// Moves on to the next goal that is put to the model, and hands out
    /// its position and the request to send. `None` ends the pass. The
    /// goal at position `i` is gated by `similarities[i]`; a position
    /// beyond the end of `similarities` has no known similarity.
    pub fn next_request<E>(
        &mut self,
        items: &Vec<AgendaItem<E>>,
        similarities: &Vec<Option<i32>>,
        config: &ScoringConfig,
        model: &str,
        transcript: &str,
    ) -> (step: Option<(usize, OllamaRequest)>)
        ensures
            final(self).updates() == old(self).updates(),
            match step {
                Some((index, request)) => {
                    &&& next_due(views(items@), similarities@, *config, old(self).cursor())
                        == Some(index as int)
                    &&& final(self).cursor() == index + 1
                    &&& request.model@ == model@
                    &&& request.prompt@ == prompt_text(items@[index as int]@, transcript@)
                    &&& !request.stream
                },
                None => {
                    &&& next_due(views(items@), similarities@, *config, old(self).cursor())
                        is None
                    &&& final(self).cursor() >= items@.len()
                    &&& final(self).cursor() >= old(self).cursor()
                },
            },
    {
        let n = items.len();
        let mut at = self.cursor;
        while at < n
            invariant
                n == items@.len(),
                self.cursor == old(self).cursor,
                self.cursor <= at,
                self.updates == old(self).updates,
                next_due(views(items@), similarities@, *config, old(self).cursor()) == next_due(
                    views(items@),
                    similarities@,
                    *config,
                    at as int,
                ),
            decreases n - at,
        {
            let similarity = if at < similarities.len() {
                similarities[at]
            } else {
                None
            };
            if !items[at].is_settled(config.answered_threshold) && passes_similarity(
                similarity,
                config.similarity_threshold,
            ) {
                let request = generate_request(model, score_prompt(&items[at], transcript));
                self.cursor = at + 1;
                return Some((at, request));
            }
            at = at + 1;
        }
        self.cursor = at;
        None
    }

    /// Takes in what came back for the goal at `index`: `None` where the
    /// request failed or the reply could not be read, which leaves the
    /// goal as it was. A goal that is touched is noted.
    pub fn record<E>(
        &mut self,
        items: &mut Vec<AgendaItem<E>>,
        index: usize,
        reply: Option<ScoreResponse>,
    )
        ensures
            final(self).cursor() == old(self).cursor(),
            final(items)@.len() == old(items)@.len(),
            forall|i: int|
                0 <= i < old(items)@.len() && i != index ==> final(items)@[i] == old(items)@[i],
            match reply {
                Some(r) if index < old(items)@.len() => {
                    &&& final(items)@[index as int]@ == scored(old(items)@[index as int]@, r@)
                    &&& final(self).updates() == if r.is_match {
                        old(self).updates().push(old(items)@[index as int].id@)
                    } else {
                        old(self).updates()
                    }
                },
                _ => {
                    &&& final(items)@ == old(items)@
                    &&& final(self).updates() == old(self).updates()
                },
            },
    {
        if index >= items.len() {
            return ;
        }
        match reply {
            Some(r) => {
                let ghost before = self.updates.deep_view();
                let touched = items[index].apply_score(r);
                if touched {
                    let id = items[index].id.clone();
                    self.updates.push(id);
                    assert(self.updates.deep_view() =~= before.push(id@));
                }
            },
            None => {},
        }
    }

    /// Ends the pass: the identifiers of the goals it touched.
    pub fn finish(self) -> (updates: Vec<String>)
        ensures
            updates.deep_view() == self.updates(),
    {
        self.updates
    }
}

/// The first goal at or after `from` that has no embedding yet.
pub open spec fn next_unembedded<E>(items: Seq<AgendaItem<E>>, from: int) -> Option<int>
    decreases items.len() - from,
{
    if from < 0 || from >= items.len() {
        None
    } else if items[from].embedding is None {
        Some(from)
    } else {
        next_unembedded(items, from + 1)
    }
}

/// The first goal at or after `from` whose embedding is still to be
/// computed.
pub fn next_without_embedding<E>(items: &Vec<AgendaItem<E>>, from: usize) -> (index: Option<usize>)
    ensures
        match index {
            Some(i) => next_unembedded(items@, from as int) == Some(i as int),
            None => next_unembedded(items@, from as int) is None,
        },
{
    let n = items.len();
    let mut at = from;
    while at < n
        invariant
            n == items@.len(),
            from <= at,
            next_unembedded(items@, from as int) == next_unembedded(items@, at as int),
        decreases n - at,
    {
        if items[at].embedding.is_none() {
            return Some(at);
        }
        at = at + 1;
    }
    None
}

/// A goal that is done with is never put to the model, whatever its
/// similarity to the transcript.
pub proof fn lemma_settled_goals_are_passed_over<E>(
    items: Seq<AgendaItemView<E>>,
    similarities: Seq<Option<i32>>,
    config: ScoringConfig,
    from: int,
)
    ensures
        next_due(items, similarities, config, from) matches Some(index) ==> {
            &&& from <= index < items.len()
            &&& !is_settled(items[index].status, items[index].score, config.answered_threshold)
            &&& passes_gate(similarity_at(similarities, index), config.similarity_threshold)
            &&& forall|i: int|
                from <= i < index ==> !is_due(
                    #[trigger] items[i],
                    similarity_at(similarities, i),
                    config,
                )
        },
        next_due(items, similarities, config, from) is None ==> forall|i: int|
            0 <= from <= i < items.len() ==> !is_due(
                #[trigger] items[i],
                similarity_at(similarities, i),
                config,
            ),
    decreases items.len() - from,
{
    if 0 <= from < items.len() && !is_due(items[from], similarity_at(similarities, from), config) {
        lemma_settled_goals_are_passed_over(items, similarities, config, from + 1);
    }
}

} // verus!
