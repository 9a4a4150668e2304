use kuroko::agenda::{AgendaItem, ScoreResponse, Status};
use kuroko::scoring::{
    evidence_line, next_without_embedding, passes_similarity, score_prompt, ScoringConfig,
    ScoringPass,
};

type Item = AgendaItem<Vec<f32>>;

fn goal(id: &str, text: &str, status: Status, score: u32) -> Item {
    let mut item = AgendaItem::new(id.to_string(), text.to_string());
    item.status = status;
    item.score = score;
    item
}

fn config() -> ScoringConfig {
    ScoringConfig { similarity_threshold: 350_000, answered_threshold: 950_000 }
}

fn expected_prompt(goal: &str, score: &str, evidence: &str, transcript: &str) -> String {
    format!(
        "You are a meeting assistant tracking a goal.
            Goal: \"{}\"
            
            Current Completion Score: {} (0.0 to 1.0)
            
            Previous Evidence:
            - {}
            
            New Transcript Segment:
            \"{}\"
            
            Task:
            1. Analyze if the New Transcript Segment MATCHES the Goal.
            2. If it matches, does it provide NEW progress or information?
            3. Estimate the NEW TOTAL completion score (0.0 to 1.0) based on Previous Evidence + New Segment.
            4. Provide a one-sentence summary of the new evidence found (if any).
            
            Return JSON ONLY:
            {{
                \"match\": true/false,
                \"score\": 0.5,
                \"new_evidence\": \"Discussed budget cap.\"
            }}",
        goal, score, evidence, transcript
    )
}

#[test]
fn prompt_without_evidence_says_none() {
    let item = goal("g1", "Agree on the budget", Status::Pending, 0);
    assert_eq!(
        score_prompt(&item, "We could cap it at 50k."),
        expected_prompt("Agree on the budget", "0.00", "None", "We could cap it at 50k.")
    );
}

#[test]
fn prompt_lists_evidence_and_score() {
    let mut item = goal("g1", "Agree on the budget", Status::InProgress, 500_000);
    item.evidence.push("Discussed budget cap.".to_string());
    item.evidence.push("Finance agreed.".to_string());
    assert_eq!(
        score_prompt(&item, "So 50k it is."),
        expected_prompt(
            "Agree on the budget",
            "0.50",
            "Discussed budget cap.\n- Finance agreed.",
            "So 50k it is."
        )
    );
}

#[test]
fn evidence_line_joins_with_bullets() {
    assert_eq!(evidence_line(&Vec::new()), "None");
    assert_eq!(evidence_line(&vec!["one".to_string()]), "one");
    assert_eq!(evidence_line(&vec!["one".to_string(), "two".to_string()]), "one\n- two");
}

#[test]
fn similarity_gate_lets_unknown_through() {
    assert!(passes_similarity(None, 350_000));
    assert!(passes_similarity(Some(350_000), 350_000));
    assert!(passes_similarity(Some(900_000), 350_000));
    assert!(!passes_similarity(Some(349_999), 350_000));
    assert!(!passes_similarity(Some(-100_000), 350_000));
    assert!(passes_similarity(Some(-100_000), -200_000));
}

#[test]
fn pass_skips_settled_and_dissimilar_goals() {
    let mut items = vec![
        goal("a", "first", Status::Answered, 1_000_000),
        goal("b", "second", Status::Pending, 0),
        goal("c", "third", Status::InProgress, 950_000),
        goal("d", "fourth", Status::Pending, 0),
    ];
    let similarities = vec![Some(900_000), Some(100_000), Some(350_000)];
    let mut pass = ScoringPass::new();

    let (index, request) = pass
        .next_request(&items, &similarities, &config(), "llama3", "text")
        .expect("the third goal is due");
    assert_eq!(index, 2);
    assert_eq!(request.model, "llama3");
    assert!(!request.stream);
    assert_eq!(request.prompt, score_prompt(&items[2], "text"));
    pass.record(
        &mut items,
        index,
        Some(ScoreResponse { is_match: true, score: 1_000_000, new_evidence: None }),
    );
    assert_eq!(items[2].status, Status::Answered);

    // the fourth goal has no known similarity and is let through
    let (index, _) = pass
        .next_request(&items, &similarities, &config(), "llama3", "text")
        .expect("the fourth goal is due");
    assert_eq!(index, 3);
    pass.record(&mut items, index, None);
    assert_eq!(items[3].status, Status::Pending);
    assert_eq!(items[3].score, 0);

    assert!(pass.next_request(&items, &similarities, &config(), "llama3", "text").is_none());
    assert!(pass.next_request(&items, &similarities, &config(), "llama3", "text").is_none());
    assert_eq!(pass.finish(), vec!["c".to_string()]);
}

#[test]
fn in_progress_goal_at_the_threshold_is_still_scored() {
    let items = vec![goal("a", "first", Status::InProgress, 950_000)];
    let mut pass = ScoringPass::new();
    let step = pass.next_request(&items, &Vec::new(), &config(), "m", "t");
    assert_eq!(step.map(|(index, _)| index), Some(0));
}

#[test]
fn answered_goal_at_the_threshold_is_left_out() {
    let items = vec![goal("a", "first", Status::Answered, 950_000)];
    let mut pass = ScoringPass::new();
    assert!(pass.next_request(&items, &Vec::new(), &config(), "m", "t").is_none());
}

#[test]
fn answered_goal_under_the_threshold_is_scored_again() {
    let items = vec![goal("a", "first", Status::Answered, 949_999)];
    let mut pass = ScoringPass::new();
    assert!(pass.next_request(&items, &Vec::new(), &config(), "m", "t").is_some());
}

#[test]
fn pass_notes_every_match_in_order() {
    let mut items = vec![
        goal("a", "first", Status::Pending, 0),
        goal("b", "second", Status::Pending, 0),
        goal("c", "third", Status::Pending, 0),
    ];
    let replies = vec![
        Some(ScoreResponse { is_match: true, score: 0, new_evidence: None }),
        Some(ScoreResponse { is_match: false, score: 900_000, new_evidence: None }),
        Some(ScoreResponse {
            is_match: true,
            score: 250_000,
            new_evidence: Some("heard".to_string()),
        }),
    ];
    let mut pass = ScoringPass::new();
    for reply in replies {
        let (index, _) = pass.next_request(&items, &Vec::new(), &config(), "m", "t").unwrap();
        pass.record(&mut items, index, reply);
    }
    assert!(pass.next_request(&items, &Vec::new(), &config(), "m", "t").is_none());
    assert_eq!(pass.finish(), vec!["a".to_string(), "c".to_string()]);
    assert_eq!(items[1].score, 0);
    assert_eq!(items[2].score, 250_000);
    assert_eq!(items[2].evidence, vec!["heard".to_string()]);
}

#[test]
fn record_ignores_a_position_out_of_range() {
    let mut items = vec![goal("a", "first", Status::Pending, 0)];
    let mut pass = ScoringPass::new();
    pass.record(
        &mut items,
        5,
        Some(ScoreResponse { is_match: true, score: 1_000_000, new_evidence: None }),
    );
    assert_eq!(items[0].status, Status::Pending);
    assert!(pass.finish().is_empty());
}

#[test]
fn empty_agenda_ends_at_once() {
    let items: Vec<Item> = Vec::new();
    let mut pass = ScoringPass::new();
    assert!(pass.next_request(&items, &Vec::new(), &config(), "m", "t").is_none());
    assert!(pass.finish().is_empty());
}

#[test]
fn goals_without_embedding_are_found_in_order() {
    let mut items = vec![
        goal("a", "first", Status::Pending, 0),
        goal("b", "second", Status::Pending, 0),
        goal("c", "third", Status::Pending, 0),
    ];
    items[1].embedding = Some(vec![1.0, 0.0]);
    assert_eq!(next_without_embedding(&items, 0), Some(0));
    assert_eq!(next_without_embedding(&items, 1), Some(2));
    assert_eq!(next_without_embedding(&items, 3), None);
    assert_eq!(next_without_embedding(&items, 9), None);
    items[0].embedding = Some(vec![0.5]);
    items[2].embedding = Some(vec![0.5]);
    assert_eq!(next_without_embedding(&items, 0), None);
}
