use kuroko::worker::{
    outcome_line, status_line, AgendaGate, GateSettings, Throttle, Verdict, VOLUME_INTERVAL_MS,
};

fn settings() -> GateSettings {
    GateSettings { min_chars: 25, cooldown_secs: 20 }
}

const LONG: &str = "We should settle the budget before Friday.";

#[test]
fn short_transcript_is_not_scored() {
    let gate = AgendaGate::new();
    assert_eq!(
        gate.verdict(true, 3, "Twenty-four characters!!", 0, &settings()),
        Verdict::InsufficientText
    );
    assert_eq!(
        gate.verdict(true, 3, "Twenty-five characters!!!", 0, &settings()),
        Verdict::Score
    );
}

#[test]
fn length_is_counted_in_characters() {
    let gate = AgendaGate::new();
    // 13 characters, 26 bytes
    let text = "ééééééééééééé";
    let at_thirteen = GateSettings { min_chars: 13, cooldown_secs: 0 };
    let at_fourteen = GateSettings { min_chars: 14, cooldown_secs: 0 };
    assert_eq!(gate.verdict(true, 1, text, 0, &at_thirteen), Verdict::Score);
    assert_eq!(gate.verdict(true, 1, text, 0, &at_fourteen), Verdict::InsufficientText);
}

#[test]
fn repeated_transcript_is_not_scored() {
    let mut gate = AgendaGate::new();
    assert_eq!(gate.verdict(true, 3, LONG, 1_000, &settings()), Verdict::Score);
    gate.submitted(LONG, 1_000);
    assert_eq!(gate.verdict(true, 3, LONG, 30_000, &settings()), Verdict::Unchanged);
    let changed = format!("{} ", LONG);
    assert_eq!(gate.verdict(true, 3, &changed, 30_000, &settings()), Verdict::Score);
}

#[test]
fn cooldown_must_be_exceeded() {
    let mut gate = AgendaGate::new();
    gate.submitted("earlier transcript of the meeting", 1_000);
    assert_eq!(gate.verdict(true, 3, LONG, 1_000, &settings()), Verdict::CoolingDown);
    assert_eq!(gate.verdict(true, 3, LONG, 21_000, &settings()), Verdict::CoolingDown);
    assert_eq!(gate.verdict(true, 3, LONG, 21_001, &settings()), Verdict::Score);
}

#[test]
fn gates_stand_in_order() {
    let mut gate = AgendaGate::new();
    gate.submitted(LONG, 1_000);
    assert_eq!(gate.verdict(false, 0, "", 1_000, &settings()), Verdict::NoModel);
    assert_eq!(gate.verdict(true, 0, "", 1_000, &settings()), Verdict::EmptyAgenda);
    assert_eq!(gate.verdict(true, 2, "", 1_000, &settings()), Verdict::CoolingDown);
    assert_eq!(gate.verdict(true, 2, "", 90_000, &settings()), Verdict::Silence);
    assert_eq!(gate.verdict(true, 2, LONG, 90_000, &settings()), Verdict::Unchanged);
    assert_eq!(gate.verdict(true, 2, "short", 90_000, &settings()), Verdict::InsufficientText);
}

#[test]
fn status_lines_are_worded() {
    assert_eq!(status_line(Verdict::EmptyAgenda, 0, 0).as_deref(), Some("Empty agenda"));
    assert_eq!(status_line(Verdict::Score, 40, 0).as_deref(), Some("Scanning agenda..."));
    assert_eq!(
        status_line(Verdict::Silence, 0, 1_234).as_deref(),
        Some("Listening... (silence, rms: 0.001234)")
    );
    assert_eq!(
        status_line(Verdict::Unchanged, 42, 0).as_deref(),
        Some("Listening... (42 chars, no change)")
    );
    assert_eq!(
        status_line(Verdict::InsufficientText, 7, 0).as_deref(),
        Some("Insufficient text (7 chars)")
    );
    assert_eq!(status_line(Verdict::NoModel, 7, 0), None);
    assert_eq!(status_line(Verdict::CoolingDown, 7, 0), None);
}

#[test]
fn outcome_lines_name_the_goals() {
    assert_eq!(outcome_line(&Vec::new(), 120), "No updates (120 chars, ollama run)");
    assert_eq!(
        outcome_line(&vec!["2".to_string()], 120),
        "Goal 2 updated (120 chars, ollama run)"
    );
    assert_eq!(
        outcome_line(&vec!["2".to_string(), "budget".to_string()], 64),
        "Goal 2, Goal budget updated (64 chars, ollama run)"
    );
}

#[test]
fn throttle_lets_through_once_per_interval() {
    assert_eq!(VOLUME_INTERVAL_MS, 100);
    let mut throttle = Throttle::new(1_000, VOLUME_INTERVAL_MS);
    assert!(!throttle.poll(1_000));
    assert!(!throttle.poll(1_099));
    assert!(throttle.poll(1_100));
    assert_eq!(throttle.last, 1_100);
    assert!(!throttle.poll(1_150));
    assert_eq!(throttle.last, 1_100);
    assert!(throttle.poll(5_000));
    assert!(!throttle.poll(4_000));
}
