use kuroko::transcription::{
    clean_transcript, decode_options, decoding_for, finish_transcription, plan_transcription,
    Decoding, Plan, BEAM_PATIENCE, BEAM_SIZE,
};

const GUIDANCE: &str = "The following is a high-quality, punctuated transcript of a professional conversation. It includes proper capitalization and ignores filler words like 'um' or 'uh'.";

#[test]
fn accuracy_selects_beam_search() {
    assert_eq!(
        decoding_for("accuracy"),
        Decoding::BeamSearch { beam_size: 5, patience: 1_000_000 }
    );
    assert_eq!(BEAM_SIZE, 5);
    assert_eq!(BEAM_PATIENCE, 1_000_000);
}

#[test]
fn any_other_mode_is_greedy() {
    assert_eq!(decoding_for("speed"), Decoding::Greedy { best_of: 1 });
    assert_eq!(decoding_for(""), Decoding::Greedy { best_of: 1 });
    assert_eq!(decoding_for("Accuracy"), Decoding::Greedy { best_of: 1 });
    assert_eq!(decoding_for("accuracy "), Decoding::Greedy { best_of: 1 });
}

#[test]
fn decode_options_are_fixed_but_for_three() {
    let options = decode_options("accuracy", "pl", 6);
    assert_eq!(options.strategy, Decoding::BeamSearch { beam_size: 5, patience: 1_000_000 });
    assert_eq!(options.threads, 6);
    assert_eq!(options.language, "pl");
    assert_eq!(options.initial_prompt, GUIDANCE);
    assert!(options.no_context);
    assert!(options.suppress_non_speech);
    assert!(options.suppress_blank);
    assert!(options.single_segment);
}

#[test]
fn empty_snapshot_is_skipped() {
    assert!(matches!(plan_transcription(0, 900_000, 2_000, "speed", "en", 8), Plan::Skip));
}

#[test]
fn silent_snapshot_is_skipped() {
    assert!(matches!(plan_transcription(16000, 1_999, 2_000, "speed", "en", 8), Plan::Skip));
}

#[test]
fn snapshot_at_the_threshold_is_decoded() {
    match plan_transcription(16000, 2_000, 2_000, "speed", "en", 8) {
        Plan::Decode(options) => {
            assert_eq!(options.strategy, Decoding::Greedy { best_of: 1 });
            assert_eq!(options.language, "en");
            assert_eq!(options.threads, 8);
        }
        Plan::Skip => panic!("a snapshot at the threshold is not silent"),
    }
    assert!(matches!(plan_transcription(1, 0, 0, "speed", "en", 8), Plan::Decode(_)));
}

#[test]
fn clean_trims_white_space() {
    assert_eq!(clean_transcript("  Hello there. \n"), "Hello there.");
    assert_eq!(clean_transcript(""), "");
    assert_eq!(clean_transcript(" \t "), "");
}

#[test]
fn clean_strips_the_quoted_echo() {
    let raw = format!(" {} So, about the budget.", GUIDANCE);
    assert_eq!(clean_transcript(&raw), "So, about the budget.");
    assert_eq!(clean_transcript(GUIDANCE), "");
}

#[test]
fn clean_strips_the_plain_echo() {
    let raw = "The following is a high-quality, punctuated transcript. It ignores filler words like um or uh. We ship on Friday. ";
    assert_eq!(clean_transcript(raw), "We ship on Friday.");
}

#[test]
fn clean_prefers_the_quoted_ending() {
    let raw = "The following is a high-quality thing, uh. first 'uh'. second";
    assert_eq!(clean_transcript(raw), "second");
}

#[test]
fn clean_keeps_an_echo_without_ending() {
    let raw = "The following is a high-quality recording of the meeting";
    assert_eq!(clean_transcript(raw), raw);
}

#[test]
fn clean_keeps_text_that_only_mentions_the_ending() {
    let raw = "Well, uh. The following is a high-quality idea.";
    assert_eq!(clean_transcript(raw), raw);
}

#[test]
fn finish_joins_segments_then_cleans() {
    let segments = vec![" Hello".to_string(), " world. ".to_string()];
    assert_eq!(finish_transcription(&segments), "Hello world.");
    assert_eq!(finish_transcription(&Vec::new()), "");
    let echoed = vec![GUIDANCE.to_string(), " And then?".to_string()];
    assert_eq!(finish_transcription(&echoed), "And then?");
}
