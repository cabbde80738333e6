use voclip::wakeword::{action_from_text, action_to_text, parse_key_action};
use voclip::wakeword::{
    find_pattern, pattern_counts, sample_name, TrainingSession, VoiceAction, VoicePattern,
    DETECT_SAMPLE_RATE,
};

fn pattern(name: &str, action: VoiceAction) -> VoicePattern {
    VoicePattern { name: name.to_string(), path: format!("/tmp/{name}.rpw"), action }
}

fn patterns() -> Vec<VoicePattern> {
    vec![
        pattern("Computer", VoiceAction::Transcribe),
        pattern("press enter", VoiceAction::Key("Return".to_string())),
        pattern("go back", VoiceAction::Key("BackSpace".to_string())),
    ]
}

#[test]
fn detection_matches_by_name_first() {
    let p = patterns();
    assert_eq!(find_pattern(&p, "go back", &vec![false, true, true]), Some(2));
    assert_eq!(find_pattern(&p, "Computer", &vec![false, false, false]), Some(0));
}

#[test]
fn detection_falls_back_to_first_trained_pattern() {
    let p = patterns();
    assert_eq!(find_pattern(&p, "hey voclip", &vec![false, true, true]), Some(1));
    assert_eq!(find_pattern(&p, "hey voclip", &vec![false, false, false]), None);
    assert_eq!(find_pattern(&Vec::new(), "x", &Vec::new()), None);
}

#[test]
fn counts_of_trained_patterns() {
    let p = patterns();
    assert_eq!(pattern_counts(&p, &vec![true, true, true]), (1, 2));
    assert_eq!(pattern_counts(&p, &vec![false, true, false]), (0, 1));
    assert_eq!(pattern_counts(&p, &vec![false, false, false]), (0, 0));
}

#[test]
fn training_keeps_samples_in_order_and_redoes_on_r() {
    let mut s = TrainingSession::new(2);
    assert_eq!(s.current(), 1);
    assert!(!s.is_complete());
    assert!(!s.review(" R \n", vec![1]));
    assert_eq!(s.current(), 1);
    assert!(s.review("\n", vec![2]));
    assert_eq!(s.current(), 2);
    assert!(!s.review("r", vec![3]));
    assert!(s.review("yes", vec![4]));
    assert!(s.is_complete());
    assert_eq!(
        s.into_samples(),
        vec![("sample_1.wav".to_string(), vec![2]), ("sample_2.wav".to_string(), vec![4])]
    );
}

#[test]
fn training_of_zero_samples_is_complete_at_once() {
    let s = TrainingSession::new(0);
    assert!(s.is_complete());
    assert!(s.into_samples().is_empty());
}

#[test]
fn sample_names_and_rate() {
    assert_eq!(sample_name(1), "sample_1.wav");
    assert_eq!(sample_name(12), "sample_12.wav");
    assert_eq!(DETECT_SAMPLE_RATE, 16000);
}

#[test]
fn actions_are_written_and_read_back() {
    assert_eq!(parse_key_action("key:Return").as_deref(), Some("Return"));
    assert_eq!(parse_key_action("key:"), None);
    assert_eq!(parse_key_action("Return"), None);
    assert_eq!(action_to_text(&VoiceAction::Transcribe), "transcribe");
    assert_eq!(action_to_text(&VoiceAction::Key("BackSpace".to_string())), "key:BackSpace");
    assert!(matches!(action_from_text("transcribe"), Some(VoiceAction::Transcribe)));
    assert!(matches!(action_from_text("key:Tab"), Some(VoiceAction::Key(k)) if k == "Tab"));
    assert!(action_from_text("press").is_none());
}
