use voclip::error::VoclipError;
use voclip::listen::{listen_step, trained_pattern_counts, ListenAction, ListenEvent};
use voclip::wakeword::{VoiceAction, VoicePattern};

fn patterns() -> Vec<VoicePattern> {
    vec![
        VoicePattern {
            name: "Computer".to_string(),
            path: "/tmp/computer.rpw".to_string(),
            action: VoiceAction::Transcribe,
        },
        VoicePattern {
            name: "Submit".to_string(),
            path: "/tmp/submit.rpw".to_string(),
            action: VoiceAction::Key("Return".to_string()),
        },
    ]
}

#[test]
fn listening_needs_a_trained_pattern() {
    match trained_pattern_counts(&patterns(), &vec![false, false]) {
        Err(VoclipError::WakeWord(m)) => assert_eq!(
            m,
            "No trained voice patterns found. Run --train-wakeword or --train-command first."
        ),
        _ => panic!("expected a wake word error"),
    }
    assert!(matches!(trained_pattern_counts(&Vec::new(), &Vec::new()), Err(_)));
}

#[test]
fn trained_patterns_are_counted_by_kind() {
    assert_eq!(trained_pattern_counts(&patterns(), &vec![true, true]).unwrap(), (1, 1));
    assert_eq!(trained_pattern_counts(&patterns(), &vec![false, true]).unwrap(), (0, 1));
}

#[test]
fn a_detection_is_answered_by_its_pattern() {
    let p = patterns();
    assert!(matches!(listen_step(&p, ListenEvent::Detected(0)).action, ListenAction::Transcribe));
    let step = listen_step(&p, ListenEvent::Detected(1));
    match &step.action {
        ListenAction::PressKey(k) => assert_eq!(k, "Return"),
        _ => panic!("expected a key press"),
    }
    assert!(step.drop_audio_before && step.drop_audio_after && step.resume);
}

#[test]
fn interruption_and_end_of_audio_stop_listening() {
    let p = patterns();
    let a = listen_step(&p, ListenEvent::Interrupted);
    assert!(matches!(a.action, ListenAction::Stop));
    assert!(!a.resume && !a.drop_audio_before && !a.drop_audio_after);
    assert!(matches!(listen_step(&p, ListenEvent::AudioClosed).action, ListenAction::Stop));
}
