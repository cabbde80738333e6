use voclip::speech_model::SpeechModel;

#[test]
fn from_name_accepts_every_alias() {
    assert_eq!(SpeechModel::from_name("auto"), Some(SpeechModel::U3RtPro));
    assert_eq!(SpeechModel::from_name("u3-rt-pro"), Some(SpeechModel::U3RtPro));
    assert_eq!(SpeechModel::from_name("u3"), Some(SpeechModel::U3RtPro));
    assert_eq!(SpeechModel::from_name("english"), Some(SpeechModel::UniversalEnglish));
    assert_eq!(SpeechModel::from_name("en"), Some(SpeechModel::UniversalEnglish));
    assert_eq!(SpeechModel::from_name("multilingual"), Some(SpeechModel::UniversalMultilingual));
    assert_eq!(SpeechModel::from_name("multi"), Some(SpeechModel::UniversalMultilingual));
    assert_eq!(SpeechModel::from_name("whisper"), Some(SpeechModel::WhisperRt));
    assert_eq!(SpeechModel::from_name("whisper-rt"), Some(SpeechModel::WhisperRt));
}

#[test]
fn from_name_ignores_case() {
    assert_eq!(SpeechModel::from_name("ENGLISH"), Some(SpeechModel::UniversalEnglish));
    assert_eq!(SpeechModel::from_name("Whisper-RT"), Some(SpeechModel::WhisperRt));
    assert_eq!(SpeechModel::from_name("U3"), Some(SpeechModel::U3RtPro));
}

#[test]
fn from_name_rejects_unknown_names() {
    assert_eq!(SpeechModel::from_name("klingon"), None);
    assert_eq!(SpeechModel::from_name(""), None);
    assert_eq!(SpeechModel::from_name(" english"), None);
}

#[test]
fn from_lowercase_name_is_case_sensitive() {
    assert_eq!(SpeechModel::from_lowercase_name("multi"), Some(SpeechModel::UniversalMultilingual));
    assert_eq!(SpeechModel::from_lowercase_name("MULTI"), None);
}

#[test]
fn api_names() {
    assert_eq!(SpeechModel::U3RtPro.api_name(), "u3-rt-pro");
    assert_eq!(SpeechModel::UniversalEnglish.api_name(), "universal-streaming-english");
    assert_eq!(SpeechModel::UniversalMultilingual.api_name(), "universal-streaming-multilingual");
    assert_eq!(SpeechModel::WhisperRt.api_name(), "whisper-rt");
}

#[test]
fn cli_names_and_descriptions() {
    assert_eq!(SpeechModel::U3RtPro.cli_name(), "u3-rt-pro");
    assert_eq!(SpeechModel::UniversalEnglish.cli_name(), "english");
    assert_eq!(SpeechModel::UniversalMultilingual.cli_name(), "multilingual");
    assert_eq!(SpeechModel::WhisperRt.cli_name(), "whisper-rt");
    assert_eq!(SpeechModel::U3RtPro.description(), "Latest model, best quality (default)");
    assert_eq!(SpeechModel::UniversalEnglish.description(), "English only, optimized for English speech");
    assert_eq!(
        SpeechModel::UniversalMultilingual.description(),
        "Multi-language support, auto-detects language"
    );
    assert_eq!(SpeechModel::WhisperRt.description(), "Whisper-based real-time model");
}

#[test]
fn all_lists_every_model_once_in_order() {
    let all = SpeechModel::all();
    assert_eq!(
        all,
        &[
            SpeechModel::U3RtPro,
            SpeechModel::UniversalEnglish,
            SpeechModel::UniversalMultilingual,
            SpeechModel::WhisperRt
        ]
    );
}

#[test]
fn every_cli_name_selects_its_model() {
    for m in SpeechModel::all() {
        assert_eq!(SpeechModel::from_name(m.cli_name()), Some(*m));
    }
}

#[test]
fn api_names_are_distinct() {
    let all = SpeechModel::all();
    for (i, a) in all.iter().enumerate() {
        for b in &all[i + 1..] {
            assert_ne!(a.api_name(), b.api_name());
        }
    }
}

#[test]
fn cli_names_round_trip_in_any_case() {
    for m in SpeechModel::all() {
        assert_eq!(SpeechModel::from_name(m.cli_name()), Some(*m));
        assert_eq!(SpeechModel::from_name(&m.cli_name().to_uppercase()), Some(*m));
    }
    assert_eq!(SpeechModel::from_name("Whisper-RT"), Some(SpeechModel::WhisperRt));
}
