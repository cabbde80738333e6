use voclip::error::VoclipError;
use voclip::transcription::{
    finalize_transcript, stream_url, token_fetch_error, TranscriptCollector, WsMessage, WsStep,
    TOKEN_URL,
};

fn msg(kind: Option<&str>, text: Option<&str>, eot: Option<bool>, err: Option<&str>) -> WsMessage {
    WsMessage {
        msg_type: kind.map(|s| s.to_string()),
        transcript: text.map(|s| s.to_string()),
        end_of_turn: eot,
        error: err.map(|s| s.to_string()),
    }
}

#[test]
fn stream_url_carries_token_model_and_timeout() {
    assert_eq!(
        stream_url("tok", 3, "u3-rt-pro"),
        "wss://streaming.assemblyai.com/v3/ws?token=tok&speech_model=u3-rt-pro&sample_rate=16000&encoding=pcm_s16le&format_turns=true&min_turn_silence=3000&max_turn_silence=3000"
    );
    assert!(stream_url("t", 0, "m").ends_with("min_turn_silence=0&max_turn_silence=0"));
    assert!(stream_url("t", u32::MAX, "m").ends_with("&max_turn_silence=4294967295000"));
}

#[test]
fn token_errors_name_status_and_body() {
    match token_fetch_error("401 Unauthorized", "bad key") {
        VoclipError::TokenFetch(m) => assert_eq!(m, "401 Unauthorized: bad key"),
        _ => panic!("expected a token error"),
    }
    assert!(TOKEN_URL.starts_with("https://streaming.assemblyai.com/v3/token"));
}

#[test]
fn session_takes_the_ending_turn() {
    let mut c = TranscriptCollector::new();
    assert!(matches!(c.on_message(&msg(Some("Begin"), None, None, None)), WsStep::SessionStarted));
    match c.on_message(&msg(Some("Turn"), Some("hel"), Some(false), None)) {
        WsStep::Partial(t) => assert_eq!(t, "hel"),
        _ => panic!("expected a partial"),
    }
    assert!(matches!(c.on_message(&msg(Some("Turn"), Some(""), Some(false), None)), WsStep::Quiet));
    match c.on_message(&msg(Some("Custom"), None, None, None)) {
        WsStep::Unhandled(k) => assert_eq!(k, "Custom"),
        _ => panic!("expected unhandled"),
    }
    assert!(!c.is_finished());
    match c.on_message(&msg(Some("Turn"), Some("hello world"), Some(true), None)) {
        WsStep::TurnComplete(t) => assert_eq!(t, "hello world"),
        _ => panic!("expected the end of the turn"),
    }
    assert!(c.is_finished());
    assert_eq!(c.into_result().transcript, "hello world");
}

#[test]
fn errors_and_termination_end_the_session_empty() {
    let mut c = TranscriptCollector::new();
    match c.on_message(&msg(Some("Turn"), Some("x"), Some(true), Some("quota"))) {
        WsStep::ApiError(e) => assert_eq!(e, "quota"),
        _ => panic!("expected an error"),
    }
    assert!(c.is_finished());
    assert_eq!(c.into_result().transcript, "");

    let mut c = TranscriptCollector::new();
    assert!(matches!(c.on_message(&msg(Some("Termination"), None, None, None)), WsStep::Terminated));
    assert!(c.is_finished());
    assert_eq!(c.into_result().transcript, "");
}

#[test]
fn missing_type_is_unhandled_and_empty_final_turn_keeps_transcript_empty() {
    let mut c = TranscriptCollector::new();
    match c.on_message(&msg(None, None, None, None)) {
        WsStep::Unhandled(k) => assert_eq!(k, ""),
        _ => panic!("expected unhandled"),
    }
    assert!(matches!(
        c.on_message(&msg(Some("Turn"), None, Some(true), None)),
        WsStep::TurnComplete(_)
    ));
    assert_eq!(c.into_result().transcript, "");
}

#[test]
fn transcripts_are_trimmed_and_empty_ones_dropped() {
    assert_eq!(finalize_transcript("  hi there \n"), Some("hi there".to_string()));
    assert_eq!(finalize_transcript(" \t\n"), None);
    assert_eq!(finalize_transcript(""), None);
}
