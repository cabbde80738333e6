use voclip::config::{
    api_key_line, choose_command, model_for_choice, model_listing_lines, remove_voice_pattern,
    save_audio_device, save_default_model, save_default_timeout, save_voice_pattern,
    voice_pattern_path, voice_patterns_in, Args, Command, Config, ConfigFile, UsageError,
    DEFAULT_TIMEOUT,
};
use voclip::wakeword::VoiceAction;
use voclip::error::VoclipError;
use voclip::speech_model::SpeechModel;

fn args() -> Args {
    Args {
        version: false,
        update: false,
        timeout: None,
        model: None,
        delay: 1,
        list_models: false,
        set_default_model: None,
        set_default_timeout: None,
        type_output: false,
        listen: false,
        train_wakeword: false,
        train_command: false,
        test_wakeword: false,
        wakeword_name: "hey voclip".to_string(),
        command_name: None,
        command_action: None,
        wakeword_samples: 8,
        wakeword_sensitivity: "medium".to_string(),
        list_wakewords: false,
        remove_wakeword: None,
        list_devices: false,
        audio_device: None,
        apikey: false,
    }
}

fn config_file(default_model: Option<&str>, default_timeout: Option<u32>) -> ConfigFile {
    ConfigFile {
        default_model: default_model.map(|m| m.to_string()),
        default_timeout,
        audio_device: None,
        voice_patterns: Vec::new(),
    }
}

fn key() -> Option<String> {
    Some("k123".to_string())
}

#[test]
fn load_without_api_key_fails() {
    let r = Config::load(&args(), None, &ConfigFile::default());
    assert!(matches!(r, Err(VoclipError::MissingApiKey)));
}

#[test]
fn load_defaults() {
    let c = Config::load(&args(), key(), &ConfigFile::default()).unwrap();
    assert_eq!(c.api_key, "k123");
    assert_eq!(c.timeout, 3);
    assert_eq!(c.model, SpeechModel::U3RtPro);
    assert_eq!(c.delay, 1);
}

#[test]
fn load_uses_command_line_model() {
    let mut a = args();
    a.model = Some("Multi".to_string());
    let c = Config::load(&a, key(), &ConfigFile::default()).unwrap();
    assert_eq!(c.model, SpeechModel::UniversalMultilingual);
}

#[test]
fn load_rejects_unknown_command_line_model() {
    let mut a = args();
    a.model = Some("nope".to_string());
    match Config::load(&a, key(), &ConfigFile::default()) {
        Err(VoclipError::InvalidModel(n)) => assert_eq!(n, "nope"),
        _ => panic!("expected an invalid model error"),
    }
}

#[test]
fn load_uses_saved_model_and_falls_back_on_unknown() {
    let file = config_file(Some("english"), None);
    let c = Config::load(&args(), key(), &file).unwrap();
    assert_eq!(c.model, SpeechModel::UniversalEnglish);
    let bad = config_file(Some("garbage"), None);
    let c = Config::load(&args(), key(), &bad).unwrap();
    assert_eq!(c.model, SpeechModel::U3RtPro);
}

#[test]
fn command_line_model_wins_over_saved() {
    let mut a = args();
    a.model = Some("whisper".to_string());
    let file = config_file(Some("english"), None);
    assert_eq!(Config::load(&a, key(), &file).unwrap().model, SpeechModel::WhisperRt);
}

#[test]
fn saved_timeout_is_used_when_command_line_gives_none() {
    let mut file = ConfigFile::default();
    save_default_timeout(&mut file, 7);
    assert_eq!(file.default_timeout, Some(7));
    let c = Config::load(&args(), key(), &file).unwrap();
    assert_eq!(c.timeout, 7);
}

#[test]
fn command_line_timeout_wins() {
    let mut a = args();
    a.timeout = Some(10);
    let file = config_file(None, Some(7));
    assert_eq!(Config::load(&a, key(), &file).unwrap().timeout, 10);
    assert_eq!(DEFAULT_TIMEOUT, 3);
}

#[test]
fn explicit_timeout_of_three_wins_over_saved_default() {
    let mut a = args();
    a.timeout = Some(3);
    let file = config_file(None, Some(5));
    assert_eq!(Config::load(&a, key(), &file).unwrap().timeout, 3);
}

#[test]
fn save_default_model_records_cli_name() {
    let mut file = config_file(None, Some(5));
    let m = save_default_model(&mut file, "EN").unwrap();
    assert_eq!(m, SpeechModel::UniversalEnglish);
    assert_eq!(file.default_model.as_deref(), Some("english"));
    assert_eq!(file.default_timeout, Some(5));
    let c = Config::load(&args(), key(), &file).unwrap();
    assert_eq!(c.model, SpeechModel::UniversalEnglish);
}

#[test]
fn save_default_model_rejects_unknown_and_keeps_config() {
    let mut file = config_file(Some("multi"), None);
    match save_default_model(&mut file, "bogus") {
        Err(VoclipError::InvalidModel(n)) => assert_eq!(n, "bogus"),
        _ => panic!("expected an invalid model error"),
    }
    assert_eq!(file.default_model.as_deref(), Some("multi"));
}

#[test]
fn model_listing_has_padded_columns() {
    let lines = model_listing_lines();
    assert_eq!(
        lines,
        vec![
            "Available speech models:".to_string(),
            "".to_string(),
            "  u3-rt-pro          Latest model, best quality (default)".to_string(),
            "  english            English only, optimized for English speech".to_string(),
            "  multilingual       Multi-language support, auto-detects language".to_string(),
            "  whisper-rt         Whisper-based real-time model".to_string(),
            "".to_string(),
            "Use --model <name> to select for one run.".to_string(),
            "Use --set-default-model <name> to save as default.".to_string(),
        ]
    );
}

#[test]
fn commands_follow_option_priority() {
    let mut a = args();
    assert!(matches!(choose_command(&a), Command::Transcribe));
    a.update = true;
    assert!(matches!(choose_command(&a), Command::Update));
    a.set_default_timeout = Some(4);
    assert!(matches!(choose_command(&a), Command::SetDefaultTimeout(4)));
    a.set_default_model = Some("en".to_string());
    match choose_command(&a) {
        Command::SetDefaultModel(n) => assert_eq!(n, "en"),
        _ => panic!("expected set-default-model"),
    }
    a.list_models = true;
    assert!(matches!(choose_command(&a), Command::ListModels));
    a.version = true;
    assert!(matches!(choose_command(&a), Command::PrintVersion));
}

#[test]
fn only_update_tests_listening_and_transcription_take_the_lock() {
    assert!(Command::Update.needs_lock());
    assert!(Command::Transcribe.needs_lock());
    assert!(Command::Listen.needs_lock());
    assert!(Command::TestVoicePatterns.needs_lock());
    assert!(!Command::TrainWakeWord("x".to_string()).needs_lock());
    assert!(!Command::ListDevices.needs_lock());
    assert!(!Command::PrintVersion.needs_lock());
    assert!(!Command::ListModels.needs_lock());
    assert!(!Command::SetDefaultTimeout(1).needs_lock());
    assert!(!Command::SetDefaultModel("x".to_string()).needs_lock());
}

#[test]
fn error_messages() {
    assert_eq!(
        VoclipError::MissingApiKey.message(),
        "No ASSEMBLYAI_API_KEY found. Set it as an environment variable or in a .env file."
    );
    assert_eq!(
        VoclipError::InvalidModel("x".to_string()).message(),
        "Invalid speech model: x. Use --list-models to see available models."
    );
    assert_eq!(VoclipError::TokenFetch("t".into()).message(), "Failed to fetch temporary token: t");
    assert_eq!(VoclipError::AudioDevice("d".into()).message(), "Audio device error: d");
    assert_eq!(VoclipError::WebSocket("w".into()).message(), "WebSocket error: w");
    assert_eq!(VoclipError::Clipboard("c".into()).message(), "Clipboard error: c");
    assert_eq!(VoclipError::Playback("p".into()).message(), "Audio playback error: p");
    assert_eq!(VoclipError::Config("c".into()).message(), "Config error: c");
    assert_eq!(VoclipError::Keyboard("k".into()).message(), "Keyboard input error: k");
    assert_eq!(VoclipError::WakeWord("w".into()).message(), "Wake word error: w");
    assert_eq!(VoclipError::Api("a".into()).message(), "API error: a");
}

#[test]
fn pattern_modes_and_their_options() {
    let mut a = args();
    a.listen = true;
    assert!(matches!(choose_command(&a), Command::Listen));
    a.test_wakeword = true;
    assert!(matches!(choose_command(&a), Command::TestVoicePatterns));
    a.audio_device = Some("usb".to_string());
    assert!(matches!(choose_command(&a), Command::TestVoicePatterns));
    a.train_wakeword = true;
    a.wakeword_name = "Computer".to_string();
    match choose_command(&a) {
        Command::TrainWakeWord(n) => assert_eq!(n, "Computer"),
        _ => panic!("expected training"),
    }
}

#[test]
fn audio_device_and_wake_word_name_alone_are_saved() {
    let mut a = args();
    a.audio_device = Some("usb".to_string());
    match choose_command(&a) {
        Command::SaveAudioDevice(d) => assert_eq!(d, "usb"),
        _ => panic!("expected saving the device"),
    }
    let mut b = args();
    b.wakeword_name = "Computer".to_string();
    match choose_command(&b) {
        Command::SaveWakeWordName(n) => assert_eq!(n, "Computer"),
        _ => panic!("expected saving the name"),
    }
    let mut c = args();
    c.remove_wakeword = Some("Computer".to_string());
    c.audio_device = Some("usb".to_string());
    assert!(matches!(choose_command(&c), Command::RemoveVoicePattern(_)));
    let mut d = args();
    d.list_devices = true;
    d.list_wakewords = true;
    assert!(matches!(choose_command(&d), Command::ListDevices));
    d.list_devices = false;
    assert!(matches!(choose_command(&d), Command::ListVoicePatterns));
    let mut e = args();
    e.apikey = true;
    assert!(matches!(choose_command(&e), Command::SaveApiKey));
    e.set_default_model = Some("LIST".to_string());
    assert!(matches!(choose_command(&e), Command::ChooseDefaultModel));
}

#[test]
fn train_command_needs_a_name_and_a_key_action() {
    let mut a = args();
    a.train_command = true;
    match choose_command(&a) {
        Command::Refuse(e) => {
            assert!(matches!(e, UsageError::MissingCommandName));
            assert_eq!(e.message(), "--train-command requires --command-name");
        }
        _ => panic!("expected a usage error"),
    }
    a.command_name = Some("press enter".to_string());
    match choose_command(&a) {
        Command::Refuse(e) => assert_eq!(
            e.message(),
            "--train-command requires --command-action (e.g. \"key:Return\")"
        ),
        _ => panic!("expected a usage error"),
    }
    a.command_action = Some("enter".to_string());
    match choose_command(&a) {
        Command::Refuse(e) => assert_eq!(
            e.message(),
            "Invalid action \"enter\". Use \"key:<keyname>\" (e.g. \"key:Return\")"
        ),
        _ => panic!("expected a usage error"),
    }
    a.command_action = Some("key:Return".to_string());
    match choose_command(&a) {
        Command::TrainCommand(n, act) => {
            assert_eq!(n, "press enter");
            assert_eq!(act, "key:Return");
        }
        _ => panic!("expected training a command word"),
    }
}

#[test]
fn run_settings_carry_type_and_device() {
    let mut a = args();
    a.type_output = true;
    let mut f = config_file(None, None);
    save_audio_device(&mut f, "usb mic");
    let c = Config::load(&a, key(), &f).unwrap();
    assert!(c.type_output);
    assert_eq!(c.audio_device.as_deref(), Some("usb mic"));
    a.audio_device = Some("other".to_string());
    assert_eq!(Config::load(&a, key(), &f).unwrap().audio_device.as_deref(), Some("other"));
}

#[test]
fn voice_patterns_are_saved_replaced_and_removed() {
    let mut f = config_file(None, Some(4));
    save_voice_pattern(&mut f, "Computer", &VoiceAction::Transcribe);
    save_voice_pattern(&mut f, "press enter", &VoiceAction::Key("Return".to_string()));
    save_voice_pattern(&mut f, "Computer", &VoiceAction::Key("Tab".to_string()));
    assert_eq!(f.voice_patterns.len(), 2);
    assert_eq!(f.voice_patterns[0].name, "Computer");
    assert!(matches!(&f.voice_patterns[0].action, VoiceAction::Key(k) if k == "Tab"));
    assert_eq!(f.default_timeout, Some(4));
    let ps = voice_patterns_in(&f, "/cfg/voclip");
    assert_eq!(ps[1].name, "press enter");
    assert_eq!(ps[1].path, "/cfg/voclip/press_enter.rpw");
    assert!(remove_voice_pattern(&mut f, "Computer"));
    assert!(!remove_voice_pattern(&mut f, "Computer"));
    assert_eq!(f.voice_patterns.len(), 1);
    assert_eq!(f.voice_patterns[0].name, "press enter");
}

#[test]
fn pattern_file_names_keep_letters_and_digits() {
    assert_eq!(voice_pattern_path("/d", "hey voclip"), "/d/hey_voclip.rpw");
    assert_eq!(voice_pattern_path("/d", "Go-Back 2"), "/d/Go_Back_2.rpw");
}

#[test]
fn model_prompt_answers() {
    assert_eq!(model_for_choice(" 2\n"), Some(SpeechModel::UniversalEnglish));
    assert_eq!(model_for_choice("4"), Some(SpeechModel::WhisperRt));
    assert_eq!(model_for_choice("5"), None);
    assert_eq!(model_for_choice("0"), None);
    assert_eq!(model_for_choice("Multi\n"), Some(SpeechModel::UniversalMultilingual));
    assert_eq!(model_for_choice("nope"), None);
}

#[test]
fn api_key_lines() {
    assert_eq!(api_key_line("  abc123 \n").as_deref(), Some("ASSEMBLYAI_API_KEY=abc123"));
    assert_eq!(api_key_line(" \n"), None);
}
