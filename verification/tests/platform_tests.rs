use voclip::error::VoclipError;
use voclip::platform::{
    clipboard_warning, copy_commands, copy_verified, key_commands, key_for_lowercase,
    keyboard_warning, parse_key_name, paste_commands, type_commands, CliCommand, DepsWarning,
    DisplayEnv, KeyName,
};

fn env(wayland: bool, x11: bool) -> DisplayEnv {
    DisplayEnv { is_linux: true, wayland, x11 }
}

fn view(cmds: &[CliCommand]) -> Vec<(String, Vec<String>)> {
    cmds.iter().map(|c| (c.program.clone(), c.args.clone())).collect()
}

fn cmd(p: &str, args: &[&str]) -> (String, Vec<String>) {
    (p.to_string(), args.iter().map(|a| a.to_string()).collect())
}

#[test]
fn typing_helpers_in_order() {
    assert_eq!(
        view(&type_commands(env(true, true), "hi")),
        vec![
            cmd("wtype", &["--", "hi"]),
            cmd("ydotool", &["type", "--", "hi"]),
            cmd("xdotool", &["type", "--clearmodifiers", "--", "hi"]),
        ]
    );
    assert_eq!(view(&type_commands(env(false, true), "x")), vec![cmd("xdotool", &["type", "--clearmodifiers", "--", "x"])]);
    assert!(type_commands(env(false, false), "x").is_empty());
}

#[test]
fn key_helpers_in_order() {
    assert_eq!(
        view(&key_commands(env(true, true), "Return")),
        vec![cmd("wtype", &["-k", "Return"]), cmd("xdotool", &["key", "Return"])]
    );
    assert!(key_commands(env(false, false), "Tab").is_empty());
}

#[test]
fn clipboard_helpers_in_order() {
    assert_eq!(
        view(&copy_commands(env(true, false))),
        vec![
            cmd("wl-copy", &[]),
            cmd("xclip", &["-selection", "clipboard"]),
            cmd("xsel", &["--clipboard", "--input"]),
            cmd("pbcopy", &[]),
        ]
    );
    assert_eq!(copy_commands(env(false, true)).len(), 3);
    assert_eq!(
        view(&paste_commands(env(true, false))),
        vec![
            cmd("wl-paste", &[]),
            cmd("xclip", &["-selection", "clipboard", "-o"]),
            cmd("xsel", &["--clipboard", "--output"]),
            cmd("pbpaste", &[]),
        ]
    );
}

#[test]
fn copy_confirmation() {
    assert!(copy_verified(true, "hello\n", " hello"));
    assert!(!copy_verified(true, "hello", "help"));
    assert!(copy_verified(false, "hello", "hello"));
    assert!(!copy_verified(false, "hello\n", "hello"));
}

#[test]
fn key_names() {
    assert_eq!(parse_key_name("Return").unwrap(), KeyName::Return);
    assert_eq!(parse_key_name("ENTER").unwrap(), KeyName::Return);
    assert_eq!(parse_key_name("BackSpace").unwrap(), KeyName::Backspace);
    assert_eq!(parse_key_name("Page_Up").unwrap(), KeyName::PageUp);
    assert_eq!(parse_key_name("downarrow").unwrap(), KeyName::DownArrow);
    assert_eq!(key_for_lowercase("tab"), Some(KeyName::Tab));
    assert_eq!(key_for_lowercase("Tab"), None);
    assert_eq!(key_for_lowercase("escape"), Some(KeyName::Escape));
    assert_eq!(key_for_lowercase("space"), Some(KeyName::Space));
    assert_eq!(key_for_lowercase("delete"), Some(KeyName::Delete));
    assert_eq!(key_for_lowercase("up"), Some(KeyName::UpArrow));
    assert_eq!(key_for_lowercase("left"), Some(KeyName::LeftArrow));
    assert_eq!(key_for_lowercase("rightarrow"), Some(KeyName::RightArrow));
    assert_eq!(key_for_lowercase("home"), Some(KeyName::Home));
    assert_eq!(key_for_lowercase("end"), Some(KeyName::End));
    assert_eq!(key_for_lowercase("page_down"), Some(KeyName::PageDown));
}

#[test]
fn unknown_key_name_is_a_keyboard_error() {
    match parse_key_name("F13") {
        Err(VoclipError::Keyboard(m)) => assert_eq!(
            m,
            "Unknown key: F13. Supported: Return, BackSpace, Tab, Escape, Space, Delete, Up, Down, Left, Right, Home, End, PageUp, PageDown"
        ),
        _ => panic!("expected a keyboard error"),
    }
}

#[test]
fn helper_warnings() {
    let mac = DisplayEnv { is_linux: false, wayland: false, x11: false };
    assert_eq!(keyboard_warning(mac, false, false, false), None);
    assert_eq!(clipboard_warning(mac, false, false, false), None);
    assert_eq!(keyboard_warning(env(true, true), false, false, true), Some(DepsWarning::KeyboardWayland));
    assert_eq!(keyboard_warning(env(true, false), false, true, false), None);
    assert_eq!(keyboard_warning(env(false, true), true, true, false), Some(DepsWarning::KeyboardX11));
    assert_eq!(keyboard_warning(env(false, false), true, true, true), Some(DepsWarning::KeyboardNoDisplay));
    assert_eq!(clipboard_warning(env(true, false), false, true, true), Some(DepsWarning::ClipboardWayland));
    assert_eq!(clipboard_warning(env(false, true), true, false, true), None);
    assert_eq!(clipboard_warning(env(false, true), true, false, false), Some(DepsWarning::ClipboardX11));
    assert_eq!(clipboard_warning(env(false, false), true, true, true), Some(DepsWarning::ClipboardNoDisplay));
}

#[test]
fn warning_lines() {
    assert_eq!(
        DepsWarning::KeyboardWayland.lines(),
        vec![
            "Warning: wtype/ydotool not found. Keyboard typing will use enigo fallback.".to_string(),
            "  Install with: sudo apt install wtype".to_string(),
            "  Or: sudo apt install ydotool".to_string(),
        ]
    );
    assert_eq!(
        DepsWarning::ClipboardNoDisplay.lines(),
        vec!["Warning: No display server detected. Clipboard may not work.".to_string()]
    );
    assert_eq!(DepsWarning::ClipboardX11.lines().len(), 2);
}
