//! Decisions about the desktop environment: which helper programs to run for
//! typing, key presses and the clipboard, in which order, which warning to
//! show when a helper is missing, and how keys are named.
use vstd::prelude::*;
use crate::error::VoclipError;
use crate::text::{
    ascii_lower_char, ascii_lowercase, join3, lowercased, str_eq, to_lowercase, trim, trimmed,
};

verus! {

broadcast use vstd::string::group_string_axioms;

/// What the environment shows about the display server.
#[derive(Clone, Copy)]
pub struct DisplayEnv {
    /// The program runs on Linux.
    pub is_linux: bool,
    /// A Wayland display is set (`WAYLAND_DISPLAY`).
    pub wayland: bool,
    /// An X11 display is set (`DISPLAY`).
    pub x11: bool,
}

/// A helper program to run, with its arguments.
pub struct CliCommand {
    pub program: String,
    pub args: Vec<String>,
}

impl View for CliCommand {
    type V = (Seq<char>, Seq<Seq<char>>);

    open spec fn view(&self) -> (Seq<char>, Seq<Seq<char>>) {
        (self.program@, self.args@.map_values(|a: String| a@))
    }
}

/// The views of a list of commands.
pub open spec fn commands_view(v: Seq<CliCommand>) -> Seq<(Seq<char>, Seq<Seq<char>>)> {
    v.map_values(|c: CliCommand| c@)
}

fn command(program: &str, args: Vec<String>) -> (res: CliCommand)
    ensures
        res@ == (program@, args@.map_values(|a: String| a@)),
{
    CliCommand { program: String::from_str(program), args }
}

fn push_arg(args: &mut Vec<String>, a: &str)
    ensures
        final(args)@.map_values(|s: String| s@) == old(args)@.map_values(|s: String| s@).push(a@),
{
    args.push(String::from_str(a));
    assert(final(args)@.map_values(|s: String| s@) =~= old(args)@.map_values(|s: String| s@).push(
        a@,
    ));
}

fn push_command(list: &mut Vec<CliCommand>, c: CliCommand)
    ensures
        commands_view(final(list)@) == commands_view(old(list)@).push(c@),
{
    list.push(c);
    assert(commands_view(final(list)@) =~= commands_view(old(list)@).push(c@));
}

fn args0() -> (res: Vec<String>)
    ensures
        res@.map_values(|a: String| a@) == Seq::<Seq<char>>::empty(),
{
    let v: Vec<String> = Vec::new();
    assert(v@.map_values(|a: String| a@) =~= Seq::<Seq<char>>::empty());
    v
}

fn args1(a: &str) -> (res: Vec<String>)
    ensures
        res@.map_values(|s: String| s@) == seq![a@],
{
    let mut v = args0();
    push_arg(&mut v, a);
    assert(v@.map_values(|s: String| s@) =~= seq![a@]);
    v
}

fn args2(a: &str, b: &str) -> (res: Vec<String>)
    ensures
        res@.map_values(|s: String| s@) == seq![a@, b@],
{
    let mut v = args1(a);
    push_arg(&mut v, b);
    assert(v@.map_values(|s: String| s@) =~= seq![a@, b@]);
    v
}

fn args3(a: &str, b: &str, c: &str) -> (res: Vec<String>)
    ensures
        res@.map_values(|s: String| s@) == seq![a@, b@, c@],
{
    let mut v = args2(a, b);
    push_arg(&mut v, c);
    assert(v@.map_values(|s: String| s@) =~= seq![a@, b@, c@]);
    v
}

fn args4(a: &str, b: &str, c: &str, d: &str) -> (res: Vec<String>)
    ensures
        res@.map_values(|s: String| s@) == seq![a@, b@, c@, d@],
{
    let mut v = args3(a, b, c);
    push_arg(&mut v, d);
    assert(v@.map_values(|s: String| s@) =~= seq![a@, b@, c@, d@]);
    v
}

// ---------------------------------------------------------------------------
// Typing and key presses
// ---------------------------------------------------------------------------

/// The helpers that type `text`, in the order they are tried: on Wayland
/// `wtype` then `ydotool`, on X11 `xdotool`. The first that succeeds ends
/// the attempt; when none does, typing falls back to simulated input.
pub open spec fn type_commands_spec(env: DisplayEnv, text: Seq<char>) -> Seq<
    (Seq<char>, Seq<Seq<char>>),
> {
    (if env.wayland {
        seq![("wtype"@, seq!["--"@, text]), ("ydotool"@, seq!["type"@, "--"@, text])]
    } else {
        Seq::empty()
    }) + (if env.x11 {
        seq![("xdotool"@, seq!["type"@, "--clearmodifiers"@, "--"@, text])]
    } else {
        Seq::empty()
    })
}

/// The helpers that type `text` (see [`type_commands_spec`]).
pub fn type_commands(env: DisplayEnv, text: &str) -> (res: Vec<CliCommand>)
    ensures
        commands_view(res@) == type_commands_spec(env, text@),
{
    let mut list: Vec<CliCommand> = Vec::new();
    if env.wayland {
        push_command(&mut list, command("wtype", args2("--", text)));
        push_command(&mut list, command("ydotool", args3("type", "--", text)));
    }
    if env.x11 {
        push_command(&mut list, command("xdotool", args4("type", "--clearmodifiers", "--", text)));
    }
    assert(commands_view(list@) =~= type_commands_spec(env, text@));
    list
}

/// The helpers that press the key named `key`, in the order they are tried:
/// `wtype -k` on Wayland, `xdotool key` on X11.
pub open spec fn key_commands_spec(env: DisplayEnv, key: Seq<char>) -> Seq<
    (Seq<char>, Seq<Seq<char>>),
> {
    (if env.wayland {
        seq![("wtype"@, seq!["-k"@, key])]
    } else {
        Seq::empty()
    }) + (if env.x11 {
        seq![("xdotool"@, seq!["key"@, key])]
    } else {
        Seq::empty()
    })
}

/// The helpers that press a key (see [`key_commands_spec`]).
pub fn key_commands(env: DisplayEnv, key: &str) -> (res: Vec<CliCommand>)
    ensures
        commands_view(res@) == key_commands_spec(env, key@),
{
    let mut list: Vec<CliCommand> = Vec::new();
    if env.wayland {
        push_command(&mut list, command("wtype", args2("-k", key)));
    }
    if env.x11 {
        push_command(&mut list, command("xdotool", args2("key", key)));
    }
    assert(commands_view(list@) =~= key_commands_spec(env, key@));
    list
}

/// The keys that simulated input can press.
#[derive(Debug, Clone, Copy, PartialEq, Eq, Structural)]
pub enum KeyName {
    Return,
    Backspace,
    Tab,
    Escape,
    Space,
    Delete,
    UpArrow,
    DownArrow,
    LeftArrow,
    RightArrow,
    Home,
    End,
    PageUp,
    PageDown,
}

/// The key that an already lowercased key name denotes.
pub open spec fn key_for_lowercase_spec(s: Seq<char>) -> Option<KeyName> {
    if s == "return"@ || s == "enter"@ {
        Some(KeyName::Return)
    } else if s == "backspace"@ {
        Some(KeyName::Backspace)
    } else if s == "tab"@ {
        Some(KeyName::Tab)
    } else if s == "escape"@ {
        Some(KeyName::Escape)
    } else if s == "space"@ {
        Some(KeyName::Space)
    } else if s == "delete"@ {
        Some(KeyName::Delete)
    } else if s == "up"@ || s == "uparrow"@ {
        Some(KeyName::UpArrow)
    } else if s == "down"@ || s == "downarrow"@ {
        Some(KeyName::DownArrow)
    } else if s == "left"@ || s == "leftarrow"@ {
        Some(KeyName::LeftArrow)
    } else if s == "right"@ || s == "rightarrow"@ {
        Some(KeyName::RightArrow)
    } else if s == "home"@ {
        Some(KeyName::Home)
    } else if s == "end"@ {
        Some(KeyName::End)
    } else if s == "pageup"@ || s == "page_up"@ {
        Some(KeyName::PageUp)
    } else if s == "pagedown"@ || s == "page_down"@ {
        Some(KeyName::PageDown)
    } else {
        None
    }
}

/// The key that an already lowercased key name denotes.
pub fn key_for_lowercase(s: &str) -> (res: Option<KeyName>)
    ensures
        res == key_for_lowercase_spec(s@),
{
    if str_eq(s, "return") || str_eq(s, "enter") {
        Some(KeyName::Return)
    } else if str_eq(s, "backspace") {
        Some(KeyName::Backspace)
    } else if str_eq(s, "tab") {
        Some(KeyName::Tab)
    } else if str_eq(s, "escape") {
        Some(KeyName::Escape)
    } else if str_eq(s, "space") {
        Some(KeyName::Space)
    } else if str_eq(s, "delete") {
        Some(KeyName::Delete)
    } else if str_eq(s, "up") || str_eq(s, "uparrow") {
        Some(KeyName::UpArrow)
    } else if str_eq(s, "down") || str_eq(s, "downarrow") {
        Some(KeyName::DownArrow)
    } else if str_eq(s, "left") || str_eq(s, "leftarrow") {
        Some(KeyName::LeftArrow)
    } else if str_eq(s, "right") || str_eq(s, "rightarrow") {
        Some(KeyName::RightArrow)
    } else if str_eq(s, "home") {
        Some(KeyName::Home)
    } else if str_eq(s, "end") {
        Some(KeyName::End)
    } else if str_eq(s, "pageup") || str_eq(s, "page_up") {
        Some(KeyName::PageUp)
    } else if str_eq(s, "pagedown") || str_eq(s, "page_down") {
        Some(KeyName::PageDown)
    } else {
        None
    }
}

/// The message for a key name that names no key.
pub open spec fn unknown_key_message(name: Seq<char>) -> Seq<char> {
    "Unknown key: "@ + name
        + ". Supported: Return, BackSpace, Tab, Escape, Space, Delete, Up, Down, Left, Right, Home, End, PageUp, PageDown"@
}

/// The key that a key name denotes, case-insensitively; an error naming it
/// if it denotes none.
pub fn parse_key_name(key_name: &str) -> (res: Result<KeyName, VoclipError>)
    ensures
        match key_for_lowercase_spec(lowercased(key_name@)) {
            Some(k) => res == Ok::<KeyName, VoclipError>(k),
            None => res matches Err(VoclipError::Keyboard(m)) && m@ == unknown_key_message(
                key_name@,
            ),
        },
{
    let lower = to_lowercase(key_name);
    match key_for_lowercase(lower.as_str()) {
        Some(k) => Ok(k),
        None => Err(
            VoclipError::Keyboard(
                join3(
                    "Unknown key: ",
                    key_name,
                    ". Supported: Return, BackSpace, Tab, Escape, Space, Delete, Up, Down, Left, Right, Home, End, PageUp, PageDown",
                ),
            ),
        ),
    }
}

// ---------------------------------------------------------------------------
// Clipboard
// ---------------------------------------------------------------------------

/// The helpers that copy to the clipboard, in the order they are tried:
/// `wl-copy` on Wayland, then `xclip`, `xsel` and `pbcopy` whatever the
/// display. The first that can be started decides; its exit status tells
/// whether the copy succeeded.
pub open spec fn copy_commands_spec(env: DisplayEnv) -> Seq<(Seq<char>, Seq<Seq<char>>)> {
    (if env.wayland {
        seq![("wl-copy"@, Seq::<Seq<char>>::empty())]
    } else {
        Seq::empty()
    }) + seq![
        ("xclip"@, seq!["-selection"@, "clipboard"@]),
        ("xsel"@, seq!["--clipboard"@, "--input"@]),
        ("pbcopy"@, Seq::<Seq<char>>::empty()),
    ]
}

/// The helpers that copy to the clipboard (see [`copy_commands_spec`]).
pub fn copy_commands(env: DisplayEnv) -> (res: Vec<CliCommand>)
    ensures
        commands_view(res@) == copy_commands_spec(env),
{
    let mut list: Vec<CliCommand> = Vec::new();
    if env.wayland {
        push_command(&mut list, command("wl-copy", args0()));
    }
    push_command(&mut list, command("xclip", args2("-selection", "clipboard")));
    push_command(&mut list, command("xsel", args2("--clipboard", "--input")));
    push_command(&mut list, command("pbcopy", args0()));
    assert(commands_view(list@) =~= copy_commands_spec(env));
    list
}

/// The helpers that read the clipboard back, in the order they are tried:
/// `wl-paste` on Wayland, then `xclip -o`, `xsel --output` and `pbpaste`.
/// The first that runs and succeeds gives the text.
pub open spec fn paste_commands_spec(env: DisplayEnv) -> Seq<(Seq<char>, Seq<Seq<char>>)> {
    (if env.wayland {
        seq![("wl-paste"@, Seq::<Seq<char>>::empty())]
    } else {
        Seq::empty()
    }) + seq![
        ("xclip"@, seq!["-selection"@, "clipboard"@, "-o"@]),
        ("xsel"@, seq!["--clipboard"@, "--output"@]),
        ("pbpaste"@, Seq::<Seq<char>>::empty()),
    ]
}

/// The helpers that read the clipboard (see [`paste_commands_spec`]).
pub fn paste_commands(env: DisplayEnv) -> (res: Vec<CliCommand>)
    ensures
        commands_view(res@) == paste_commands_spec(env),
{
    let mut list: Vec<CliCommand> = Vec::new();
    if env.wayland {
        push_command(&mut list, command("wl-paste", args0()));
    }
    push_command(&mut list, command("xclip", args3("-selection", "clipboard", "-o")));
    push_command(&mut list, command("xsel", args2("--clipboard", "--output")));
    push_command(&mut list, command("pbpaste", args0()));
    assert(commands_view(list@) =~= paste_commands_spec(env));
    list
}

/// Whether what the clipboard gives back confirms the copy: after a copy by
/// a helper program the two texts are compared without surrounding
/// whitespace (helpers may add a line break); after a copy through the
/// clipboard library they must be equal.
pub open spec fn copy_confirmed(by_helper: bool, readback: Seq<char>, text: Seq<char>) -> bool {
    if by_helper {
        trimmed(readback) == trimmed(text)
    } else {
        readback == text
    }
}

/// Whether the clipboard's content confirms a copy (see [`copy_confirmed`]).
pub fn copy_verified(by_helper: bool, readback: &str, text: &str) -> (res: bool)
    ensures
        res == copy_confirmed(by_helper, readback@, text@),
{
    if by_helper {
        str_eq(trim(readback), trim(text))
    } else {
        str_eq(readback, text)
    }
}

// ---------------------------------------------------------------------------
// Missing helpers
// ---------------------------------------------------------------------------

/// A warning about missing helper programs.
#[derive(Debug, Clone, Copy, PartialEq, Eq, Structural)]
pub enum DepsWarning {
    KeyboardWayland,
    KeyboardX11,
    KeyboardNoDisplay,
    ClipboardWayland,
    ClipboardX11,
    ClipboardNoDisplay,
}

/// The warning about typing helpers, if any: none off Linux; on Wayland when
/// neither `wtype` nor `ydotool` is found; on X11 when `xdotool` is not
/// found; always when no display is set.
pub open spec fn keyboard_warning_spec(
    env: DisplayEnv,
    has_wtype: bool,
    has_ydotool: bool,
    has_xdotool: bool,
) -> Option<DepsWarning> {
    if !env.is_linux {
        None
    } else if env.wayland {
        if !has_wtype && !has_ydotool {
            Some(DepsWarning::KeyboardWayland)
        } else {
            None
        }
    } else if env.x11 {
        if !has_xdotool {
            Some(DepsWarning::KeyboardX11)
        } else {
            None
        }
    } else {
        Some(DepsWarning::KeyboardNoDisplay)
    }
}

/// The warning about typing helpers (see [`keyboard_warning_spec`]).
pub fn keyboard_warning(env: DisplayEnv, has_wtype: bool, has_ydotool: bool, has_xdotool: bool) -> (res:
    Option<DepsWarning>)
    ensures
        res == keyboard_warning_spec(env, has_wtype, has_ydotool, has_xdotool),
{
    if !env.is_linux {
        None
    } else if env.wayland {
        if !has_wtype && !has_ydotool {
            Some(DepsWarning::KeyboardWayland)
        } else {
            None
        }
    } else if env.x11 {
        if !has_xdotool {
            Some(DepsWarning::KeyboardX11)
        } else {
            None
        }
    } else {
        Some(DepsWarning::KeyboardNoDisplay)
    }
}

/// The warning about clipboard helpers, if any: none off Linux; on Wayland
/// when `wl-copy` is not found; on X11 when neither `xclip` nor `xsel` is
/// found; always when no display is set.
pub open spec fn clipboard_warning_spec(
    env: DisplayEnv,
    has_wl_copy: bool,
    has_xclip: bool,
    has_xsel: bool,
) -> Option<DepsWarning> {
    if !env.is_linux {
        None
    } else if env.wayland {
        if !has_wl_copy {
            Some(DepsWarning::ClipboardWayland)
        } else {
            None
        }
    } else if env.x11 {
        if !has_xclip && !has_xsel {
            Some(DepsWarning::ClipboardX11)
        } else {
            None
        }
    } else {
        Some(DepsWarning::ClipboardNoDisplay)
    }
}

/// The warning about clipboard helpers (see [`clipboard_warning_spec`]).
pub fn clipboard_warning(env: DisplayEnv, has_wl_copy: bool, has_xclip: bool, has_xsel: bool) -> (res:
    Option<DepsWarning>)
    ensures
        res == clipboard_warning_spec(env, has_wl_copy, has_xclip, has_xsel),
{
    if !env.is_linux {
        None
    } else if env.wayland {
        if !has_wl_copy {
            Some(DepsWarning::ClipboardWayland)
        } else {
            None
        }
    } else if env.x11 {
        if !has_xclip && !has_xsel {
            Some(DepsWarning::ClipboardX11)
        } else {
            None
        }
    } else {
        Some(DepsWarning::ClipboardNoDisplay)
    }
}

impl DepsWarning {
    pub open spec fn spec_lines(self) -> Seq<Seq<char>> {
        match self {
            DepsWarning::KeyboardWayland => seq![
                "Warning: wtype/ydotool not found. Keyboard typing will use enigo fallback."@,
                "  Install with: sudo apt install wtype"@,
                "  Or: sudo apt install ydotool"@,
            ],
            DepsWarning::KeyboardX11 => seq![
                "Warning: xdotool not found. Keyboard typing will use enigo fallback."@,
                "  Install with: sudo apt install xdotool"@,
            ],
            DepsWarning::KeyboardNoDisplay => seq![
                "Warning: No display server detected. Keyboard typing may not work."@,
            ],
            DepsWarning::ClipboardWayland => seq![
                "Warning: wl-copy not found. Clipboard will not persist after exit."@,
                "  Install with: sudo apt install wl-clipboard"@,
            ],
            DepsWarning::ClipboardX11 => seq![
                "Warning: xclip/xsel not found. Clipboard will not persist after exit."@,
                "  Install with: sudo apt install xclip"@,
            ],
            DepsWarning::ClipboardNoDisplay => seq![
                "Warning: No display server detected. Clipboard may not work."@,
            ],
        }
    }

    /// The lines of the warning, as shown.
    pub fn lines(&self) -> (res: Vec<String>)
        ensures
            res@.map_values(|s: String| s@) == self.spec_lines(),
    {
        let v = match self {
            DepsWarning::KeyboardWayland => args3(
                "Warning: wtype/ydotool not found. Keyboard typing will use enigo fallback.",
                "  Install with: sudo apt install wtype",
                "  Or: sudo apt install ydotool",
            ),
            DepsWarning::KeyboardX11 => args2(
                "Warning: xdotool not found. Keyboard typing will use enigo fallback.",
                "  Install with: sudo apt install xdotool",
            ),
            DepsWarning::KeyboardNoDisplay => args1(
                "Warning: No display server detected. Keyboard typing may not work.",
            ),
            DepsWarning::ClipboardWayland => args2(
                "Warning: wl-copy not found. Clipboard will not persist after exit.",
                "  Install with: sudo apt install wl-clipboard",
            ),
            DepsWarning::ClipboardX11 => args2(
                "Warning: xclip/xsel not found. Clipboard will not persist after exit.",
                "  Install with: sudo apt install xclip",
            ),
            DepsWarning::ClipboardNoDisplay => args1(
                "Warning: No display server detected. Clipboard may not work.",
            ),
        };
        v
    }
}

/// Off Linux no helper warning is ever shown.
pub proof fn lemma_no_warnings_off_linux(env: DisplayEnv, a: bool, b: bool, c: bool)
    requires
        !env.is_linux,
    ensures
        keyboard_warning_spec(env, a, b, c) is None,
        clipboard_warning_spec(env, a, b, c) is None,
{
}

// ---------------------------------------------------------------------------
// Laws
// ---------------------------------------------------------------------------

/// Copying goes to the clipboard, not to the primary selection: whatever the
/// display, `wl-copy` comes first exactly on Wayland, and the helpers after
/// it are `xclip -selection clipboard`, `xsel --clipboard --input` and
/// `pbcopy`, in that order.
pub proof fn lemma_copy_helpers(env: DisplayEnv)
    ensures
        ({
            let l = copy_commands_spec(env);
            let off: int = if env.wayland { 1 } else { 0 };
            &&& l.len() == off + 3
            &&& env.wayland ==> l[0] == ("wl-copy"@, Seq::<Seq<char>>::empty())
            &&& l[off] == ("xclip"@, seq!["-selection"@, "clipboard"@])
            &&& l[off + 1] == ("xsel"@, seq!["--clipboard"@, "--input"@])
            &&& l[off + 2] == ("pbcopy"@, Seq::<Seq<char>>::empty())
        }),
{
}

/// Reading the clipboard back asks the same helpers, in the same order, as
/// the copy: `wl-paste` answers `wl-copy`, `pbpaste` answers `pbcopy`, and
/// `xclip` and `xsel` read the clipboard selection they wrote.
pub proof fn lemma_paste_matches_copy(env: DisplayEnv)
    ensures
        ({
            let c = copy_commands_spec(env);
            let p = paste_commands_spec(env);
            &&& c.len() == p.len()
            &&& forall|i: int|
                0 <= i < c.len() ==> {
                    &&& (c[i].0 == "wl-copy"@ <==> p[i].0 == "wl-paste"@)
                    &&& (c[i].0 == "pbcopy"@ <==> p[i].0 == "pbpaste"@)
                    &&& (c[i].0 == "xclip"@ ==> p[i] == ("xclip"@, c[i].1.push("-o"@)))
                    &&& (c[i].0 == "xsel"@ ==> p[i] == ("xsel"@, seq!["--clipboard"@, "--output"@]))
                }
        }),
{
    reveal_strlit("wl-copy");
    reveal_strlit("wl-paste");
    reveal_strlit("pbcopy");
    reveal_strlit("pbpaste");
    reveal_strlit("xclip");
    reveal_strlit("xsel");
    let c = copy_commands_spec(env);
    let p = paste_commands_spec(env);
    assert("xclip"@.len() != "wl-copy"@.len());
    assert("xsel"@.len() != "wl-copy"@.len());
    assert("pbcopy"@.len() != "wl-copy"@.len());
    assert("xclip"@.len() != "pbcopy"@.len());
    assert("xsel"@.len() != "pbcopy"@.len());
    assert("xclip"@.len() != "xsel"@.len());
    assert("xclip"@.len() != "wl-paste"@.len());
    assert("xsel"@.len() != "wl-paste"@.len());
    assert("pbpaste"@.len() != "wl-paste"@.len());
    assert("xclip"@.len() != "pbpaste"@.len());
    assert("xsel"@.len() != "pbpaste"@.len());
    assert(seq!["-selection"@, "clipboard"@].push("-o"@) =~= seq!["-selection"@, "clipboard"@, "-o"@]);
}

/// Every typing helper gets the text exactly as given, as its last
/// argument, right after `--` (so that a text that starts with `-` is not
/// taken for an option); Wayland offers two helpers and X11 one.
pub proof fn lemma_typing_passes_text_unchanged(env: DisplayEnv, text: Seq<char>)
    ensures
        ({
            let l = type_commands_spec(env, text);
            &&& l.len() == (if env.wayland { 2int } else { 0 }) + (if env.x11 { 1int } else { 0 })
            &&& forall|i: int|
                0 <= i < l.len() ==> {
                    &&& (#[trigger] l[i]).1.len() >= 2
                    &&& l[i].1.last() == text
                    &&& l[i].1[l[i].1.len() - 2] == "--"@
                }
        }),
{
}

/// Every key-press helper gets the key's name exactly as given, as its last
/// argument.
pub proof fn lemma_key_press_passes_name_unchanged(env: DisplayEnv, key: Seq<char>)
    ensures
        ({
            let l = key_commands_spec(env, key);
            &&& l.len() == (if env.wayland { 1int } else { 0 }) + (if env.x11 { 1int } else { 0 })
            &&& forall|i: int| 0 <= i < l.len() ==> (#[trigger] l[i]).1.last() == key
        }),
{
}

/// The name under which the unknown-key message lists a key.
pub open spec fn key_label(k: KeyName) -> Seq<char> {
    match k {
        KeyName::Return => "Return"@,
        KeyName::Backspace => "BackSpace"@,
        KeyName::Tab => "Tab"@,
        KeyName::Escape => "Escape"@,
        KeyName::Space => "Space"@,
        KeyName::Delete => "Delete"@,
        KeyName::UpArrow => "Up"@,
        KeyName::DownArrow => "Down"@,
        KeyName::LeftArrow => "Left"@,
        KeyName::RightArrow => "Right"@,
        KeyName::Home => "Home"@,
        KeyName::End => "End"@,
        KeyName::PageUp => "PageUp"@,
        KeyName::PageDown => "PageDown"@,
    }
}

proof fn lemma_lowercase_of_label(label: Seq<char>, lower: Seq<char>)
    requires
        label.len() == lower.len(),
        forall|i: int|
            0 <= i < label.len() ==> (#[trigger] label[i] as u32) < 128 && ascii_lower_char(label[i])
                == lower[i],
    ensures
        lowercased(label) == lower,
{
    assert(ascii_lowercase(label) =~= lower);
}

/// Every key name that the unknown-key message lists denotes its key, in
/// any case: parsing the listed name of a key gives that key back, so
/// different listed names never give the same key.
#[verifier::spinoff_prover]
pub proof fn lemma_listed_key_names(k: KeyName)
    ensures
        key_for_lowercase_spec(lowercased(key_label(k))) == Some(k),
{
    reveal_strlit("return");
    reveal_strlit("enter");
    reveal_strlit("backspace");
    reveal_strlit("tab");
    reveal_strlit("escape");
    reveal_strlit("space");
    reveal_strlit("delete");
    reveal_strlit("up");
    reveal_strlit("uparrow");
    reveal_strlit("down");
    reveal_strlit("downarrow");
    reveal_strlit("left");
    reveal_strlit("leftarrow");
    reveal_strlit("right");
    reveal_strlit("rightarrow");
    reveal_strlit("home");
    reveal_strlit("end");
    reveal_strlit("pageup");
    reveal_strlit("page_up");
    reveal_strlit("pagedown");
    reveal_strlit("page_down");
    match k {
        KeyName::Return => {
            reveal_strlit("Return");
            lemma_lowercase_of_label("Return"@, "return"@);
            assert(key_for_lowercase_spec("return"@) == Some(KeyName::Return));
            assert(lowercased(key_label(KeyName::Return)) == "return"@);
        },
        KeyName::Backspace => {
            reveal_strlit("BackSpace");
            lemma_lowercase_of_label("BackSpace"@, "backspace"@);
            assert("backspace"@.len() != "return"@.len());
            assert("backspace"@.len() != "enter"@.len());
            assert(key_for_lowercase_spec("backspace"@) == Some(KeyName::Backspace));
            assert(lowercased(key_label(KeyName::Backspace)) == "backspace"@);
        },
        KeyName::Tab => {
            reveal_strlit("Tab");
            lemma_lowercase_of_label("Tab"@, "tab"@);
            assert("tab"@.len() != "return"@.len());
            assert("tab"@.len() != "enter"@.len());
            assert("tab"@.len() != "backspace"@.len());
            assert(key_for_lowercase_spec("tab"@) == Some(KeyName::Tab));
            assert(lowercased(key_label(KeyName::Tab)) == "tab"@);
        },
        KeyName::Escape => {
            reveal_strlit("Escape");
            lemma_lowercase_of_label("Escape"@, "escape"@);
            assert("escape"@[0] != "return"@[0]);
            assert("escape"@.len() != "enter"@.len());
            assert("escape"@.len() != "backspace"@.len());
            assert("escape"@.len() != "tab"@.len());
            assert(key_for_lowercase_spec("escape"@) == Some(KeyName::Escape));
            assert(lowercased(key_label(KeyName::Escape)) == "escape"@);
        },
        KeyName::Space => {
            reveal_strlit("Space");
            lemma_lowercase_of_label("Space"@, "space"@);
            assert("space"@[0] != "enter"@[0]);
            assert("space"@.len() != "return"@.len());
            assert("space"@.len() != "backspace"@.len());
            assert("space"@.len() != "tab"@.len());
            assert("space"@.len() != "escape"@.len());
            assert(key_for_lowercase_spec("space"@) == Some(KeyName::Space));
            assert(lowercased(key_label(KeyName::Space)) == "space"@);
        },
        KeyName::Delete => {
            reveal_strlit("Delete");
            lemma_lowercase_of_label("Delete"@, "delete"@);
            assert("delete"@[0] != "return"@[0]);
            assert("delete"@[0] != "escape"@[0]);
            assert("delete"@.len() != "enter"@.len());
            assert("delete"@.len() != "backspace"@.len());
            assert("delete"@.len() != "tab"@.len());
            assert("delete"@.len() != "space"@.len());
            assert(key_for_lowercase_spec("delete"@) == Some(KeyName::Delete));
            assert(lowercased(key_label(KeyName::Delete)) == "delete"@);
        },
        KeyName::UpArrow => {
            reveal_strlit("Up");
            lemma_lowercase_of_label("Up"@, "up"@);
            assert("up"@.len() != "return"@.len());
            assert("up"@.len() != "enter"@.len());
            assert("up"@.len() != "backspace"@.len());
            assert("up"@.len() != "tab"@.len());
            assert("up"@.len() != "escape"@.len());
            assert("up"@.len() != "space"@.len());
            assert("up"@.len() != "delete"@.len());
            assert(key_for_lowercase_spec("up"@) == Some(KeyName::UpArrow));
            assert(lowercased(key_label(KeyName::UpArrow)) == "up"@);
        },
        KeyName::DownArrow => {
            reveal_strlit("Down");
            lemma_lowercase_of_label("Down"@, "down"@);
            assert("down"@.len() != "return"@.len());
            assert("down"@.len() != "enter"@.len());
            assert("down"@.len() != "backspace"@.len());
            assert("down"@.len() != "tab"@.len());
            assert("down"@.len() != "escape"@.len());
            assert("down"@.len() != "space"@.len());
            assert("down"@.len() != "delete"@.len());
            assert("down"@.len() != "up"@.len());
            assert("down"@.len() != "uparrow"@.len());
            assert(key_for_lowercase_spec("down"@) == Some(KeyName::DownArrow));
            assert(lowercased(key_label(KeyName::DownArrow)) == "down"@);
        },
        KeyName::LeftArrow => {
            reveal_strlit("Left");
            lemma_lowercase_of_label("Left"@, "left"@);
            assert("left"@[0] != "down"@[0]);
            assert("left"@.len() != "return"@.len());
            assert("left"@.len() != "enter"@.len());
            assert("left"@.len() != "backspace"@.len());
            assert("left"@.len() != "tab"@.len());
            assert("left"@.len() != "escape"@.len());
            assert("left"@.len() != "space"@.len());
            assert("left"@.len() != "delete"@.len());
            assert("left"@.len() != "up"@.len());
            assert("left"@.len() != "uparrow"@.len());
            assert("left"@.len() != "downarrow"@.len());
            assert(key_for_lowercase_spec("left"@) == Some(KeyName::LeftArrow));
            assert(lowercased(key_label(KeyName::LeftArrow)) == "left"@);
        },
        KeyName::RightArrow => {
            reveal_strlit("Right");
            lemma_lowercase_of_label("Right"@, "right"@);
            assert("right"@[0] != "enter"@[0]);
            assert("right"@[0] != "space"@[0]);
            assert("right"@.len() != "return"@.len());
            assert("right"@.len() != "backspace"@.len());
            assert("right"@.len() != "tab"@.len());
            assert("right"@.len() != "escape"@.len());
            assert("right"@.len() != "delete"@.len());
            assert("right"@.len() != "up"@.len());
            assert("right"@.len() != "uparrow"@.len());
            assert("right"@.len() != "down"@.len());
            assert("right"@.len() != "downarrow"@.len());
            assert("right"@.len() != "left"@.len());
            assert("right"@.len() != "leftarrow"@.len());
            assert(key_for_lowercase_spec("right"@) == Some(KeyName::RightArrow));
            assert(lowercased(key_label(KeyName::RightArrow)) == "right"@);
        },
        KeyName::Home => {
            reveal_strlit("Home");
            lemma_lowercase_of_label("Home"@, "home"@);
            assert("home"@[0] != "down"@[0]);
            assert("home"@[0] != "left"@[0]);
            assert("home"@.len() != "return"@.len());
            assert("home"@.len() != "enter"@.len());
            assert("home"@.len() != "backspace"@.len());
            assert("home"@.len() != "tab"@.len());
            assert("home"@.len() != "escape"@.len());
            assert("home"@.len() != "space"@.len());
            assert("home"@.len() != "delete"@.len());
            assert("home"@.len() != "up"@.len());
            assert("home"@.len() != "uparrow"@.len());
            assert("home"@.len() != "downarrow"@.len());
            assert("home"@.len() != "leftarrow"@.len());
            assert("home"@.len() != "right"@.len());
            assert("home"@.len() != "rightarrow"@.len());
            assert(key_for_lowercase_spec("home"@) == Some(KeyName::Home));
            assert(lowercased(key_label(KeyName::Home)) == "home"@);
        },
        KeyName::End => {
            reveal_strlit("End");
            lemma_lowercase_of_label("End"@, "end"@);
            assert("end"@[0] != "tab"@[0]);
            assert("end"@.len() != "return"@.len());
            assert("end"@.len() != "enter"@.len());
            assert("end"@.len() != "backspace"@.len());
            assert("end"@.len() != "escape"@.len());
            assert("end"@.len() != "space"@.len());
            assert("end"@.len() != "delete"@.len());
            assert("end"@.len() != "up"@.len());
            assert("end"@.len() != "uparrow"@.len());
            assert("end"@.len() != "down"@.len());
            assert("end"@.len() != "downarrow"@.len());
            assert("end"@.len() != "left"@.len());
            assert("end"@.len() != "leftarrow"@.len());
            assert("end"@.len() != "right"@.len());
            assert("end"@.len() != "rightarrow"@.len());
            assert("end"@.len() != "home"@.len());
            assert(key_for_lowercase_spec("end"@) == Some(KeyName::End));
            assert(lowercased(key_label(KeyName::End)) == "end"@);
        },
        KeyName::PageUp => {
            reveal_strlit("PageUp");
            lemma_lowercase_of_label("PageUp"@, "pageup"@);
            assert("pageup"@[0] != "return"@[0]);
            assert("pageup"@[0] != "escape"@[0]);
            assert("pageup"@[0] != "delete"@[0]);
            assert("pageup"@.len() != "enter"@.len());
            assert("pageup"@.len() != "backspace"@.len());
            assert("pageup"@.len() != "tab"@.len());
            assert("pageup"@.len() != "space"@.len());
            assert("pageup"@.len() != "up"@.len());
            assert("pageup"@.len() != "uparrow"@.len());
            assert("pageup"@.len() != "down"@.len());
            assert("pageup"@.len() != "downarrow"@.len());
            assert("pageup"@.len() != "left"@.len());
            assert("pageup"@.len() != "leftarrow"@.len());
            assert("pageup"@.len() != "right"@.len());
            assert("pageup"@.len() != "rightarrow"@.len());
            assert("pageup"@.len() != "home"@.len());
            assert("pageup"@.len() != "end"@.len());
            assert(key_for_lowercase_spec("pageup"@) == Some(KeyName::PageUp));
            assert(lowercased(key_label(KeyName::PageUp)) == "pageup"@);
        },
        KeyName::PageDown => {
            reveal_strlit("PageDown");
            lemma_lowercase_of_label("PageDown"@, "pagedown"@);
            assert("pagedown"@.len() != "return"@.len());
            assert("pagedown"@.len() != "enter"@.len());
            assert("pagedown"@.len() != "backspace"@.len());
            assert("pagedown"@.len() != "tab"@.len());
            assert("pagedown"@.len() != "escape"@.len());
            assert("pagedown"@.len() != "space"@.len());
            assert("pagedown"@.len() != "delete"@.len());
            assert("pagedown"@.len() != "up"@.len());
            assert("pagedown"@.len() != "uparrow"@.len());
            assert("pagedown"@.len() != "down"@.len());
            assert("pagedown"@.len() != "downarrow"@.len());
            assert("pagedown"@.len() != "left"@.len());
            assert("pagedown"@.len() != "leftarrow"@.len());
            assert("pagedown"@.len() != "right"@.len());
            assert("pagedown"@.len() != "rightarrow"@.len());
            assert("pagedown"@.len() != "home"@.len());
            assert("pagedown"@.len() != "end"@.len());
            assert("pagedown"@.len() != "pageup"@.len());
            assert("pagedown"@.len() != "page_up"@.len());
            assert(key_for_lowercase_spec("pagedown"@) == Some(KeyName::PageDown));
            assert(lowercased(key_label(KeyName::PageDown)) == "pagedown"@);
        },
    }
}

} // verus!
