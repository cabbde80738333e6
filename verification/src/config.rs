//! Command-line options, the saved config file and the settings that a run
//! uses, with the rules by which the settings are chosen.
use vstd::prelude::*;
use crate::error::VoclipError;
use crate::speech_model::{all_models, lemma_cli_name_round_trip, model_for_name, SpeechModel};
use crate::text::{
    eq_ignore_ascii_case,
    eq_ignore_ascii_case_spec,
    join2,
    join3,
    pad_right,
    pad_right_spec,
    parse_u32,
    parse_u32_spec,
    str_eq,
    trim,
    trimmed,
};
use crate::wakeword::{
    action_text, copy_action, key_action_name, parse_key_action, VoiceAction, VoicePattern,
};

verus! {

/// The silence timeout, in seconds, when neither the command line nor the
/// config file sets one.
pub const DEFAULT_TIMEOUT: u32 = 3;

/// The options of the command line.
pub struct Args {
    /// Print version and exit.
    pub version: bool,
    /// Check for updates and self-update if a newer version is available.
    pub update: bool,
    /// Silence timeout in seconds for this run, if given.
    pub timeout: Option<u32>,
    /// Speech model to use.
    pub model: Option<String>,
    /// Delay in seconds before starting to record (1 when not given).
    pub delay: u32,
    /// List available speech models and exit.
    pub list_models: bool,
    /// Set the default speech model and save to config.
    pub set_default_model: Option<String>,
    /// Set the default silence timeout (seconds) and save to config.
    pub set_default_timeout: Option<u32>,
    /// Type the transcript via the keyboard instead of copying it.
    pub type_output: bool,
    /// Always-on mode with wake word and command word detection.
    pub listen: bool,
    /// Train the wake word (triggers transcription).
    pub train_wakeword: bool,
    /// Train a command word (triggers a key press).
    pub train_command: bool,
    /// Test detection of all trained voice patterns.
    pub test_wakeword: bool,
    /// Name of the wake word ("hey voclip" when not given).
    pub wakeword_name: String,
    /// Name of the command word to train.
    pub command_name: Option<String>,
    /// Action of the command word to train: `key:<keyname>`.
    pub command_action: Option<String>,
    /// Number of training recordings (8 when not given).
    pub wakeword_samples: u32,
    /// Detection sensitivity: low, medium, high or a number ("medium" when
    /// not given).
    pub wakeword_sensitivity: String,
    /// List the configured voice patterns.
    pub list_wakewords: bool,
    /// Remove a trained voice pattern by name.
    pub remove_wakeword: Option<String>,
    /// List the audio input devices.
    pub list_devices: bool,
    /// Audio input device (substring match, saved to config).
    pub audio_device: Option<String>,
    /// Ask for the API key and save it.
    pub apikey: bool,
}

/// The wake word's name when none is given.
pub open spec fn default_wakeword_name() -> Seq<char> {
    "hey voclip"@
}

/// A voice pattern as the config file keeps it: its name and what it
/// triggers.
pub struct SavedPattern {
    pub name: String,
    pub action: VoiceAction,
}

/// The saved patterns as (name, written action) pairs.
pub open spec fn saved_view(v: Seq<SavedPattern>) -> Seq<(Seq<char>, Seq<char>)> {
    v.map_values(|p: SavedPattern| (p.name@, action_text(p.action)))
}

/// The saved defaults.
pub struct ConfigFile {
    pub default_model: Option<String>,
    pub default_timeout: Option<u32>,
    pub audio_device: Option<String>,
    pub voice_patterns: Vec<SavedPattern>,
}

impl Default for ConfigFile {
    fn default() -> (res: Self)
        ensures
            res.default_model is None,
            res.default_timeout is None,
            res.audio_device is None,
            res.voice_patterns@.len() == 0,
    {
        ConfigFile {
            default_model: None,
            default_timeout: None,
            audio_device: None,
            voice_patterns: Vec::new(),
        }
    }
}

/// The settings of one run.
pub struct Config {
    pub api_key: String,
    pub timeout: u32,
    pub model: SpeechModel,
    pub delay: u32,
    pub type_output: bool,
    pub audio_device: Option<String>,
}

/// The audio device a run uses: the one given on the command line, else
/// the saved one, else none (the system's default).
pub open spec fn audio_device_choice(arg: Option<String>, saved: Option<String>) -> Option<String> {
    match arg {
        Some(d) => Some(d),
        None => saved,
    }
}

/// The model a run uses when the command line names none: the saved
/// default if it names a model, else [`SpeechModel::U3RtPro`].
pub open spec fn default_model_choice(saved: Option<String>) -> SpeechModel {
    match saved {
        Some(name) => match model_for_name(name@) {
            Some(m) => m,
            None => SpeechModel::U3RtPro,
        },
        None => SpeechModel::U3RtPro,
    }
}

/// The timeout a run uses: the one given on the command line, else the
/// saved default, else 3.
pub open spec fn timeout_choice(arg: Option<u32>, saved: Option<u32>) -> u32 {
    match arg {
        Some(t) => t,
        None => match saved {
            Some(t) => t,
            None => DEFAULT_TIMEOUT,
        },
    }
}

/// The settings that [`Config::load`] yields, or the error it reports.
pub open spec fn config_load(args: Args, api_key: Option<String>, file: ConfigFile) -> Result<
    Config,
    VoclipError,
> {
    match api_key {
        None => Err(VoclipError::MissingApiKey),
        Some(key) => {
            let timeout = timeout_choice(args.timeout, file.default_timeout);
            let device = audio_device_choice(args.audio_device, file.audio_device);
            match args.model {
                Some(name) => match model_for_name(name@) {
                    Some(m) => Ok(
                        Config {
                            api_key: key,
                            timeout,
                            model: m,
                            delay: args.delay,
                            type_output: args.type_output,
                            audio_device: device,
                        },
                    ),
                    None => Err(VoclipError::InvalidModel(name)),
                },
                None => Ok(
                    Config {
                        api_key: key,
                        timeout,
                        model: default_model_choice(file.default_model),
                        delay: args.delay,
                        type_output: args.type_output,
                        audio_device: device,
                    },
                ),
            }
        },
    }
}

fn saved_model(saved: &Option<String>) -> (res: SpeechModel)
    ensures
        res == default_model_choice(*saved),
{
    match saved {
        Some(name) => match SpeechModel::from_name(name.as_str()) {
            Some(m) => m,
            None => SpeechModel::U3RtPro,
        },
        None => SpeechModel::U3RtPro,
    }
}

impl Config {
    /// The settings of a run, from the command line, the API key found in
    /// the environment (if any) and the saved config file. A missing API key
    /// is an error; so is a model on the command line that names no model.
    pub fn load(args: &Args, api_key: Option<String>, file_config: &ConfigFile) -> (res: Result<
        Config,
        VoclipError,
    >)
        ensures
            res == config_load(*args, api_key, *file_config),
    {
        let api_key = match api_key {
            Some(k) => k,
            None => return Err(VoclipError::MissingApiKey),
        };
        let model = match &args.model {
            Some(name) => match SpeechModel::from_name(name.as_str()) {
                Some(m) => m,
                None => return Err(VoclipError::InvalidModel(name.clone())),
            },
            None => saved_model(&file_config.default_model),
        };
        let timeout = match args.timeout {
            Some(t) => t,
            None => match file_config.default_timeout {
                Some(t) => t,
                None => DEFAULT_TIMEOUT,
            },
        };
        let audio_device = match &args.audio_device {
            Some(d) => Some(d.clone()),
            None => match &file_config.audio_device {
                Some(d) => Some(d.clone()),
                None => None,
            },
        };
        Ok(Config { api_key, timeout, model, delay: args.delay, type_output: args.type_output, audio_device })
    }
}

/// Records `name`'s model as the saved default, under its command-line
/// name. A name that selects no model is an error and changes nothing.
pub fn save_default_model(config: &mut ConfigFile, name: &str) -> (res: Result<
    SpeechModel,
    VoclipError,
>)
    ensures
        match model_for_name(name@) {
            Some(m) => {
                &&& res == Ok::<SpeechModel, VoclipError>(m)
                &&& final(config).default_model matches Some(saved) && saved@ == m.spec_cli_name()
                &&& final(config).default_timeout == old(config).default_timeout
                &&& final(config).audio_device == old(config).audio_device
                &&& final(config).voice_patterns == old(config).voice_patterns
            },
            None => {
                &&& res matches Err(VoclipError::InvalidModel(n)) && n@ == name@
                &&& *final(config) == *old(config)
            },
        },
{
    match SpeechModel::from_name(name) {
        Some(model) => {
            config.default_model = Some(String::from_str(model.cli_name()));
            Ok(model)
        },
        None => Err(VoclipError::InvalidModel(String::from_str(name))),
    }
}

/// Records `secs` as the saved default timeout.
pub fn save_default_timeout(config: &mut ConfigFile, secs: u32)
    ensures
        final(config).default_timeout == Some(secs),
        final(config).default_model == old(config).default_model,
        final(config).audio_device == old(config).audio_device,
        final(config).voice_patterns == old(config).voice_patterns,
{
    config.default_timeout = Some(secs);
}

/// Records `name` as the saved audio input device.
pub fn save_audio_device(config: &mut ConfigFile, name: &str)
    ensures
        final(config).audio_device matches Some(d) && d@ == name@,
        final(config).default_model == old(config).default_model,
        final(config).default_timeout == old(config).default_timeout,
        final(config).voice_patterns == old(config).voice_patterns,
{
    config.audio_device = Some(String::from_str(name));
}

/// Whether a pattern named `name` is saved.
pub open spec fn has_pattern(ps: Seq<(Seq<char>, Seq<char>)>, name: Seq<char>) -> bool {
    exists|i: int| 0 <= i < ps.len() && (#[trigger] ps[i]).0 == name
}

/// The saved patterns after saving `name` with `action`: a saved pattern of
/// that name gets the new action, in its place; otherwise the pattern is
/// added at the end.
pub open spec fn with_pattern(
    ps: Seq<(Seq<char>, Seq<char>)>,
    name: Seq<char>,
    action: Seq<char>,
) -> Seq<(Seq<char>, Seq<char>)> {
    if has_pattern(ps, name) {
        ps.map_values(
            |e: (Seq<char>, Seq<char>)|
                if e.0 == name {
                    (name, action)
                } else {
                    e
                },
        )
    } else {
        ps.push((name, action))
    }
}

/// The saved patterns without those named `name`.
pub open spec fn without_pattern(ps: Seq<(Seq<char>, Seq<char>)>, name: Seq<char>) -> Seq<
    (Seq<char>, Seq<char>),
> {
    ps.filter(|e: (Seq<char>, Seq<char>)| e.0 != name)
}

fn copy_pattern(p: &SavedPattern) -> (res: SavedPattern)
    ensures
        res.name@ == p.name@,
        action_text(res.action) == action_text(p.action),
{
    SavedPattern { name: p.name.clone(), action: copy_action(&p.action) }
}

/// Saves the voice pattern `name` with its action (see [`with_pattern`]);
/// the rest of the config stays.
pub fn save_voice_pattern(config: &mut ConfigFile, name: &str, action: &VoiceAction)
    ensures
        saved_view(final(config).voice_patterns@) == with_pattern(
            saved_view(old(config).voice_patterns@),
            name@,
            action_text(*action),
        ),
        final(config).default_model == old(config).default_model,
        final(config).default_timeout == old(config).default_timeout,
        final(config).audio_device == old(config).audio_device,
{
    let ghost old_view = saved_view(config.voice_patterns@);
    let ghost act = action_text(*action);
    let ghost f = |e: (Seq<char>, Seq<char>)| if e.0 == name@ { (name@, act) } else { e };
    let mut updated: Vec<SavedPattern> = Vec::new();
    let mut found = false;
    let n = config.voice_patterns.len();
    for i in 0..n
        invariant
            n == config.voice_patterns@.len(),
            old_view == saved_view(config.voice_patterns@),
            act == action_text(*action),
            f == (|e: (Seq<char>, Seq<char>)| if e.0 == name@ { (name@, act) } else { e }),
            saved_view(updated@) == old_view.take(i as int).map_values(f),
            found == has_pattern(old_view.take(i as int), name@),
    {
        let p = &config.voice_patterns[i];
        let ghost e = old_view[i as int];
        let entry = if str_eq(p.name.as_str(), name) {
            found = true;
            SavedPattern { name: String::from_str(name), action: copy_action(action) }
        } else {
            copy_pattern(p)
        };
        let ghost before = updated@;
        updated.push(entry);
        proof {
            assert(old_view.take(i + 1) =~= old_view.take(i as int).push(e));
            assert(saved_view(updated@) =~= saved_view(before).push(f(e)));
            assert(old_view.take(i + 1).map_values(f) =~= old_view.take(i as int).map_values(f).push(f(e)));
            if has_pattern(old_view.take(i + 1), name@) && !has_pattern(old_view.take(i as int), name@) {
                let j = choose|j: int| 0 <= j < i + 1 && (#[trigger] old_view.take(i + 1)[j]).0 == name@;
                assert(j == i);
            }
            if has_pattern(old_view.take(i as int), name@) {
                let j = choose|j: int| 0 <= j < i && (#[trigger] old_view.take(i as int)[j]).0 == name@;
                assert(old_view.take(i + 1)[j] == old_view.take(i as int)[j]);
            }
            if e.0 == name@ {
                assert(old_view.take(i + 1)[i as int] == e);
            }
        }
    }
    proof {
        assert(old_view.take(n as int) =~= old_view);
    }
    if !found {
        let ghost before = updated@;
        updated.push(SavedPattern { name: String::from_str(name), action: copy_action(action) });
        proof {
            assert(old_view.map_values(f) =~= old_view) by {
                assert forall|k: int| 0 <= k < old_view.len() implies old_view[k].0 != name@ by {
                    if old_view[k].0 == name@ {
                        assert(has_pattern(old_view, name@));
                    }
                }
            }
            assert(saved_view(updated@) =~= saved_view(before).push((name@, act)));
        }
    }
    config.voice_patterns = updated;
}

/// Removes every saved voice pattern named `name` (see
/// [`without_pattern`]); returns whether there was one. The rest of the
/// config stays.
pub fn remove_voice_pattern(config: &mut ConfigFile, name: &str) -> (res: bool)
    ensures
        saved_view(final(config).voice_patterns@) == without_pattern(
            saved_view(old(config).voice_patterns@),
            name@,
        ),
        res == has_pattern(saved_view(old(config).voice_patterns@), name@),
        final(config).default_model == old(config).default_model,
        final(config).default_timeout == old(config).default_timeout,
        final(config).audio_device == old(config).audio_device,
{
    let ghost old_view = saved_view(config.voice_patterns@);
    let ghost pred = |e: (Seq<char>, Seq<char>)| e.0 != name@;
    let mut kept: Vec<SavedPattern> = Vec::new();
    let mut found = false;
    let n = config.voice_patterns.len();
    for i in 0..n
        invariant
            n == config.voice_patterns@.len(),
            old_view == saved_view(config.voice_patterns@),
            pred == (|e: (Seq<char>, Seq<char>)| e.0 != name@),
            saved_view(kept@) == old_view.take(i as int).filter(pred),
            found == has_pattern(old_view.take(i as int), name@),
    {
        let p = &config.voice_patterns[i];
        let ghost e = old_view[i as int];
        proof {
            assert(old_view.take(i + 1).drop_last() =~= old_view.take(i as int));
            assert(old_view.take(i + 1).last() == e);
            if has_pattern(old_view.take(i as int), name@) {
                let j = choose|j: int| 0 <= j < i && (#[trigger] old_view.take(i as int)[j]).0 == name@;
                assert(old_view.take(i + 1)[j] == old_view.take(i as int)[j]);
            }
            if has_pattern(old_view.take(i + 1), name@) && e.0 != name@ {
                let j = choose|j: int| 0 <= j < i + 1 && (#[trigger] old_view.take(i + 1)[j]).0 == name@;
                assert(old_view.take(i as int)[j] == old_view.take(i + 1)[j]);
            }
            if e.0 == name@ {
                assert(old_view.take(i + 1)[i as int] == e);
            }
            assert(e.0 == p.name@);
            reveal_with_fuel(Seq::filter, 1);
            assert(old_view.take(i + 1).filter(pred) == if pred(e) {
                old_view.take(i as int).filter(pred).push(e)
            } else {
                old_view.take(i as int).filter(pred)
            });
        }
        if str_eq(p.name.as_str(), name) {
            found = true;
        } else {
            let ghost before = kept@;
            kept.push(copy_pattern(p));
            proof {
                assert(saved_view(kept@) =~= saved_view(before).push(e));
            }
        }
    }
    proof {
        assert(old_view.take(n as int) =~= old_view);
    }
    config.voice_patterns = kept;
    found
}

/// The character a pattern's name gives its file name: ASCII letters and
/// digits stay, every other character becomes `_`.
pub open spec fn file_name_char(c: char) -> char {
    if ('a' <= c && c <= 'z') || ('A' <= c && c <= 'Z') || ('0' <= c && c <= '9') {
        c
    } else {
        '_'
    }
}

/// The file name of a pattern's reference: its name, with each character
/// as [`file_name_char`] gives it, and `.rpw`.
pub open spec fn pattern_file_name(name: Seq<char>) -> Seq<char> {
    name.map_values(|c: char| file_name_char(c)) + ".rpw"@
}

/// The path of a pattern's reference file in the directory `dir`.
pub open spec fn pattern_path(dir: Seq<char>, name: Seq<char>) -> Seq<char> {
    dir + "/"@ + pattern_file_name(name)
}

/// The path of the reference file of the pattern `name` in `dir` (see
/// [`pattern_path`]).
pub fn voice_pattern_path(dir: &str, name: &str) -> (res: String)
    ensures
        res@ == pattern_path(dir@, name@),
{
    let mut out = String::from_str(dir);
    out.append("/");
    let ghost start = out@;
    let n = name.unicode_len();
    for i in 0..n
        invariant
            n == name@.len(),
            start == dir@ + "/"@,
            out@ == start + name@.take(i as int).map_values(|c: char| file_name_char(c)),
    {
        let c = name.get_char(i);
        let ghost before = out@;
        if ('a' <= c && c <= 'z') || ('A' <= c && c <= 'Z') || ('0' <= c && c <= '9') {
            out.append(name.substring_char(i, i + 1));
            assert(name@.subrange(i as int, i + 1) =~= seq![c]);
        } else {
            out.append("_");
            proof {
                reveal_strlit("_");
            }
        }
        assert(name@.take(i + 1).map_values(|c: char| file_name_char(c)) =~= name@.take(
            i as int,
        ).map_values(|c: char| file_name_char(c)).push(file_name_char(c)));
        assert(out@ =~= start + name@.take(i + 1).map_values(|c: char| file_name_char(c)));
    }
    out.append(".rpw");
    assert(name@.take(n as int) =~= name@);
    assert(out@ =~= pattern_path(dir@, name@));
    out
}

/// The saved voice patterns, each with the path of its reference file in
/// `dir`, in the saved order.
pub fn voice_patterns_in(config: &ConfigFile, dir: &str) -> (res: Vec<VoicePattern>)
    ensures
        res@.len() == config.voice_patterns@.len(),
        forall|i: int|
            0 <= i < res@.len() ==> {
                let p = #[trigger] res@[i];
                &&& p.name@ == config.voice_patterns@[i].name@
                &&& p.path@ == pattern_path(dir@, p.name@)
                &&& action_text(p.action) == action_text(config.voice_patterns@[i].action)
            },
{
    let mut out: Vec<VoicePattern> = Vec::new();
    for i in 0..config.voice_patterns.len()
        invariant
            out@.len() == i,
            forall|k: int|
                0 <= k < i ==> {
                    let p = #[trigger] out@[k];
                    &&& p.name@ == config.voice_patterns@[k].name@
                    &&& p.path@ == pattern_path(dir@, p.name@)
                    &&& action_text(p.action) == action_text(config.voice_patterns@[k].action)
                },
    {
        let saved = &config.voice_patterns[i];
        let path = voice_pattern_path(dir, saved.name.as_str());
        out.push(VoicePattern { name: saved.name.clone(), path, action: copy_action(&saved.action) });
    }
    out
}

/// The width of the name column in the model listing.
pub const MODEL_NAME_WIDTH: usize = 18;

/// The listing line of one model: its name padded to the column width, a
/// space and its description.
pub open spec fn model_line(m: SpeechModel) -> Seq<char> {
    "  "@ + pad_right_spec(m.spec_cli_name(), MODEL_NAME_WIDTH as nat) + " "@ + m.spec_description()
}

/// The lines that list the models.
pub open spec fn model_listing() -> Seq<Seq<char>> {
    seq!["Available speech models:"@, ""@] + all_models().map_values(|m: SpeechModel| model_line(m))
        + seq![
        ""@,
        "Use --model <name> to select for one run."@,
        "Use --set-default-model <name> to save as default."@,
    ]
}

/// The lines of the model listing, in order.
pub fn model_listing_lines() -> (res: Vec<String>)
    ensures
        res@.map_values(|s: String| s@) == model_listing(),
{
    let mut lines: Vec<String> = Vec::new();
    lines.push(String::from_str("Available speech models:"));
    lines.push(String::from_str(""));
    let models = SpeechModel::all();
    let mut i: usize = 0;
    while i < models.len()
        invariant
            models@ == all_models(),
            i <= models.len(),
            lines@.map_values(|s: String| s@) == seq!["Available speech models:"@, ""@]
                + all_models().take(i as int).map_values(|m: SpeechModel| model_line(m)),
        decreases models.len() - i,
    {
        let m = models[i];
        let ghost before = lines@;
        let padded = pad_right(m.cli_name(), MODEL_NAME_WIDTH);
        let line = join3("  ", padded.as_str(), " ");
        let line = join2(line.as_str(), m.description());
        assert(line@ =~= model_line(m));
        lines.push(line);
        assert(lines@ == before.push(line));
        assert(lines@.map_values(|s: String| s@) =~= before.map_values(|s: String| s@).push(model_line(m)));
        assert(all_models().take(i + 1) =~= all_models().take(i as int).push(m));
        assert(all_models().take(i + 1).map_values(|m: SpeechModel| model_line(m)) =~= all_models().take(i as int).map_values(|m: SpeechModel| model_line(m)).push(model_line(m)));
        assert(lines@.map_values(|s: String| s@) =~= seq!["Available speech models:"@, ""@]
            + all_models().take(i + 1).map_values(|m: SpeechModel| model_line(m)));
        i = i + 1;
    }
    lines.push(String::from_str(""));
    lines.push(String::from_str("Use --model <name> to select for one run."));
    lines.push(String::from_str("Use --set-default-model <name> to save as default."));
    assert(all_models().take(4) =~= all_models());
    assert(lines@.map_values(|s: String| s@) =~= model_listing());
    lines
}

/// A misuse of the command line that stops the program with a message.
pub enum UsageError {
    /// `--train-command` without `--command-name`.
    MissingCommandName,
    /// `--train-command` without `--command-action`.
    MissingCommandAction,
    /// A `--command-action` that is not `key:<keyname>`.
    InvalidAction(String),
}

/// The message of a usage error.
pub open spec fn usage_message(e: UsageError) -> Seq<char> {
    match e {
        UsageError::MissingCommandName => "--train-command requires --command-name"@,
        UsageError::MissingCommandAction =>
            "--train-command requires --command-action (e.g. \"key:Return\")"@,
        UsageError::InvalidAction(a) => "Invalid action \""@ + a@
            + "\". Use \"key:<keyname>\" (e.g. \"key:Return\")"@,
    }
}

impl UsageError {
    /// The message of the error (see [`usage_message`]).
    pub fn message(&self) -> (res: String)
        ensures
            res@ == usage_message(*self),
    {
        match self {
            UsageError::MissingCommandName => String::from_str("--train-command requires --command-name"),
            UsageError::MissingCommandAction => String::from_str(
                "--train-command requires --command-action (e.g. \"key:Return\")",
            ),
            UsageError::InvalidAction(a) => join3(
                "Invalid action \"",
                a.as_str(),
                "\". Use \"key:<keyname>\" (e.g. \"key:Return\")",
            ),
        }
    }
}

/// The model that an answer to the model prompt selects: its number in the
/// listing (counted from 1), or its name; the answer is trimmed first.
pub open spec fn model_for_answer(answer: Seq<char>) -> Option<SpeechModel> {
    let t = trimmed(answer);
    match parse_u32_spec(t) {
        Some(n) => if 1 <= n <= all_models().len() {
            Some(all_models()[n - 1])
        } else {
            None
        },
        None => model_for_name(t),
    }
}

/// The model that an answer to the model prompt selects (see
/// [`model_for_answer`]).
pub fn model_for_choice(answer: &str) -> (res: Option<SpeechModel>)
    ensures
        res == model_for_answer(answer@),
{
    let t = trim(answer);
    match parse_u32(t) {
        Some(n) => {
            let models = SpeechModel::all();
            if 1 <= n && (n as usize) <= models.len() {
                Some(models[(n - 1) as usize])
            } else {
                None
            }
        },
        None => SpeechModel::from_name(t),
    }
}

/// The line that saves an API key in the `.env` file, for the key typed at
/// the prompt (trimmed); nothing when the answer is empty, which leaves the
/// key unchanged.
pub open spec fn api_key_line_for(answer: Seq<char>) -> Option<Seq<char>> {
    let key = trimmed(answer);
    if key.len() == 0 {
        None
    } else {
        Some("ASSEMBLYAI_API_KEY="@ + key)
    }
}

/// The `.env` line for a typed API key (see [`api_key_line_for`]).
pub fn api_key_line(answer: &str) -> (res: Option<String>)
    ensures
        match api_key_line_for(answer@) {
            Some(line) => res matches Some(r) && r@ == line,
            None => res is None,
        },
{
    let key = trim(answer);
    if key.unicode_len() == 0 {
        None
    } else {
        Some(join2("ASSEMBLYAI_API_KEY=", key))
    }
}

/// What one invocation does, as its options decide.
pub enum Command {
    /// Print the version and exit.
    PrintVersion,
    /// List the speech models and exit.
    ListModels,
    /// List the audio input devices and exit.
    ListDevices,
    /// List the configured voice patterns and exit.
    ListVoicePatterns,
    /// Ask which model to save as the default, and save it.
    ChooseDefaultModel,
    /// Save the named model as the default and exit.
    SetDefaultModel(String),
    /// Save a default silence timeout and exit.
    SetDefaultTimeout(u32),
    /// Ask for the API key and save it.
    SaveApiKey,
    /// Remove the named voice pattern from the config.
    RemoveVoicePattern(String),
    /// Save the named audio input device.
    SaveAudioDevice(String),
    /// Save the given name as the wake word's.
    SaveWakeWordName(String),
    /// Train the wake word under its name.
    TrainWakeWord(String),
    /// Train a command word: its name and its action, written `key:<keyname>`.
    TrainCommand(String, String),
    /// Stop with a usage error.
    Refuse(UsageError),
    /// Replace the program with the newest release.
    Update,
    /// Test the detection of the trained voice patterns.
    TestVoicePatterns,
    /// Always-on listen mode.
    Listen,
    /// Record, transcribe and deliver one utterance.
    Transcribe,
}

/// Whether the options ask for one of the modes that use the voice
/// patterns (training, testing, listening).
pub open spec fn pattern_mode(args: Args) -> bool {
    args.train_wakeword || args.train_command || args.listen || args.test_wakeword
}

/// The command for `--train-command`: it needs a name and an action
/// written `key:<keyname>`.
pub open spec fn train_command_for(args: Args) -> Command {
    match args.command_name {
        None => Command::Refuse(UsageError::MissingCommandName),
        Some(name) => match args.command_action {
            None => Command::Refuse(UsageError::MissingCommandAction),
            Some(action) => if key_action_name(action@) is Some {
                Command::TrainCommand(name, action)
            } else {
                Command::Refuse(UsageError::InvalidAction(action))
            },
        },
    }
}

/// The command for a set of options: the first that applies of
/// `--version`, `--list-models`, `--list-devices`, `--list-wakewords`,
/// `--set-default-model` (`list` asks), `--set-default-timeout`,
/// `--apikey`, `--remove-wakeword`, `--audio-device` and `--wakeword-name`
/// (these two save the setting when no pattern mode is asked for),
/// `--train-wakeword`, `--train-command`, `--update`, `--test-wakeword` and
/// `--listen`; otherwise a transcription.
pub open spec fn command_for(args: Args) -> Command {
    if args.version {
        Command::PrintVersion
    } else if args.list_models {
        Command::ListModels
    } else if args.list_devices {
        Command::ListDevices
    } else if args.list_wakewords {
        Command::ListVoicePatterns
    } else if args.set_default_model is Some {
        if eq_ignore_ascii_case_spec(args.set_default_model->0@, "list"@) {
            Command::ChooseDefaultModel
        } else {
            Command::SetDefaultModel(args.set_default_model->0)
        }
    } else if args.set_default_timeout is Some {
        Command::SetDefaultTimeout(args.set_default_timeout->0)
    } else if args.apikey {
        Command::SaveApiKey
    } else if args.remove_wakeword is Some {
        Command::RemoveVoicePattern(args.remove_wakeword->0)
    } else if args.audio_device is Some && !pattern_mode(args) {
        Command::SaveAudioDevice(args.audio_device->0)
    } else if args.wakeword_name@ != default_wakeword_name() && !pattern_mode(args) {
        Command::SaveWakeWordName(args.wakeword_name)
    } else if args.train_wakeword {
        Command::TrainWakeWord(args.wakeword_name)
    } else if args.train_command {
        train_command_for(args)
    } else if args.update {
        Command::Update
    } else if args.test_wakeword {
        Command::TestVoicePatterns
    } else if args.listen {
        Command::Listen
    } else {
        Command::Transcribe
    }
}

fn train_command(args: &Args) -> (res: Command)
    ensures
        res == train_command_for(*args),
{
    match &args.command_name {
        None => Command::Refuse(UsageError::MissingCommandName),
        Some(name) => match &args.command_action {
            None => Command::Refuse(UsageError::MissingCommandAction),
            Some(action) => if parse_key_action(action.as_str()).is_some() {
                Command::TrainCommand(name.clone(), action.clone())
            } else {
                Command::Refuse(UsageError::InvalidAction(action.clone()))
            },
        },
    }
}

/// The command for a set of options (see [`command_for`]).
pub fn choose_command(args: &Args) -> (res: Command)
    ensures
        res == command_for(*args),
{
    let pattern_mode = args.train_wakeword || args.train_command || args.listen || args.test_wakeword;
    if args.version {
        Command::PrintVersion
    } else if args.list_models {
        Command::ListModels
    } else if args.list_devices {
        Command::ListDevices
    } else if args.list_wakewords {
        Command::ListVoicePatterns
    } else if let Some(name) = &args.set_default_model {
        if eq_ignore_ascii_case(name.as_str(), "list") {
            Command::ChooseDefaultModel
        } else {
            Command::SetDefaultModel(name.clone())
        }
    } else if let Some(secs) = args.set_default_timeout {
        Command::SetDefaultTimeout(secs)
    } else if args.apikey {
        Command::SaveApiKey
    } else if let Some(name) = &args.remove_wakeword {
        Command::RemoveVoicePattern(name.clone())
    } else if args.audio_device.is_some() && !pattern_mode {
        match &args.audio_device {
            Some(d) => Command::SaveAudioDevice(d.clone()),
            None => Command::Transcribe,
        }
    } else if !str_eq(args.wakeword_name.as_str(), "hey voclip") && !pattern_mode {
        Command::SaveWakeWordName(args.wakeword_name.clone())
    } else if args.train_wakeword {
        Command::TrainWakeWord(args.wakeword_name.clone())
    } else if args.train_command {
        train_command(args)
    } else if args.update {
        Command::Update
    } else if args.test_wakeword {
        Command::TestVoicePatterns
    } else if args.listen {
        Command::Listen
    } else {
        Command::Transcribe
    }
}

impl Command {
    /// Whether the command runs only while no other instance does: an
    /// update, a test of the voice patterns, listen mode and a
    /// transcription take the single-instance lock.
    pub fn needs_lock(&self) -> (res: bool)
        ensures
            res == (*self is Update || *self is TestVoicePatterns || *self is Listen
                || *self is Transcribe),
    {
        match self {
            Command::Update => true,
            Command::TestVoicePatterns => true,
            Command::Listen => true,
            Command::Transcribe => true,
            _ => false,
        }
    }
}

/// After a pattern is saved, a pattern of that name is saved, and every
/// saved pattern of that name has the new action; patterns of other names
/// keep their place and action.
pub proof fn lemma_saved_pattern_has_action(
    ps: Seq<(Seq<char>, Seq<char>)>,
    name: Seq<char>,
    action: Seq<char>,
)
    ensures
        has_pattern(with_pattern(ps, name, action), name),
        forall|i: int|
            0 <= i < with_pattern(ps, name, action).len() && (#[trigger] with_pattern(
                ps,
                name,
                action,
            )[i]).0 == name ==> with_pattern(ps, name, action)[i].1 == action,
        forall|i: int|
            0 <= i < ps.len() && (#[trigger] ps[i]).0 != name ==> with_pattern(ps, name, action)[i]
                == ps[i],
{
    let r = with_pattern(ps, name, action);
    if has_pattern(ps, name) {
        let i = choose|i: int| 0 <= i < ps.len() && (#[trigger] ps[i]).0 == name;
        assert(r[i].0 == name);
    } else {
        assert(r[ps.len() as int].0 == name);
    }
}

/// After a pattern is removed, no pattern of that name is saved.
pub proof fn lemma_removed_pattern_is_gone(ps: Seq<(Seq<char>, Seq<char>)>, name: Seq<char>)
    ensures
        !has_pattern(without_pattern(ps, name), name),
{
    let pred = |e: (Seq<char>, Seq<char>)| e.0 != name;
    let r = without_pattern(ps, name);
    if has_pattern(r, name) {
        let i = choose|i: int| 0 <= i < r.len() && (#[trigger] r[i]).0 == name;
        ps.lemma_filter_pred(pred, i);
    }
}

/// The settings of a run carry the command line's output mode and delay and
/// the API key found, unchanged; the audio device is the command line's
/// when one is given, else the saved one.
pub proof fn lemma_run_settings_follow_options(args: Args, key: String, file: ConfigFile)
    ensures
        config_load(args, Some(key), file) matches Ok(c) ==> {
            &&& c.type_output == args.type_output
            &&& c.delay == args.delay
            &&& c.api_key == key
            &&& (args.audio_device is Some ==> c.audio_device == args.audio_device)
            &&& (args.audio_device is None ==> c.audio_device == file.audio_device)
        },
        args.model is None ==> config_load(args, Some(key), file) is Ok,
{
}

/// Listen mode is chosen whenever `--listen` is given and no option that
/// comes before it in the order of [`command_for`] is: an audio device or a
/// wake word name given with it is used, not saved.
pub proof fn lemma_listen_is_chosen(args: Args)
    requires
        args.listen,
        !args.version,
        !args.list_models,
        !args.list_devices,
        !args.list_wakewords,
        args.set_default_model is None,
        args.set_default_timeout is None,
        !args.apikey,
        args.remove_wakeword is None,
        !args.train_wakeword,
        !args.train_command,
        !args.update,
        !args.test_wakeword,
    ensures
        command_for(args) is Listen,
{
}

/// Training the wake word is chosen whenever `--train-wakeword` is given
/// and no option that comes before it is, under the name given, whatever
/// audio device is given.
pub proof fn lemma_train_wakeword_is_chosen(args: Args)
    requires
        args.train_wakeword,
        !args.version,
        !args.list_models,
        !args.list_devices,
        !args.list_wakewords,
        args.set_default_model is None,
        args.set_default_timeout is None,
        !args.apikey,
        args.remove_wakeword is None,
    ensures
        command_for(args) == Command::TrainWakeWord(args.wakeword_name),
{
}

/// Testing is chosen whenever `--test-wakeword` is given and no option
/// that comes before it is, whatever audio device or name is given.
pub proof fn lemma_test_is_chosen(args: Args)
    requires
        args.test_wakeword,
        !args.version,
        !args.list_models,
        !args.list_devices,
        !args.list_wakewords,
        args.set_default_model is None,
        args.set_default_timeout is None,
        !args.apikey,
        args.remove_wakeword is None,
        !args.train_wakeword,
        !args.train_command,
        !args.update,
    ensures
        command_for(args) is TestVoicePatterns,
{
}

/// An audio device or a wake word name is saved only when no mode that
/// uses the voice patterns (training, testing, listening) is asked for.
pub proof fn lemma_settings_saved_only_alone(args: Args)
    ensures
        command_for(args) is SaveAudioDevice || command_for(args) is SaveWakeWordName ==> !args.listen
            && !args.train_wakeword && !args.train_command && !args.test_wakeword,
        command_for(args) matches Command::SaveAudioDevice(d) ==> args.audio_device == Some(d),
        command_for(args) matches Command::SaveWakeWordName(n) ==> n == args.wakeword_name
            && n@ != "hey voclip"@,
{
}

/// A saved default model is the model of every later run whose command line
/// names none.
pub proof fn lemma_saved_model_is_used(args: Args, key: String, file: ConfigFile, m: SpeechModel)
    requires
        args.model is None,
        file.default_model matches Some(saved) && model_for_name(saved@) == Some(m),
    ensures
        config_load(args, Some(key), file) matches Ok(c) && c.model == m,
{
}

/// A model saved as the default (with `--set-default-model`, which saves
/// its command-line name) is the model of every later run whose command
/// line names none.
pub proof fn lemma_saved_default_model_round_trip(
    args: Args,
    key: String,
    file: ConfigFile,
    m: SpeechModel,
)
    requires
        args.model is None,
        file.default_model matches Some(saved) && saved@ == m.spec_cli_name(),
    ensures
        config_load(args, Some(key), file) matches Ok(c) && c.model == m,
{
    lemma_cli_name_round_trip(m);
}

/// A model named on the command line wins over the saved default.
pub proof fn lemma_command_line_model_wins(args: Args, key: String, file: ConfigFile, m: SpeechModel)
    requires
        args.model matches Some(name) && model_for_name(name@) == Some(m),
    ensures
        config_load(args, Some(key), file) matches Ok(c) && c.model == m,
{
}

/// A model name on the command line that selects no model stops the run
/// with an error naming it, whatever the saved config holds.
pub proof fn lemma_unknown_model_is_refused(args: Args, key: String, file: ConfigFile)
    requires
        args.model matches Some(name) && model_for_name(name@) is None,
    ensures
        config_load(args, Some(key), file) matches Err(VoclipError::InvalidModel(n)) && Some(n)
            == args.model,
{
}

/// A timeout saved as the default is the timeout of every later run whose
/// command line gives none.
pub proof fn lemma_saved_timeout_is_used(args: Args, key: String, file: ConfigFile, secs: u32)
    requires
        args.timeout is None,
        file.default_timeout == Some(secs),
        args.model is None,
    ensures
        config_load(args, Some(key), file) matches Ok(c) && c.timeout == secs,
{
}

/// A timeout given on the command line is the timeout of that run, whatever
/// the saved default.
pub proof fn lemma_command_line_timeout_wins(args: Args, key: String, file: ConfigFile, secs: u32)
    requires
        args.timeout == Some(secs),
    ensures
        config_load(args, Some(key), file) matches Ok(c) ==> c.timeout == secs,
{
}

/// Without a timeout on the command line or in the config file, a run
/// waits 3 seconds of silence.
pub proof fn lemma_timeout_defaults_to_three(args: Args, key: String, file: ConfigFile)
    requires
        args.timeout is None,
        file.default_timeout is None,
    ensures
        config_load(args, Some(key), file) matches Ok(c) ==> c.timeout == DEFAULT_TIMEOUT,
{
}

/// Without an API key no run starts, whatever else is given.
pub proof fn lemma_api_key_required(args: Args, file: ConfigFile)
    ensures
        config_load(args, None, file) == Err::<Config, VoclipError>(VoclipError::MissingApiKey),
{
}

} // verus!
