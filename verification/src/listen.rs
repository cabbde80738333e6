//! The decisions of always-on listen mode: it starts only with a trained
//! voice pattern, and each detection is answered by the action of the
//! pattern it belongs to, until the user interrupts or the audio ends.
use vstd::prelude::*;
use crate::error::VoclipError;
use crate::wakeword::{pattern_counts, trained_count, wake_word_count, VoiceAction, VoicePattern};

verus! {

broadcast use vstd::string::group_string_axioms;

/// The message with which listen and test mode refuse to start when no
/// voice pattern is trained.
pub open spec fn no_trained_message() -> Seq<char> {
    "No trained voice patterns found. Run --train-wakeword or --train-command first."@
}

/// The numbers of trained wake words and command words, for a mode that
/// needs at least one trained pattern; a wake word error when none is.
pub fn trained_pattern_counts(patterns: &Vec<VoicePattern>, trained: &Vec<bool>) -> (res: Result<
    (usize, usize),
    VoclipError,
>)
    requires
        trained@.len() == patterns@.len(),
    ensures
        match res {
            Ok((wake, commands)) => {
                &&& wake == wake_word_count(patterns@, trained@)
                &&& wake + commands == trained_count(trained@)
                &&& trained_count(trained@) > 0
            },
            Err(e) => {
                &&& trained_count(trained@) == 0
                &&& e matches VoclipError::WakeWord(m) && m@ == no_trained_message()
            },
        },
{
    let (wake, commands) = pattern_counts(patterns, trained);
    if wake == 0 && commands == 0 {
        return Err(
            VoclipError::WakeWord(
                String::from_str(
                    "No trained voice patterns found. Run --train-wakeword or --train-command first.",
                ),
            ),
        );
    }
    Ok((wake, commands))
}

/// What happens while listen mode waits for a voice pattern.
pub enum ListenEvent {
    /// A frame gave a detection that belongs to the pattern at this index.
    Detected(usize),
    /// The user pressed Ctrl+C.
    Interrupted,
    /// The audio capture ended.
    AudioClosed,
}

/// What listen mode does next.
pub enum ListenAction {
    /// Record, transcribe and type one utterance.
    Transcribe,
    /// Press the named key.
    PressKey(String),
    /// Stop listening.
    Stop,
}

/// The answer to an event: the action, whether the audio buffered before
/// it is dropped first, whether the audio captured while it ran is dropped
/// after it, and whether listen mode then waits for the next voice pattern.
pub struct ListenStep {
    pub action: ListenAction,
    pub drop_audio_before: bool,
    pub drop_audio_after: bool,
    pub resume: bool,
}

/// The action that answers an event: a detection is answered by what its
/// pattern triggers; an interruption or the end of the audio stops.
pub open spec fn listen_action(patterns: Seq<VoicePattern>, event: ListenEvent) -> ListenAction {
    match event {
        ListenEvent::Detected(i) => match patterns[i as int].action {
            VoiceAction::Transcribe => ListenAction::Transcribe,
            VoiceAction::Key(k) => ListenAction::PressKey(k),
        },
        _ => ListenAction::Stop,
    }
}

/// The answer to an event: a detection's action runs between two drops of
/// the audio (so that neither the audio that led to it nor the audio of
/// the action itself is detected again) and listening resumes after it; a
/// stop drops nothing and does not resume.
pub open spec fn listen_answer(patterns: Seq<VoicePattern>, event: ListenEvent) -> ListenStep {
    let go_on = event is Detected;
    ListenStep {
        action: listen_action(patterns, event),
        drop_audio_before: go_on,
        drop_audio_after: go_on,
        resume: go_on,
    }
}

/// The answer to an event (see [`listen_answer`]).
pub fn listen_step(patterns: &Vec<VoicePattern>, event: ListenEvent) -> (res: ListenStep)
    requires
        event matches ListenEvent::Detected(i) ==> i < patterns@.len(),
    ensures
        res == listen_answer(patterns@, event),
{
    match event {
        ListenEvent::Detected(i) => {
            let action = match &patterns[i].action {
                VoiceAction::Transcribe => ListenAction::Transcribe,
                VoiceAction::Key(k) => ListenAction::PressKey(k.clone()),
            };
            ListenStep { action, drop_audio_before: true, drop_audio_after: true, resume: true }
        },
        _ => ListenStep {
            action: ListenAction::Stop,
            drop_audio_before: false,
            drop_audio_after: false,
            resume: false,
        },
    }
}

/// Every action that answers a detection runs with the audio dropped before
/// and after it, and listening resumes; listen mode stops only when the
/// user interrupts it or the audio ends, and then with the stop action.
pub proof fn lemma_detections_drop_audio_and_resume(patterns: Seq<VoicePattern>, event: ListenEvent)
    requires
        event matches ListenEvent::Detected(i) ==> 0 <= i < patterns.len(),
    ensures
        listen_answer(patterns, event).resume <==> event is Detected,
        event is Detected ==> listen_answer(patterns, event).drop_audio_before
            && listen_answer(patterns, event).drop_audio_after
            && !(listen_answer(patterns, event).action is Stop),
        !(event is Detected) ==> listen_answer(patterns, event).action is Stop,
{
}

} // verus!
