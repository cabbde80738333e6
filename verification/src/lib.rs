//! Voice to clipboard: the decisions, formats and state machines of a
//! speech-to-text command line tool, with their contracts.
pub mod speech_model;
pub mod text;
pub mod error;
pub mod config;
pub mod wav;
pub mod audio;
pub mod transcription;
pub mod platform;
pub mod beep;
pub mod update;
pub mod lock;
pub mod wakeword;
pub mod detector;
pub mod listen;
