//! The errors of the library and the messages shown for them.
use vstd::prelude::*;
use crate::text::{join2, join3};

verus! {

/// Everything that can go wrong; each variant but the first carries a
/// detail text.
#[derive(Debug)]
pub enum VoclipError {
    MissingApiKey,
    TokenFetch(String),
    AudioDevice(String),
    WebSocket(String),
    Clipboard(String),
    Playback(String),
    Config(String),
    Keyboard(String),
    WakeWord(String),
    InvalidModel(String),
    Api(String),
}

/// The message shown for an error.
pub open spec fn error_message(e: VoclipError) -> Seq<char> {
    match e {
        VoclipError::MissingApiKey =>
            "No ASSEMBLYAI_API_KEY found. Set it as an environment variable or in a .env file."@,
        VoclipError::TokenFetch(s) => "Failed to fetch temporary token: "@ + s@,
        VoclipError::AudioDevice(s) => "Audio device error: "@ + s@,
        VoclipError::WebSocket(s) => "WebSocket error: "@ + s@,
        VoclipError::Clipboard(s) => "Clipboard error: "@ + s@,
        VoclipError::Playback(s) => "Audio playback error: "@ + s@,
        VoclipError::Config(s) => "Config error: "@ + s@,
        VoclipError::Keyboard(s) => "Keyboard input error: "@ + s@,
        VoclipError::WakeWord(s) => "Wake word error: "@ + s@,
        VoclipError::InvalidModel(s) =>
            "Invalid speech model: "@ + s@ + ". Use --list-models to see available models."@,
        VoclipError::Api(s) => "API error: "@ + s@,
    }
}

impl VoclipError {
    /// The message shown to the user for this error.
    pub fn message(&self) -> (res: String)
        ensures
            res@ == error_message(*self),
    {
        match self {
            VoclipError::MissingApiKey => String::from_str(
                "No ASSEMBLYAI_API_KEY found. Set it as an environment variable or in a .env file.",
            ),
            VoclipError::TokenFetch(s) => join2("Failed to fetch temporary token: ", s.as_str()),
            VoclipError::AudioDevice(s) => join2("Audio device error: ", s.as_str()),
            VoclipError::WebSocket(s) => join2("WebSocket error: ", s.as_str()),
            VoclipError::Clipboard(s) => join2("Clipboard error: ", s.as_str()),
            VoclipError::Playback(s) => join2("Audio playback error: ", s.as_str()),
            VoclipError::Config(s) => join2("Config error: ", s.as_str()),
            VoclipError::Keyboard(s) => join2("Keyboard input error: ", s.as_str()),
            VoclipError::WakeWord(s) => join2("Wake word error: ", s.as_str()),
            VoclipError::InvalidModel(s) => join3(
                "Invalid speech model: ",
                s.as_str(),
                ". Use --list-models to see available models.",
            ),
            VoclipError::Api(s) => join2("API error: ", s.as_str()),
        }
    }
}

} // verus!
