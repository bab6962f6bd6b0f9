use vstd::prelude::*;
use std::path::PathBuf;
use crate::text::{lowercase, to_lowercase};

verus! {

/// Makes `std::path::PathBuf` known, as an opaque type: paths are only carried through.
#[verifier::external_type_specification]
#[verifier::external_body]
pub struct ExPathBuf(PathBuf);

/// How signals are written out.
#[derive(Debug, Clone, Copy, PartialEq, Eq, Structural)]
pub enum SignalOutputMode {
    Text,
    Json,
}

/// What the stream prints beside signals.
#[derive(Debug, Clone, Copy)]
pub struct StreamOutputConfig {
    pub show_state: bool,
    pub show_events: bool,
}

/// The output section of a stream configuration file; each setting may be left out.
#[derive(Debug)]
pub struct OutputConfigFile {
    pub mode: Option<String>,
    pub show_state: Option<bool>,
    pub show_events: Option<bool>,
    pub log_signals: Option<PathBuf>,
}

/// The output settings of a stream, once command line and file are taken together.
#[derive(Debug)]
pub struct StreamOutputSettings {
    pub mode: SignalOutputMode,
    pub output: StreamOutputConfig,
    pub log_signals: Option<PathBuf>,
}

/// The mode that a name gives, ignoring case: `text` or `json`.
pub open spec fn output_mode_named(name: Seq<char>) -> Option<SignalOutputMode> {
    if lowercase(name) == "text"@ {
        Some(SignalOutputMode::Text)
    } else if lowercase(name) == "json"@ {
        Some(SignalOutputMode::Json)
    } else {
        None
    }
}

/// A setting from the command line if given there, else from the file if given there, else the default.
pub open spec fn first_given<T>(command_line: Option<T>, file: Option<T>, default: T) -> T {
    match command_line {
        Some(v) => v,
        None => match file {
            Some(v) => v,
            None => default,
        },
    }
}

/// The mode that a name gives, ignoring case: `text` or `json`; `None` for any other name.
pub fn parse_output_mode(value: &str) -> (m: Option<SignalOutputMode>)
    ensures
        m == output_mode_named(value@),
{
    let lowered = to_lowercase(value);
    if lowered == "text".to_owned() {
        Some(SignalOutputMode::Text)
    } else if lowered == "json".to_owned() {
        Some(SignalOutputMode::Json)
    } else {
        None
    }
}

/// Takes the command line's output settings together with the file's: a setting given
/// on the command line wins, then one given in the file (a mode name the file gives that
/// is neither `text` nor `json` counts as not given); otherwise text output, no state and
/// no event summaries, and no signal log.
pub fn resolve_output_settings(
    mode: Option<SignalOutputMode>,
    show_state: Option<bool>,
    show_events: Option<bool>,
    log_signals: Option<PathBuf>,
    file: Option<OutputConfigFile>,
) -> (s: StreamOutputSettings)
    ensures
        s.mode == first_given(
            mode,
            match file {
                Some(f) => match f.mode {
                    Some(name) => output_mode_named(name@),
                    None => None,
                },
                None => None,
            },
            SignalOutputMode::Text,
        ),
        s.output.show_state == first_given(show_state, match file { Some(f) => f.show_state, None => None }, false),
        s.output.show_events == first_given(show_events, match file { Some(f) => f.show_events, None => None }, false),
        s.log_signals == match log_signals {
            Some(p) => Some(p),
            None => match file {
                Some(f) => f.log_signals,
                None => None,
            },
        },
{
    let (file_mode, file_state, file_events, file_log) = match file {
        Some(f) => {
            let m = match &f.mode {
                Some(name) => parse_output_mode(name.as_str()),
                None => None,
            };
            (m, f.show_state, f.show_events, f.log_signals)
        },
        None => (None, None, None, None),
    };
    let mode = match mode {
        Some(m) => m,
        None => match file_mode {
            Some(m) => m,
            None => SignalOutputMode::Text,
        },
    };
    let show_state = match show_state {
        Some(v) => v,
        None => match file_state {
            Some(v) => v,
            None => false,
        },
    };
    let show_events = match show_events {
        Some(v) => v,
        None => match file_events {
            Some(v) => v,
            None => false,
        },
    };
    let log_signals = match log_signals {
        Some(p) => Some(p),
        None => file_log,
    };
    StreamOutputSettings { mode, output: StreamOutputConfig { show_state, show_events }, log_signals }
}

} // verus!
