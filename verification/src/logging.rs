//! How the node writes its log: the filter, the format and the timestamps
//! that follow from the command line.

use vstd::prelude::*;
use vstd::string::*;

verus! {

/// The most verbose level that is logged.
#[derive(Debug, Clone, Copy, PartialEq, Eq, Structural)]
pub enum LevelFilter {
    Off,
    Error,
    Warn,
    Info,
    Debug,
    Trace,
}

/// The shape of a log line.
#[derive(Debug, Clone, Copy, PartialEq, Eq, Structural)]
pub enum LogFormat {
    /// One JSON object per line, with a timestamp.
    Json,
    /// Readable text with a timestamp.
    Text,
    /// Readable text without a timestamp.
    TextWithoutTime,
}

/// The settings of the log subscriber.
#[derive(Debug, Clone, PartialEq, Eq)]
pub struct LogSettings {
    /// The filter directive: the crate's name, `=`, and the level.
    pub directive: String,
    /// Whether lines are coloured.
    pub ansi: bool,
    /// Whether lines name the module that logged them.
    pub target: bool,
    /// The pattern of a timestamp, where the format has one.
    pub time_format: String,
    pub format: LogFormat,
}

/// What [`LogSettings`] are, as mathematical values.
pub struct LogSettingsView {
    pub directive: Seq<char>,
    pub ansi: bool,
    pub target: bool,
    pub time_format: Seq<char>,
    pub format: LogFormat,
}

impl View for LogSettings {
    type V = LogSettingsView;

    open spec fn view(&self) -> LogSettingsView {
        LogSettingsView {
            directive: self.directive@,
            ansi: self.ansi,
            target: self.target,
            time_format: self.time_format@,
            format: self.format,
        }
    }
}

/// The view of optional settings.
pub open spec fn optional_settings(settings: Option<LogSettings>) -> Option<LogSettingsView> {
    match settings {
        Some(s) => Some(s@),
        None => None,
    }
}

/// The name of a level in a filter directive.
pub open spec fn level_name(level: LevelFilter) -> Seq<char> {
    match level {
        LevelFilter::Off => "off"@,
        LevelFilter::Error => "error"@,
        LevelFilter::Warn => "warn"@,
        LevelFilter::Info => "info"@,
        LevelFilter::Debug => "debug"@,
        LevelFilter::Trace => "trace"@,
    }
}

/// The format that the two switches ask for: JSON wins over the switch that
/// drops the timestamp.
pub open spec fn format_for(json_format: bool, no_timestamp: bool) -> LogFormat {
    if json_format {
        LogFormat::Json
    } else if no_timestamp {
        LogFormat::TextWithoutTime
    } else {
        LogFormat::Text
    }
}

/// The settings of the log subscriber; none where logging is off. Lines are
/// coloured exactly where they go to a terminal, and never name a module.
pub open spec fn settings_for(
    level: LevelFilter,
    json_format: bool,
    no_timestamp: bool,
    is_terminal: bool,
) -> Option<LogSettingsView> {
    if level == LevelFilter::Off {
        None
    } else {
        Some(
            LogSettingsView {
                directive: "rendezvous_server="@ + level_name(level),
                ansi: is_terminal,
                target: false,
                time_format: "%F %T"@,
                format: format_for(json_format, no_timestamp),
            },
        )
    }
}

impl LevelFilter {
    /// The name of the level in a filter directive.
    pub fn name(&self) -> (text: &'static str)
        ensures
            text@ == level_name(*self),
    {
        match self {
            LevelFilter::Off => "off",
            LevelFilter::Error => "error",
            LevelFilter::Warn => "warn",
            LevelFilter::Info => "info",
            LevelFilter::Debug => "debug",
            LevelFilter::Trace => "trace",
        }
    }
}

/// Decides how the node logs. `is_terminal` says whether the log goes to a
/// terminal.
pub fn init_tracing(
    level: LevelFilter,
    json_format: bool,
    no_timestamp: bool,
    is_terminal: bool,
) -> (settings: Option<LogSettings>)
    ensures
        optional_settings(settings) == settings_for(level, json_format, no_timestamp, is_terminal),
{
    if level == LevelFilter::Off {
        return None;
    }
    let mut directive = String::from_str("rendezvous_server=");
    directive.append(level.name());
    let format = if json_format {
        LogFormat::Json
    } else if no_timestamp {
        LogFormat::TextWithoutTime
    } else {
        LogFormat::Text
    };
    Some(
        LogSettings {
            directive,
            ansi: is_terminal,
            target: false,
            time_format: String::from_str("%F %T"),
            format,
        },
    )
}

/// Logging is set up for every level but `Off`, and the format depends on the
/// two switches alone: JSON where it is asked for, else text, with a
/// timestamp unless the timestamp is switched off.
pub proof fn lemma_log_format(
    level: LevelFilter,
    json_format: bool,
    no_timestamp: bool,
    is_terminal: bool,
)
    ensures
        settings_for(level, json_format, no_timestamp, is_terminal) is Some <==> level
            != LevelFilter::Off,
        settings_for(level, json_format, no_timestamp, is_terminal) matches Some(settings) ==> {
            &&& (settings.format == LogFormat::Json <==> json_format)
            &&& (settings.format == LogFormat::TextWithoutTime <==> !json_format && no_timestamp)
            &&& (settings.format == LogFormat::Text <==> !json_format && !no_timestamp)
            &&& settings.ansi == is_terminal
        },
{
}

} // verus!
