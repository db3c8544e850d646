//! Models of the protocol data that the session reads.
//!
//! The protocol client's own types stay with the caller; these hold
//! exactly the parts that this crate renders or decides on, as strings,
//! integers and options, and logged data as the JSON value it is.

use vstd::prelude::*;
use vstd::string::*;
use crate::json::{json_text, to_text};
use crate::text::{debug_quote, debug_quoted, decimal, decimal_string, same_text};

verus! {

/// Severity of a log message, least severe first.
#[derive(Clone, Copy, Debug, PartialEq, Eq, Structural)]
pub enum LoggingLevel {
    Debug,
    Info,
    Notice,
    Warning,
    Error,
    Critical,
    Alert,
    Emergency,
}

impl LoggingLevel {
    /// The variant's name, as it is shown in rendered notifications.
    pub open spec fn label(self) -> Seq<char> {
        match self {
            LoggingLevel::Debug => "Debug"@,
            LoggingLevel::Info => "Info"@,
            LoggingLevel::Notice => "Notice"@,
            LoggingLevel::Warning => "Warning"@,
            LoggingLevel::Error => "Error"@,
            LoggingLevel::Critical => "Critical"@,
            LoggingLevel::Alert => "Alert"@,
            LoggingLevel::Emergency => "Emergency"@,
        }
    }

    /// The level that a lowercase word names, if it names one.
    pub open spec fn named(word: Seq<char>) -> Option<LoggingLevel> {
        if word == "debug"@ {
            Some(LoggingLevel::Debug)
        } else if word == "info"@ {
            Some(LoggingLevel::Info)
        } else if word == "notice"@ {
            Some(LoggingLevel::Notice)
        } else if word == "warning"@ {
            Some(LoggingLevel::Warning)
        } else if word == "error"@ {
            Some(LoggingLevel::Error)
        } else if word == "critical"@ {
            Some(LoggingLevel::Critical)
        } else if word == "alert"@ {
            Some(LoggingLevel::Alert)
        } else if word == "emergency"@ {
            Some(LoggingLevel::Emergency)
        } else {
            None
        }
    }

    /// The variant's name.
    pub fn name(&self) -> (r: &'static str)
        ensures
            r@ == self.label(),
    {
        match self {
            LoggingLevel::Debug => "Debug",
            LoggingLevel::Info => "Info",
            LoggingLevel::Notice => "Notice",
            LoggingLevel::Warning => "Warning",
            LoggingLevel::Error => "Error",
            LoggingLevel::Critical => "Critical",
            LoggingLevel::Alert => "Alert",
            LoggingLevel::Emergency => "Emergency",
        }
    }

    /// Looks a level up by its lowercase name.
    pub fn from_name(word: &str) -> (r: Option<LoggingLevel>)
        ensures
            r == LoggingLevel::named(word@),
    {
        if same_text(word, "debug") {
            Some(LoggingLevel::Debug)
        } else if same_text(word, "info") {
            Some(LoggingLevel::Info)
        } else if same_text(word, "notice") {
            Some(LoggingLevel::Notice)
        } else if same_text(word, "warning") {
            Some(LoggingLevel::Warning)
        } else if same_text(word, "error") {
            Some(LoggingLevel::Error)
        } else if same_text(word, "critical") {
            Some(LoggingLevel::Critical)
        } else if same_text(word, "alert") {
            Some(LoggingLevel::Alert)
        } else if same_text(word, "emergency") {
            Some(LoggingLevel::Emergency)
        } else {
            None
        }
    }
}

/// A string identifier in structural notation: the word `String`, then
/// the string between quotes in parentheses.
pub open spec fn string_notation(s: Seq<char>) -> Seq<char> {
    "String("@ + debug_quoted(s) + ")"@
}

/// A numeric identifier in structural notation: the word `Number`, then
/// the number in decimal notation in parentheses.
pub open spec fn number_notation(n: int) -> Seq<char> {
    "Number("@ + decimal(n) + ")"@
}

fn write_string_notation(s: &str) -> (r: String)
    ensures
        r@ == string_notation(s@),
{
    let mut r = "String(".to_owned();
    let quoted = debug_quote(s);
    r.append(quoted.as_str());
    r.append(")");
    r
}

fn write_number_notation(n: i64) -> (r: String)
    ensures
        r@ == number_notation(n as int),
{
    let mut r = "Number(".to_owned();
    let digits = decimal_string(n);
    r.append(digits.as_str());
    r.append(")");
    r
}

/// Identifier of a request: a string or a number.
#[derive(Clone, Debug, PartialEq, Eq)]
pub enum RequestId {
    String(String),
    Number(i64),
}

impl RequestId {
    /// The identifier in structural notation: the variant's name, then the
    /// value in parentheses.
    pub open spec fn notation(self) -> Seq<char> {
        match self {
            RequestId::String(s) => string_notation(s@),
            RequestId::Number(n) => number_notation(n as int),
        }
    }

    /// The identifier in structural notation.
    pub fn to_notation(&self) -> (r: String)
        ensures
            r@ == self.notation(),
    {
        match self {
            RequestId::String(s) => write_string_notation(s.as_str()),
            RequestId::Number(n) => write_number_notation(*n),
        }
    }
}

/// Token that ties progress updates to the request they belong to: a string
/// or a number.
#[derive(Clone, Debug, PartialEq, Eq)]
pub enum ProgressToken {
    String(String),
    Number(i64),
}

impl ProgressToken {
    /// The token in structural notation: the variant's name, then the value
    /// in parentheses.
    pub open spec fn notation(self) -> Seq<char> {
        match self {
            ProgressToken::String(s) => string_notation(s@),
            ProgressToken::Number(n) => number_notation(n as int),
        }
    }

    /// The token in structural notation.
    pub fn to_notation(&self) -> (r: String)
        ensures
            r@ == self.notation(),
    {
        match self {
            ProgressToken::String(s) => write_string_notation(s.as_str()),
            ProgressToken::Number(n) => write_number_notation(*n),
        }
    }
}

/// An event pushed by the endpoint. Each variant carries only what rendering
/// it needs.
#[derive(Clone, Debug, PartialEq, Eq)]
pub enum Notification {
    /// A log message.
    LoggingMessage { level: LoggingLevel, logger: Option<String>, data: serde_json::Value },
    /// A subscribed resource changed.
    ResourceUpdated { uri: String },
    /// The list of resources changed.
    ResourceListChanged,
    /// The list of tools changed.
    ToolListChanged,
    /// The list of prompts changed.
    PromptListChanged,
    /// A request was cancelled.
    Cancelled { request_id: RequestId, reason: Option<String> },
    /// Progress of a long-running request; `progress` and `total` are the
    /// numbers as the endpoint's values print.
    Progress {
        progress_token: ProgressToken,
        progress: String,
        total: Option<String>,
        message: Option<String>,
    },
}

/// The characters of `text` if there is one, else `fallback`.
pub open spec fn text_or(text: Option<String>, fallback: Seq<char>) -> Seq<char> {
    match text {
        Some(t) => t@,
        None => fallback,
    }
}

/// The line that a notification is rendered as.
pub open spec fn notification_text(n: Notification) -> Seq<char> {
    match n {
        Notification::LoggingMessage { level, logger, data } => "[NOTIFICATION] "@ + level.label()
            + " ["@ + text_or(logger, "server"@) + "]: "@ + json_text(data),
        Notification::ResourceUpdated { uri } => "[NOTIFICATION] Resource updated: "@ + uri@,
        Notification::ResourceListChanged => "[NOTIFICATION] Resource list changed"@,
        Notification::ToolListChanged => "[NOTIFICATION] Tool list changed"@,
        Notification::PromptListChanged => "[NOTIFICATION] Prompt list changed"@,
        Notification::Cancelled { request_id, reason } => "[NOTIFICATION] Request cancelled: "@
            + request_id.notation() + " ("@ + text_or(reason, "no reason given"@) + ")"@,
        Notification::Progress { progress_token, progress, total, message } =>
            "[NOTIFICATION] Progress "@ + progress_token.notation() + ": "@ + progress@ + (match total {
            Some(t) => "/"@ + t@,
            None => Seq::empty(),
        }) + " - "@ + text_or(message, Seq::empty()),
    }
}

fn str_or<'a>(text: &'a Option<String>, fallback: &'a str) -> (r: &'a str)
    ensures
        r@ == text_or(*text, fallback@),
{
    match text {
        Some(t) => t.as_str(),
        None => fallback,
    }
}

/// Renders a notification as the one line that is shown for it.
pub fn display_notification(notification: &Notification) -> (r: String)
    ensures
        r@ == notification_text(*notification),
{
    match notification {
        Notification::LoggingMessage { level, logger, data } => {
            let mut r = "[NOTIFICATION] ".to_owned();
            r.append(level.name());
            r.append(" [");
            r.append(str_or(logger, "server"));
            r.append("]: ");
            let logged = to_text(data);
            r.append(logged.as_str());
            r
        },
        Notification::ResourceUpdated { uri } => {
            let mut r = "[NOTIFICATION] Resource updated: ".to_owned();
            r.append(uri.as_str());
            r
        },
        Notification::ResourceListChanged => "[NOTIFICATION] Resource list changed".to_owned(),
        Notification::ToolListChanged => "[NOTIFICATION] Tool list changed".to_owned(),
        Notification::PromptListChanged => "[NOTIFICATION] Prompt list changed".to_owned(),
        Notification::Cancelled { request_id, reason } => {
            let mut r = "[NOTIFICATION] Request cancelled: ".to_owned();
            let id = request_id.to_notation();
            r.append(id.as_str());
            r.append(" (");
            r.append(str_or(reason, "no reason given"));
            r.append(")");
            r
        },
        Notification::Progress { progress_token, progress, total, message } => {
            let mut r = "[NOTIFICATION] Progress ".to_owned();
            let token = progress_token.to_notation();
            r.append(token.as_str());
            r.append(": ");
            r.append(progress.as_str());
            match total {
                Some(t) => {
                    r.append("/");
                    r.append(t.as_str());
                },
                None => {},
            }
            r.append(" - ");
            match message {
                Some(m) => {
                    r.append(m.as_str());
                },
                None => {},
            }
            r
        },
    }
}

/// One declared parameter of a tool.
#[derive(Clone, Debug, PartialEq, Eq)]
pub struct Parameter {
    /// The parameter's name.
    pub name: String,
    /// What the parameter is for, if the tool says so.
    pub description: Option<String>,
    /// Whether a call must give the parameter a value.
    pub required: bool,
}

/// The declared parameters of a tool, in the order of their declaration.
#[derive(Clone, Debug, PartialEq, Eq)]
pub struct ToolSchema {
    /// The tool's name.
    pub name: String,
    /// The tool's parameters.
    pub parameters: Vec<Parameter>,
}

/// What a completion request is about.
#[derive(Clone, Debug, PartialEq, Eq)]
pub enum Reference {
    /// A resource, by its URI.
    Resource { uri: String },
    /// A prompt, by its name.
    Prompt { name: String },
}

/// The argument that a completion request asks completions for.
#[derive(Clone, Debug, PartialEq, Eq)]
pub struct ArgumentInfo {
    /// The argument's name.
    pub name: String,
    /// What has been typed of its value so far.
    pub value: String,
}

} // verus!
