//! Events produced by the backend process's transport, and the log records
//! the relay derives from them.

use vstd::prelude::*;
use vstd::string::StringExecFns;
use crate::decode::lossy_decode;

verus! {

/// Severity of a forwarded backend log line: `Info` for standard output,
/// `Error` for standard error.
#[derive(Clone, Copy, PartialEq, Eq, Structural, Debug)]
pub enum Level {
    Info,
    Error,
}

/// One notification about the backend process: a line on one of its output
/// streams, its termination with an exit status, or anything else the
/// transport may report. Line payloads are raw bytes: the backend is not
/// trusted to emit valid text.
#[derive(Clone, Debug)]
pub enum OutputEvent {
    StandardOutLine(Vec<u8>),
    StandardErrLine(Vec<u8>),
    Terminated(i32),
    Other,
}

/// A leveled, decoded log line, handed to the log sink as soon as it is made.
#[derive(Clone, Debug)]
pub struct LogRecord {
    pub level: Level,
    pub text: String,
}

/// Mathematical image of a [`LogRecord`]: the severity and the decoded
/// characters.
#[verifier::ext_equal]
pub struct LogRecordView {
    pub level: Level,
    pub text: Seq<char>,
}

impl View for LogRecord {
    type V = LogRecordView;

    open spec fn view(&self) -> LogRecordView {
        LogRecordView { level: self.level, text: self.text@ }
    }
}

/// The payload bytes of a line event; empty for the other variants.
pub open spec fn event_bytes(e: OutputEvent) -> Seq<u8> {
    match e {
        OutputEvent::StandardOutLine(b) => b@,
        OutputEvent::StandardErrLine(b) => b@,
        _ => Seq::empty(),
    }
}

/// The record an event gives rise to: exactly one for each line event,
/// with the severity of its stream and the lossily decoded payload, and
/// none for termination or other events.
pub open spec fn record_of(e: OutputEvent) -> Option<LogRecordView> {
    match e {
        OutputEvent::StandardOutLine(b) => Some(
            LogRecordView { level: Level::Info, text: lossy_decode(b@) },
        ),
        OutputEvent::StandardErrLine(b) => Some(
            LogRecordView { level: Level::Error, text: lossy_decode(b@) },
        ),
        _ => None,
    }
}

/// The fixed literal prefix that marks a rendered line as coming from the
/// backend, by severity.
pub open spec fn line_prefix(l: Level) -> Seq<char> {
    match l {
        Level::Info => "backend: "@,
        Level::Error => "backend error: "@,
    }
}

impl LogRecord {
    /// The full text line handed to the sink: the severity's fixed prefix
    /// followed by the decoded text, verbatim.
    pub fn render(&self) -> (r: String)
        ensures
            r@ == line_prefix(self.level) + self.text@,
    {
        let prefix = match self.level {
            Level::Info => "backend: ",
            Level::Error => "backend error: ",
        };
        String::from_str(prefix).concat(self.text.as_str())
    }
}

} // verus!
