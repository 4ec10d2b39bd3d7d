use vstd::prelude::*;

use crate::types::{GoInt, FAILURE};

verus! {

/// One warning or error line that the engine logged.
#[derive(Debug, Clone, PartialEq, Eq)]
pub struct LogMsg {
    pub filename: String,
    pub line_no: i32,
    pub message: String,
}

/// The severity of an engine log line.
#[derive(Debug, Clone, Copy, PartialEq, Eq, Hash, Structural)]
pub enum LogLevel {
    Trace,
    Debug,
    Info,
    Warning,
    Error,
}

/// Only warnings and errors explain failed calls; the other levels are
/// printed and forgotten.
pub open spec fn surfaced(level: LogLevel) -> bool {
    level is Warning || level is Error
}

/// The tag printed in front of a log line of each level.
pub open spec fn level_tag(level: LogLevel) -> Seq<char> {
    match level {
        LogLevel::Trace => seq!['T', 'R', 'A', 'C', 'E'],
        LogLevel::Debug => seq!['D', 'E', 'B', 'U', 'G'],
        LogLevel::Info => seq!['I', 'N', 'F', 'O'],
        LogLevel::Warning => seq!['W', 'A', 'R', 'N'],
        LogLevel::Error => seq!['E', 'R', 'R', 'O', 'R'],
    }
}

impl LogLevel {
    pub fn is_surfaced(self) -> (r: bool)
        ensures
            r == surfaced(self),
    {
        match self {
            LogLevel::Warning | LogLevel::Error => true,
            _ => false,
        }
    }

    pub fn tag(self) -> (r: &'static str)
        ensures
            r@ == level_tag(self),
    {
        match self {
            LogLevel::Trace => {
                proof { reveal_strlit("TRACE"); }
                "TRACE"
            },
            LogLevel::Debug => {
                proof { reveal_strlit("DEBUG"); }
                "DEBUG"
            },
            LogLevel::Info => {
                proof { reveal_strlit("INFO"); }
                "INFO"
            },
            LogLevel::Warning => {
                proof { reveal_strlit("WARN"); }
                "WARN"
            },
            LogLevel::Error => {
                proof { reveal_strlit("ERROR"); }
                "ERROR"
            },
        }
    }
}

/// The log of pending warnings and errors, newest last. Taking an error
/// removes it: this is a "last error" slot, not a history.
pub struct LogState {
    pub warnings: Vec<LogMsg>,
}

/// What a failed engine call reports.
#[derive(Debug, Clone, PartialEq, Eq)]
#[non_exhaustive]
pub enum WhatsmeowError {
    /// The engine failed without logging why.
    Unknown,
    /// The engine's most recent warning or error.
    Error(LogMsg),
    /// A string meant for the engine held a nul byte at this position.
    Nul(usize),
    /// A thread panicked while it held the log.
    Poison,
}

/// The pending records after logging a line at `level`.
pub open spec fn logged(pending: Seq<LogMsg>, level: LogLevel, msg: LogMsg) -> Seq<LogMsg> {
    if surfaced(level) {
        pending.push(msg)
    } else {
        pending
    }
}

/// The error that taking the most recent record gives, and the records left.
/// A poisoned log gives `Poison` and is left alone.
pub open spec fn taken(pending: Seq<LogMsg>, poisoned: bool) -> (WhatsmeowError, Seq<LogMsg>) {
    if poisoned {
        (WhatsmeowError::Poison, pending)
    } else if pending.len() == 0 {
        (WhatsmeowError::Unknown, pending)
    } else {
        (WhatsmeowError::Error(pending.last()), pending.drop_last())
    }
}

impl LogState {
    pub fn new() -> (r: LogState)
        ensures
            r.warnings@ == Seq::<LogMsg>::empty(),
    {
        LogState { warnings: Vec::new() }
    }

    /// Records a log line of the engine if its level is one that explains
    /// failures.
    pub fn log(&mut self, level: LogLevel, filename: String, line_no: i32, message: String)
        ensures
            final(self).warnings@ == logged(
                old(self).warnings@,
                level,
                (LogMsg { filename, line_no, message }),
            ),
    {
        if level.is_surfaced() {
            self.warnings.push(LogMsg { filename, line_no, message });
        }
    }
}

/// Takes the most recent record out of the log, as the explanation of a
/// failed call. `poisoned` tells that a thread panicked while it held the
/// log; the log is then not read.
pub fn get_error(log: &mut LogState, poisoned: bool) -> (r: WhatsmeowError)
    ensures
        (r, final(log).warnings@) == taken(old(log).warnings@, poisoned),
{
    if poisoned {
        return WhatsmeowError::Poison;
    }
    match log.warnings.pop() {
        Some(msg) => WhatsmeowError::Error(msg),
        None => WhatsmeowError::Unknown,
    }
}

/// The outcome of an engine call that returned `r`: the failure value is an
/// error explained by the log, anything else is success.
pub fn attempt(r: GoInt, log: &mut LogState, poisoned: bool) -> (res: Result<(), WhatsmeowError>)
    ensures
        r == FAILURE ==> res == Err::<(), WhatsmeowError>(taken(old(log).warnings@, poisoned).0)
            && final(log).warnings@ == taken(old(log).warnings@, poisoned).1,
        r != FAILURE ==> res is Ok && final(log).warnings@ == old(log).warnings@,
{
    if r == FAILURE {
        Err(get_error(log, poisoned))
    } else {
        Ok(())
    }
}

/// With a single warning logged and nothing pending before it, taking the
/// most recent error twice gives that warning once and then `Unknown`.
pub proof fn lemma_error_taken_once(pending: Seq<LogMsg>, level: LogLevel, msg: LogMsg)
    requires
        pending.len() == 0,
        surfaced(level),
    ensures
        taken(logged(pending, level, msg), false).0 == WhatsmeowError::Error(msg),
        taken(taken(logged(pending, level, msg), false).1, false) == (WhatsmeowError::Unknown, pending),
{
    let s1 = logged(pending, level, msg);
    assert(s1 =~= seq![msg]);
    assert(s1.drop_last() =~= pending);
}

} // verus!
