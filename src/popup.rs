//! Log events: a severity and a message, produced for the observer.

use vstd::prelude::*;
use crate::job::{FailureReason, Outcome};

verus! {

/// How a log event is shown.
#[derive(Clone, Copy, Debug, PartialEq, Eq, Structural)]
pub enum Severity {
    Info,
    Warning,
    Error,
    Success,
}

/// One log event.
#[derive(Clone, Copy, Debug, PartialEq, Eq)]
pub struct MessageLog {
    pub text: &'static str,
    pub kind: Severity,
}

/// A receiver of log events, one method per severity.
pub trait LogKind {
    fn success(&mut self, message: &'static str);

    fn error(&mut self, message: &'static str);

    fn warning(&mut self, message: &'static str);

    fn info(&mut self, message: &'static str);
}

/// A list of log events collects them in order.
impl LogKind for Vec<MessageLog> {
    fn success(&mut self, message: &'static str) {
        self.push(MessageLog { text: message, kind: Severity::Success });
    }

    fn error(&mut self, message: &'static str) {
        self.push(MessageLog { text: message, kind: Severity::Error });
    }

    fn warning(&mut self, message: &'static str) {
        self.push(MessageLog { text: message, kind: Severity::Warning });
    }

    fn info(&mut self, message: &'static str) {
        self.push(MessageLog { text: message, kind: Severity::Info });
    }
}

/// Hands a log event to the receiver's method for its severity.
pub fn deliver<L: LogKind>(log: &mut L, event: MessageLog) {
    match event.kind {
        Severity::Info => log.info(event.text),
        Severity::Warning => log.warning(event.text),
        Severity::Error => log.error(event.text),
        Severity::Success => log.success(event.text),
    }
}

/// The severity that reports an outcome.
pub open spec fn outcome_severity(outcome: Outcome) -> Severity {
    match outcome {
        Outcome::Success => Severity::Success,
        Outcome::Cancelled => Severity::Info,
        Outcome::Failure(_) => Severity::Error,
    }
}

/// The message that explains an outcome, for a download or a conversion of one or
/// two passes.
pub open spec fn outcome_text(outcome: Outcome, downloading: bool, two_pass: bool) -> Seq<char> {
    match outcome {
        Outcome::Success => if downloading {
            "Download successful"@
        } else {
            "Conversion finished successfully"@
        },
        Outcome::Cancelled => if downloading {
            "Downloading process was canceled"@
        } else {
            "Conversion process was canceled"@
        },
        Outcome::Failure(FailureReason::ProbeFailure) => "Failed to retrieve media length from the provided file."@,
        Outcome::Failure(FailureReason::SpawnFailure { stage }) => if downloading {
            "Failed to start the downloading"@
        } else if !two_pass {
            "Failed to start the conversion process."@
        } else if stage == 0 {
            "Failed to start the first pass of the conversion process."@
        } else {
            "Failed to start the second pass of the conversion process."@
        },
        Outcome::Failure(FailureReason::RuntimeFailure { .. }) => if downloading {
            "Failed to download the file"@
        } else {
            "Conversion process failed"@
        },
        Outcome::Failure(FailureReason::LostProcess { .. }) => if downloading {
            "Downloading unexpectedly stopped"@
        } else {
            "Conversion unexpectedly stopped"@
        },
    }
}

/// The log event that accompanies a job's outcome; `two_pass` tells which pass a
/// failure to start concerns.
pub fn outcome_log(outcome: Outcome, downloading: bool, two_pass: bool) -> (r: MessageLog)
    ensures
        r.kind == outcome_severity(outcome),
        r.text@ == outcome_text(outcome, downloading, two_pass),
{
    let text = match outcome {
        Outcome::Success => if downloading {
            "Download successful"
        } else {
            "Conversion finished successfully"
        },
        Outcome::Cancelled => if downloading {
            "Downloading process was canceled"
        } else {
            "Conversion process was canceled"
        },
        Outcome::Failure(FailureReason::ProbeFailure) => "Failed to retrieve media length from the provided file.",
        Outcome::Failure(FailureReason::SpawnFailure { stage }) => if downloading {
            "Failed to start the downloading"
        } else if !two_pass {
            "Failed to start the conversion process."
        } else if stage == 0 {
            "Failed to start the first pass of the conversion process."
        } else {
            "Failed to start the second pass of the conversion process."
        },
        Outcome::Failure(FailureReason::RuntimeFailure { .. }) => if downloading {
            "Failed to download the file"
        } else {
            "Conversion process failed"
        },
        Outcome::Failure(FailureReason::LostProcess { .. }) => if downloading {
            "Downloading unexpectedly stopped"
        } else {
            "Conversion unexpectedly stopped"
        },
    };
    let kind = match outcome {
        Outcome::Success => Severity::Success,
        Outcome::Cancelled => Severity::Info,
        Outcome::Failure(_) => Severity::Error,
    };
    MessageLog { text, kind }
}

} // verus!
