//! What is told of a command that was not run: a reply to the member, a line
//! for the log, or both.

use vstd::prelude::*;
use vstd::string::*;
use crate::checks::{DispatchError, DispatchErrorView, Reason, ReasonView};

verus! {

/// How much a log line matters.
#[derive(Clone, Copy, Debug, PartialEq, Eq)]
pub enum Level {
    Debug,
    Warn,
    Error,
}

/// What is told of a command that was not run.
#[derive(Clone, Debug, PartialEq, Eq)]
pub struct Report {
    /// What is said in the channel of the command, if anything.
    pub reply: Option<String>,
    /// The level of the log line.
    pub level: Level,
    /// The log line.
    pub line: String,
}

/// What a `Report` says.
pub struct ReportView {
    pub reply: Option<Seq<char>>,
    pub level: Level,
    pub line: Seq<char>,
}

impl View for Report {
    type V = ReportView;

    open spec fn view(&self) -> ReportView {
        ReportView {
            reply: match self.reply {
                Some(text) => Some(text@),
                None => None,
            },
            level: self.level,
            line: self.line@,
        }
    }
}

/// The reply to a command given outside a guild.
pub open spec fn guild_only_text() -> Seq<char> {
    "⚠️ This command only works in a guild."@
}

/// The reply that passes a warning on to the member.
pub open spec fn warning_text(user: Seq<char>) -> Seq<char> {
    "⚠️ "@ + user
}

/// The reply to a command that failed in a way that nothing here foresees.
pub open spec fn unhandled_text() -> Seq<char> {
    "☢️ An unhandled error just occoured! It has been logged to the console."@
}

/// The log line for the check `check`, which failed.
pub open spec fn check_failed_line(check: Seq<char>) -> Seq<char> {
    "Check "@ + check + " failed"@
}

/// The log line for the check `check`, which failed for the reason `log`.
pub open spec fn check_failed_because_line(check: Seq<char>, log: Seq<char>) -> Seq<char> {
    "Check "@ + check + " failed: "@ + log
}

/// The log line for the check `check`, which failed without a known reason.
pub open spec fn check_failed_unknown_line(check: Seq<char>) -> Seq<char> {
    "Check "@ + check + " failed for an unknown reason."@
}

/// What is told of the command that was not run for `error`.
///
/// A reason for the member is passed on as a warning, a reason for the log is
/// logged as an error, and a reason for both is both. A failure without a
/// known reason is a warning in the log and nothing more. Any other error is a
/// warning in the log, and the member learns that something went wrong.
pub open spec fn report_of(error: DispatchErrorView) -> ReportView {
    match error {
        DispatchErrorView::OnlyForGuilds => ReportView {
            reply: Some(guild_only_text()),
            level: Level::Debug,
            line: "Rejecting command sent outside of a guild"@,
        },
        DispatchErrorView::CheckFailed(check, reason) => match reason {
            ReasonView::Log(log) => ReportView {
                reply: None,
                level: Level::Error,
                line: check_failed_because_line(check, log),
            },
            ReasonView::User(user) => ReportView {
                reply: Some(warning_text(user)),
                level: Level::Debug,
                line: check_failed_line(check),
            },
            ReasonView::UserAndLog { user, log } => ReportView {
                reply: Some(warning_text(user)),
                level: Level::Error,
                line: check_failed_because_line(check, log),
            },
            ReasonView::Unknown => ReportView {
                reply: None,
                level: Level::Warn,
                line: check_failed_unknown_line(check),
            },
        },
        DispatchErrorView::Other => ReportView {
            reply: Some(unhandled_text()),
            level: Level::Warn,
            line: "Unmatched error occoured!"@,
        },
    }
}

/// The reply that passes the warning `user` on.
fn warning(user: &String) -> (text: String)
    ensures
        text@ == warning_text(user@),
{
    let mut text = "⚠️ ".to_owned();
    text.append(user.as_str());
    text
}

/// The log line for the check `check`, which failed for the reason `log`.
fn check_failed_because(check: &String, log: &String) -> (line: String)
    ensures
        line@ == check_failed_because_line(check@, log@),
{
    let mut line = "Check ".to_owned();
    line.append(check.as_str());
    line.append(" failed: ");
    line.append(log.as_str());
    line
}

/// Says what is told of the command that was not run for `cause`.
pub fn error(cause: &DispatchError) -> (report: Report)
    ensures
        report@ == report_of(cause@),
{
    match cause {
        DispatchError::OnlyForGuilds => Report {
            reply: Some("⚠️ This command only works in a guild.".to_owned()),
            level: Level::Debug,
            line: "Rejecting command sent outside of a guild".to_owned(),
        },
        DispatchError::CheckFailed(check, reason) => match reason {
            Reason::Log(log) => Report {
                reply: None,
                level: Level::Error,
                line: check_failed_because(check, log),
            },
            Reason::User(user) => {
                let mut line = "Check ".to_owned();
                line.append(check.as_str());
                line.append(" failed");
                Report { reply: Some(warning(user)), level: Level::Debug, line }
            },
            Reason::UserAndLog { user, log } => Report {
                reply: Some(warning(user)),
                level: Level::Error,
                line: check_failed_because(check, log),
            },
            Reason::Unknown => {
                let mut line = "Check ".to_owned();
                line.append(check.as_str());
                line.append(" failed for an unknown reason.");
                Report { reply: None, level: Level::Warn, line }
            },
        },
        DispatchError::Other => Report {
            reply: Some(
                "☢️ An unhandled error just occoured! It has been logged to the console.".to_owned(),
            ),
            level: Level::Warn,
            line: "Unmatched error occoured!".to_owned(),
        },
    }
}

} // verus!
