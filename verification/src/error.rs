//! Errors that a tool call reports to the client.
use vstd::prelude::*;
use crate::text::concat_str;

verus! {

/// Why a tool call was refused before any request was made.
#[derive(Debug, Clone, PartialEq, Eq)]
pub enum ToolError {
    /// No profile has been chosen with `switch_account` or `sso_login`.
    NoActiveProfile,
    /// The named argument is absent or not a string.
    MissingParam(String),
    /// The config file has no profile of this name.
    ProfileNotFound(String),
    /// The profile has no usable SSO token: none is cached, or the cached one
    /// has expired and cannot be renewed.
    NotAuthenticated(String),
    /// No task has this ARN.
    TaskNotFound(String),
    /// The system clock reads before the Unix epoch, or too far after it.
    ClockUnreadable,
}

/// The mathematical value of a [`ToolError`].
pub enum ErrorView {
    NoActiveProfile,
    MissingParam(Seq<char>),
    ProfileNotFound(Seq<char>),
    NotAuthenticated(Seq<char>),
    TaskNotFound(Seq<char>),
    ClockUnreadable,
}

impl View for ToolError {
    type V = ErrorView;

    open spec fn view(&self) -> ErrorView {
        match self {
            ToolError::NoActiveProfile => ErrorView::NoActiveProfile,
            ToolError::MissingParam(p) => ErrorView::MissingParam(p@),
            ToolError::ProfileNotFound(n) => ErrorView::ProfileNotFound(n@),
            ToolError::NotAuthenticated(n) => ErrorView::NotAuthenticated(n@),
            ToolError::TaskNotFound(a) => ErrorView::TaskNotFound(a@),
            ToolError::ClockUnreadable => ErrorView::ClockUnreadable,
        }
    }
}

/// The text of a tool error.
pub open spec fn error_text(e: ErrorView) -> Seq<char> {
    match e {
        ErrorView::NoActiveProfile => "No active AWS profile. Run list_accounts then switch_account first."@,
        ErrorView::MissingParam(p) => "missing required param: "@ + p,
        ErrorView::ProfileNotFound(n) => "profile not found: "@ + n,
        ErrorView::NotAuthenticated(n) => "Not authenticated. Run sso_login with profile \""@ + n
            + "\" first."@,
        ErrorView::TaskNotFound(a) => "task not found: "@ + a,
        ErrorView::ClockUnreadable => "system clock reads outside the supported range"@,
    }
}

impl ToolError {
    /// The error's text as the client sees it.
    pub fn message(&self) -> (s: String)
        ensures
            s@ == error_text(self@),
    {
        match self {
            ToolError::NoActiveProfile => String::from_str(
                "No active AWS profile. Run list_accounts then switch_account first.",
            ),
            ToolError::MissingParam(p) => concat_str("missing required param: ", p.as_str()),
            ToolError::ProfileNotFound(n) => concat_str("profile not found: ", n.as_str()),
            ToolError::NotAuthenticated(n) => {
                let mut s = concat_str("Not authenticated. Run sso_login with profile \"", n.as_str());
                s.append("\" first.");
                s
            },
            ToolError::TaskNotFound(a) => concat_str("task not found: ", a.as_str()),
            ToolError::ClockUnreadable => String::from_str("system clock reads outside the supported range"),
        }
    }
}

} // verus!
