//! The failures that the library reports.

use crate::text::{decimal, decimal_of, join, join_with, views};
use vstd::prelude::*;

verus! {

/// A command that ended with another status than success.
#[derive(Debug, Clone, PartialEq, Eq)]
pub struct RunError {
    /// The exit code; none where a signal ended the command.
    pub code: Option<i32>,
    pub message: String,
}

/// What a `RunError` holds.
pub struct RunErrorView {
    pub code: Option<i32>,
    pub message: Seq<char>,
}

impl View for RunError {
    type V = RunErrorView;

    open spec fn view(&self) -> RunErrorView {
        RunErrorView { code: self.code, message: self.message@ }
    }
}

impl RunErrorView {
    /// The message, behind the exit code in brackets where there is one.
    pub open spec fn text(self) -> Seq<char> {
        match self.code {
            Some(code) => seq!['('] + decimal(code as int) + seq![')', ' '] + self.message,
            None => self.message,
        }
    }
}

impl RunError {
    /// The error as one line of text.
    pub fn to_text(&self) -> (s: String)
        ensures
            s@ == self@.text(),
    {
        match self.code {
            Some(code) => {
                let mut s = String::new();
                s.push('(');
                s.append(decimal_of(code as i64).as_str());
                s.push(')');
                s.push(' ');
                s.append(self.message.as_str());
                assert(s@ == seq!['('] + decimal(code as int) + seq![')', ' '] + self.message@);
                s
            },
            None => self.message.clone(),
        }
    }
}

/// A jail that the configuration does not define, or defines wrongly.
#[derive(Debug, Clone, PartialEq, Eq)]
pub struct JailError(pub String);

/// A source that cannot install a jail.
#[derive(Debug, Clone, PartialEq, Eq)]
pub struct SourceError(pub String);

/// A provisioner whose settings cannot work.
#[derive(Debug, Clone, PartialEq, Eq)]
pub struct ProvError(pub String);

/// What is missing on a host that was not prepared for jails.
#[derive(Debug, Clone, PartialEq, Eq)]
pub struct InitError(pub Vec<String>);

impl JailError {
    /// The error as one line of text.
    pub fn to_text(&self) -> (s: String)
        ensures
            s@ == self.0@,
    {
        self.0.clone()
    }
}

impl SourceError {
    /// The error as one line of text.
    pub fn to_text(&self) -> (s: String)
        ensures
            s@ == self.0@,
    {
        self.0.clone()
    }
}

impl ProvError {
    /// The error as one line of text.
    pub fn to_text(&self) -> (s: String)
        ensures
            s@ == self.0@,
    {
        self.0.clone()
    }
}

impl InitError {
    /// The findings in one line, a space between each two.
    pub fn to_text(&self) -> (s: String)
        ensures
            s@ == join(views(self.0@), seq![' ']),
    {
        let mut sep = String::new();
        sep.push(' ');
        assert(sep@ == seq![' ']);
        join_with(&self.0, sep.as_str())
    }
}

/// Why an operation did not come to its end.
#[derive(Debug, Clone, PartialEq, Eq)]
pub enum Failure {
    /// The host has not answered the last request yet. Not a failure: the
    /// operation is run again once the answer is there.
    Suspended,
    /// A command failed.
    Run(RunError),
    /// A name that the configuration does not define.
    Jail(JailError),
    /// The source cannot install the jail.
    Source(SourceError),
    /// A provisioner's settings cannot work.
    Prov(ProvError),
    /// The host is not prepared for jails.
    Init(InitError),
    /// The host could not read, write or start something.
    Io(String),
    /// The host's answer is of another kind than the request.
    Reply,
    /// A line of a tool's output that cannot be read.
    Parse(String),
    /// A pattern that is no regular expression.
    Pattern,
    /// The user did not agree.
    Aborted,
}

/// What a `Failure` holds.
pub enum FailureView {
    Suspended,
    Run(RunErrorView),
    Jail(Seq<char>),
    Source(Seq<char>),
    Prov(Seq<char>),
    Init(Seq<Seq<char>>),
    Io(Seq<char>),
    Reply,
    Parse(Seq<char>),
    Pattern,
    Aborted,
}

impl View for Failure {
    type V = FailureView;

    open spec fn view(&self) -> FailureView {
        match self {
            Failure::Suspended => FailureView::Suspended,
            Failure::Run(e) => FailureView::Run(e@),
            Failure::Jail(e) => FailureView::Jail(e.0@),
            Failure::Source(e) => FailureView::Source(e.0@),
            Failure::Prov(e) => FailureView::Prov(e.0@),
            Failure::Init(e) => FailureView::Init(views(e.0@)),
            Failure::Io(m) => FailureView::Io(m@),
            Failure::Reply => FailureView::Reply,
            Failure::Parse(m) => FailureView::Parse(m@),
            Failure::Pattern => FailureView::Pattern,
            Failure::Aborted => FailureView::Aborted,
        }
    }
}

impl FailureView {
    /// The failure as one line of text.
    pub open spec fn text(self) -> Seq<char> {
        match self {
            FailureView::Suspended => "the host has not answered yet"@,
            FailureView::Run(e) => e.text(),
            FailureView::Jail(m) => m,
            FailureView::Source(m) => m,
            FailureView::Prov(m) => m,
            FailureView::Init(found) => join(found, seq![' ']),
            FailureView::Io(m) => m,
            FailureView::Reply => "the host's answer does not fit the request"@,
            FailureView::Parse(line) => "cannot read the line: "@ + line,
            FailureView::Pattern => "a pattern is no regular expression"@,
            FailureView::Aborted => "aborting"@,
        }
    }
}

impl Failure {
    /// The failure as one line of text.
    pub fn to_text(&self) -> (s: String)
        ensures
            s@ == self@.text(),
    {
        match self {
            Failure::Suspended => String::from_str("the host has not answered yet"),
            Failure::Run(e) => e.to_text(),
            Failure::Jail(e) => e.to_text(),
            Failure::Source(e) => e.to_text(),
            Failure::Prov(e) => e.to_text(),
            Failure::Init(e) => e.to_text(),
            Failure::Io(m) => m.clone(),
            Failure::Reply => String::from_str("the host's answer does not fit the request"),
            Failure::Parse(line) => {
                let mut s = String::from_str("cannot read the line: ");
                s.append(line.as_str());
                s
            },
            Failure::Pattern => String::from_str("a pattern is no regular expression"),
            Failure::Aborted => String::from_str("aborting"),
        }
    }
}

/// What a result holds: the value's view, or the error's.
pub open spec fn outcome<T: DeepView>(r: Result<T, Failure>) -> Result<T::V, FailureView> {
    match r {
        Ok(v) => Ok(v.deep_view()),
        Err(e) => Err(e@),
    }
}

} // verus!
