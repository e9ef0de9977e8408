//! The errors that the bindings raise, by Python exception class.
use vstd::prelude::*;
use vstd::string::StringExecFns;

verus! {

/// The Python exception class that an error is raised as.
#[derive(Clone, Copy, Debug, PartialEq, Eq, Structural)]
pub enum ErrorKind {
    RuntimeError,
    ValueError,
    TypeError,
    IOError,
}

/// An error with its exception class and message.
#[derive(Debug)]
pub struct DailyError {
    pub kind: ErrorKind,
    pub message: String,
}

impl DailyError {
    /// This error is of class `kind` with message `message`.
    pub open spec fn is(&self, kind: ErrorKind, message: Seq<char>) -> bool {
        self.kind == kind && self.message@ == message
    }

    /// An error of class `kind` with message `message`.
    pub fn new(kind: ErrorKind, message: &str) -> (r: DailyError)
        ensures
            r.is(kind, message@),
    {
        DailyError { kind, message: message.to_owned() }
    }

    /// An error of class `kind` whose message is `prefix`, `value` and
    /// `suffix` put together.
    pub fn with_value(kind: ErrorKind, prefix: &str, value: &str, suffix: &str) -> (r: DailyError)
        ensures
            r.is(kind, prefix@ + value@ + suffix@),
    {
        let mut message = prefix.to_owned();
        message.append(value);
        message.append(suffix);
        DailyError { kind, message }
    }
}

} // verus!
