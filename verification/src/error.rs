//! A general descriptive error, and a helper trait for components that prefix
//! their error messages with their own name.

use vstd::prelude::*;
use vstd::string::StringExecFns;

verus! {

/// An error carrying one descriptive message.
#[derive(Debug)]
pub struct Error {
    error_msg: String,
}

impl Error {
    /// The message the error carries.
    pub closed spec fn msg(self) -> Seq<char> {
        self.error_msg@
    }

    pub fn new(error_msg: String) -> (r: Error)
        ensures
            r.msg() == error_msg@,
    {
        Error { error_msg }
    }

    /// The message as diagnostics print it.
    pub fn message(&self) -> (r: String)
        ensures
            r@ == "Custom error: "@ + self.msg(),
    {
        let mut out = String::from_str("Custom error: ");
        out.append(self.error_msg.as_str());
        out
    }
}

/// An error source with a fixed prefix: `error` builds an `Error` whose
/// message is the prefix, then `": "`, then the given message.
pub trait PrefixedError {
    /// The prefix the implementor puts before its error messages.
    spec fn prefix(&self) -> Seq<char>;

    fn get_prefix(&self) -> (r: &str)
        ensures
            r@ == self.prefix(),
    ;

    fn error(&self, error_msg: &str) -> (r: Error)
        ensures
            r.msg() == self.prefix() + ": "@ + error_msg@,
    {
        let prefix = self.get_prefix();
        let mut combined = String::from_str(prefix);
        combined.append(": ");
        combined.append(error_msg);
        Error::new(combined)
    }
}

} // verus!
