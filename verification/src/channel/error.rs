//! Why a probe could not be carried out, described in text.

use vstd::prelude::*;
use vstd::string::StringExecFns;

verus! {

#[derive(Debug)]
pub enum Error {
    /// The operating system refused the connection or the read.
    Io(String),
    /// The HTTP client gave up: a timeout, a refused connection, a bad
    /// address.
    ReqwestError(String),
}

impl Error {
    pub open spec fn message(&self) -> Seq<char> {
        match self {
            Error::Io(e) => e@,
            Error::ReqwestError(e) => "http error: "@ + e@,
        }
    }

    /// The message shown for this error.
    pub fn to_string(&self) -> (text: String)
        ensures
            text@ == self.message(),
    {
        let mut text = String::new();
        match self {
            Error::Io(e) => {
                text.append(e.as_str());
            },
            Error::ReqwestError(e) => {
                text.append("http error: ");
                text.append(e.as_str());
            },
        }
        text
    }
}

} // verus!
