//! Answers for requests that no page handled.

use vstd::prelude::*;
use vstd::string::StringExecFns;

verus! {

/// An error answer: a number and a message.
#[derive(Debug)]
pub struct Unexpection {
    pub errno: u32,
    pub msg: String,
}

/// The answer to a request that failed for a reason no other answer covers.
pub fn default_catcher() -> (answer: Unexpection)
    ensures
        answer.errno == 90000,
        answer.msg@ == "default error catcher"@,
{
    Unexpection { errno: 90000, msg: String::from_str("default error catcher") }
}

/// The answer to a request whose input could not be parsed.
pub fn fail_guard() -> (answer: Unexpection)
    ensures
        answer.errno == 90001,
        answer.msg@ == "parse input fail"@,
{
    Unexpection { errno: 90001, msg: String::from_str("parse input fail") }
}

} // verus!
