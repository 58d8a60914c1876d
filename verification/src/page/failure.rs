//! The envelope of a failed request.

use vstd::prelude::*;

verus! {

/// A failure: an error number, a message, and data that says more.
#[derive(Debug)]
pub struct Failure<T> {
    pub errno: u16,
    pub msg: String,
    pub data: T,
}

/// Wraps `data` as a failure with the given number and message.
pub fn create<T>(errno: u16, msg: String, data: T) -> (failure: Failure<T>)
    ensures
        failure.errno == errno,
        failure.msg == msg,
        failure.data == data,
{
    Failure { errno: errno, msg: msg, data: data }
}

} // verus!
