//! The envelope of a request that succeeded.

use vstd::prelude::*;
use vstd::string::StringExecFns;

verus! {

/// A success: error number 0, the message `success`, and the data asked for.
#[derive(Debug)]
pub struct Success<T> {
    pub errno: u16,
    pub msg: String,
    pub data: T,
}

/// Wraps `data` as a success.
pub fn create<T>(data: T) -> (success: Success<T>)
    ensures
        success.errno == 0,
        success.msg@ == "success"@,
        success.data == data,
{
    Success { errno: 0, msg: String::from_str("success"), data: data }
}

} // verus!
