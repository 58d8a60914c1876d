//! The envelope that every account page answers with.

use vstd::prelude::*;

verus! {

/// An answer: error number 0 and data on success, another number and a
/// message that explains it otherwise.
#[derive(Debug)]
pub struct Resp<T> {
    pub errno: u32,
    pub msg: String,
    pub data: Option<T>,
}

/// The mathematical content of a [`Resp`].
pub struct RespView<D> {
    pub errno: u32,
    pub msg: Seq<char>,
    pub data: Option<D>,
}

impl<T: View> View for Resp<T> {
    type V = RespView<T::V>;

    open spec fn view(&self) -> RespView<T::V> {
        RespView {
            errno: self.errno,
            msg: self.msg@,
            data: match self.data {
                Some(data) => Some(data@),
                None => None,
            },
        }
    }
}

/// An answer that carries no data.
pub open spec fn refusal<D>(errno: u32, msg: Seq<char>) -> RespView<D> {
    RespView { errno: errno, msg: msg, data: None }
}

/// Puts an answer together.
pub fn create<T>(no: u32, msg: String, data: Option<T>) -> (resp: Resp<T>)
    ensures
        resp.errno == no,
        resp.msg == msg,
        resp.data == data,
{
    Resp { errno: no, msg: msg, data: data }
}

} // verus!
