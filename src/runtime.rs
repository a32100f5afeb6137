use vstd::prelude::*;
use std::ops::Deref;
use crate::decimal::{decimal, decimal_spec};

verus! {

pub open spec fn thread_name_spec(index: u16) -> Seq<char> {
    "hfendpoints-thread-"@ + decimal_spec(index as nat)
}

/// Name of the runtime's worker thread of the given index.
pub fn thread_name(index: u16) -> (r: String)
    ensures
        r@ == thread_name_spec(index),
{
    let digits = decimal(index as u64);
    String::from_str("hfendpoints-thread-").concat(digits.deref())
}

/// HTTP status of a healthy endpoint.
pub const OK: u16 = 200;

/// The routes that report the endpoint's status.
#[derive(Clone, Copy, Debug, Default)]
pub struct StatusRouter;

impl StatusRouter {
    /// Status the health route answers with while the endpoint serves.
    pub fn health(&self) -> (r: u16)
        ensures
            r == OK,
    {
        OK
    }
}

/// A transport front of the endpoint.
pub trait Transport {}

} // verus!
