//! What the remote service answers to a fetch.

use vstd::prelude::*;

verus! {

/// The outer frame of every answer of the service.
#[derive(Debug)]
pub struct BilibiliResponse<T> {
    /// Status of the call; `0` means success.
    pub code: i32,
    pub msg: String,
    pub message: String,
    pub ttl: i32,
    pub data: T,
}

/// One page of history: the envelopes of one bounded fetch, newest first,
/// with the bounds the service reports for them.
#[derive(Debug)]
pub struct ResponseData<T> {
    /// The envelopes of the page; an absent list counts as an empty one.
    pub messages: Option<Vec<T>>,
    /// The lowest sequence number of the page.
    pub min_seqno: u64,
    /// The highest sequence number of the page.
    pub max_seqno: u64,
    /// `0` where the service holds no history older than this page.
    pub has_more: i32,
}

impl<T> ResponseData<T> {
    /// The envelopes of the page, none where the list is absent.
    pub open spec fn envelopes(self) -> Seq<T> {
        match self.messages {
            Some(list) => list@,
            None => Seq::empty(),
        }
    }

    /// The number of envelopes of the page.
    pub fn count(&self) -> (n: usize)
        ensures
            n == self.envelopes().len(),
    {
        match &self.messages {
            Some(list) => list.len(),
            None => 0,
        }
    }
}

} // verus!
