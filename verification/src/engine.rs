//! The pagination engine: which page to ask for next, and when to stop.
//!
//! History is walked backward.  The cursor is the highest sequence number
//! that has not been fetched yet; every page that keeps the walk going moves
//! it strictly down.

use crate::models::response::{BilibiliResponse, ResponseData};
use vstd::prelude::*;

verus! {

/// How a run ended.
#[derive(Debug, Clone, Copy, PartialEq, Eq, Structural)]
pub enum Outcome {
    /// The service reported that no older history is left.
    Complete,
    /// The conversation holds no message at all.
    EmptyHistory,
    /// The service answered with a status other than success.
    RemoteFailure,
    /// A page claimed more history but its bounds would not move the cursor
    /// down.
    Inconsistent,
    /// A request did not get through.
    TransportFailure,
    /// An answer could not be decoded.
    DecodeFailure,
    /// The caller asked to stop.
    Cancelled,
}

impl Outcome {
    /// Whether a run that ended this way failed.  A run fails where a request
    /// did not get through, an answer could not be decoded, or the pages do
    /// not fit together.  A status other than success that the service
    /// reports ends the run without failing it.
    pub open spec fn fatal(self) -> bool {
        self == Outcome::Inconsistent || self == Outcome::TransportFailure || self
            == Outcome::DecodeFailure
    }

    /// Whether a run that ended this way failed.
    pub fn is_fatal(&self) -> (b: bool)
        ensures
            b == self.fatal(),
    {
        match self {
            Outcome::Inconsistent => true,
            Outcome::TransportFailure => true,
            Outcome::DecodeFailure => true,
            Outcome::Complete => false,
            Outcome::EmptyHistory => false,
            Outcome::RemoteFailure => false,
            Outcome::Cancelled => false,
        }
    }
}

/// Where a run stands.
#[derive(Debug, Clone, Copy, PartialEq, Eq, Structural)]
pub enum State {
    /// Nothing was fetched yet; the latest message is asked for.
    Bootstrap,
    /// Pages are being fetched; the next one is to hold no sequence number
    /// above `cursor`.
    Paging { cursor: u64 },
    /// The run is over.
    Done(Outcome),
}

/// Whether a page that claims more history moves a cursor strictly down: its
/// lowest sequence number is at least 1 and not above the cursor.
pub open spec fn advances<T>(cursor: u64, page: ResponseData<T>) -> bool {
    1 <= page.min_seqno <= cursor
}

/// The state after the answer to the fetch of the latest message.
pub open spec fn after_latest<T>(answer: BilibiliResponse<ResponseData<T>>) -> State {
    if answer.code != 0 {
        State::Done(Outcome::RemoteFailure)
    } else if answer.data.envelopes().len() == 0 {
        State::Done(Outcome::EmptyHistory)
    } else {
        State::Paging { cursor: answer.data.max_seqno }
    }
}

/// The state after the answer to the fetch of the page below `cursor`.
pub open spec fn after_page<T>(cursor: u64, answer: BilibiliResponse<ResponseData<T>>) -> State {
    if answer.code != 0 {
        State::Done(Outcome::RemoteFailure)
    } else if answer.data.has_more == 0 {
        State::Done(Outcome::Complete)
    } else if advances(cursor, answer.data) {
        State::Paging { cursor: (answer.data.min_seqno - 1) as u64 }
    } else {
        State::Done(Outcome::Inconsistent)
    }
}

/// Whether the envelopes of the page below `cursor` enter the transcript:
/// the answer reports success, and the page is the last one or moves the
/// cursor down.
pub open spec fn accepts<T>(cursor: u64, answer: BilibiliResponse<ResponseData<T>>) -> bool {
    answer.code == 0 && (answer.data.has_more == 0 || advances(cursor, answer.data))
}

impl State {
    /// Decides how the run goes on after the answer to the fetch of the
    /// latest message.
    pub fn on_latest<T>(answer: &BilibiliResponse<ResponseData<T>>) -> (next: State)
        ensures
            next == after_latest(*answer),
    {
        if answer.code != 0 {
            State::Done(Outcome::RemoteFailure)
        } else if answer.data.count() == 0 {
            State::Done(Outcome::EmptyHistory)
        } else {
            State::Paging { cursor: answer.data.max_seqno }
        }
    }

    /// Decides how the run goes on after the answer to the fetch of the page
    /// below `cursor`.
    pub fn on_page<T>(cursor: u64, answer: &BilibiliResponse<ResponseData<T>>) -> (next: State)
        ensures
            next == after_page(cursor, *answer),
    {
        if answer.code != 0 {
            State::Done(Outcome::RemoteFailure)
        } else if answer.data.has_more == 0 {
            State::Done(Outcome::Complete)
        } else if 1 <= answer.data.min_seqno && answer.data.min_seqno <= cursor {
            State::Paging { cursor: answer.data.min_seqno - 1 }
        } else {
            State::Done(Outcome::Inconsistent)
        }
    }

    /// Whether the envelopes of the page below `cursor` enter the transcript.
    pub fn takes<T>(cursor: u64, answer: &BilibiliResponse<ResponseData<T>>) -> (b: bool)
        ensures
            b == accepts(cursor, *answer),
    {
        answer.code == 0 && (answer.data.has_more == 0 || (1 <= answer.data.min_seqno
            && answer.data.min_seqno <= cursor))
    }
}

/// A page that keeps the walk going leaves a cursor that is strictly below
/// the lowest sequence number of that page, and strictly below the cursor
/// the page was asked with.
pub proof fn lemma_cursor_moves_down<T>(cursor: u64, answer: BilibiliResponse<ResponseData<T>>)
    requires
        after_page(cursor, answer) is Paging,
    ensures
        after_page(cursor, answer)->cursor < answer.data.min_seqno,
        after_page(cursor, answer)->cursor < cursor,
{
}

/// The envelopes of a page enter the transcript exactly where the page ends
/// the history or keeps the walk going.
pub proof fn lemma_accepts_iff_progress<T>(cursor: u64, answer: BilibiliResponse<ResponseData<T>>)
    ensures
        accepts(cursor, answer) <==> (after_page(cursor, answer) is Paging || after_page(
            cursor,
            answer,
        ) == State::Done(Outcome::Complete)),
{
}

} // verus!
