//! A run: the pagination engine and the transcript it fills, driven by the
//! answers of the remote service.
//!
//! The caller performs each fetch that an [`Action`] asks for and hands the
//! answer to [`Session::on_answer`].  Pages arrive newest first and each page
//! lists its envelopes newest first, so the session keeps its lines in the
//! order of arrival and hands out the transcript in the reverse of that
//! order: oldest line first.  The message that the first fetch returns only
//! seeds the cursor; it is rendered when the first page brings it again.

use crate::engine::{accepts, after_latest, after_page, Outcome, State};
use crate::models::message::{Message, ViewerKind};
use crate::models::response::{BilibiliResponse, ResponseData};
use crate::transcript::{lines_view, page_lines, render_page, Line, LineView};
use crate::Config;
use vstd::prelude::*;

verus! {

/// How long to wait before the fetch of a page that follows another page,
/// in milliseconds.
pub const PAGE_DELAY_MS: u64 = 500;

/// What the caller is to do next.
#[derive(Debug, Clone, Copy, PartialEq, Eq, Structural)]
pub enum Action {
    /// Fetch the latest message exchanged with `talker_uid`, and hand the
    /// answer back.
    FetchLatest { talker_uid: u64 },
    /// Wait `wait_ms` milliseconds, fetch at most `size` messages exchanged
    /// with `talker_uid`, none of them with a sequence number above
    /// `end_seqno`, and hand the answer back.
    FetchPage { talker_uid: u64, size: u32, end_seqno: u64, wait_ms: u64 },
    /// Stop: the run is over.
    Stop(Outcome),
}

/// What can cut a run short from outside.
#[derive(Debug, Clone, Copy, PartialEq, Eq, Structural)]
pub enum Interruption {
    /// A request did not get through.
    TransportFailed,
    /// An answer could not be decoded.
    DecodeFailed,
    /// The caller wants to stop.
    Cancelled,
}

impl Interruption {
    /// The outcome of a run that was cut short this way.
    pub open spec fn outcome(self) -> Outcome {
        match self {
            Interruption::TransportFailed => Outcome::TransportFailure,
            Interruption::DecodeFailed => Outcome::DecodeFailure,
            Interruption::Cancelled => Outcome::Cancelled,
        }
    }
}

/// One run over the history of one conversation.
#[derive(Debug)]
pub struct Session {
    talker_uid: u64,
    size: u32,
    viewer: ViewerKind,
    nickname: String,
    state: State,
    lines: Vec<Line>,
}

/// The mathematical value of a [`Session`].
pub struct SessionView {
    /// The peer of the conversation.
    pub talker_uid: u64,
    /// The number of messages asked for per page.
    pub size: u32,
    /// Whose inbox is being read.
    pub viewer: ViewerKind,
    /// The name under which the peer appears.
    pub nickname: Seq<char>,
    /// Where the run stands.
    pub state: State,
    /// The lines rendered so far, in the order of arrival: newest first.
    pub lines: Seq<LineView>,
}

impl View for Session {
    type V = SessionView;

    closed spec fn view(&self) -> SessionView {
        SessionView {
            talker_uid: self.talker_uid,
            size: self.size,
            viewer: self.viewer,
            nickname: self.nickname@,
            state: self.state,
            lines: lines_view(self.lines@),
        }
    }
}

/// What the service answered to one fetch, with the offset from UTC, in
/// seconds, of the local clock at the time of each envelope.
pub struct Answer {
    pub response: BilibiliResponse<ResponseData<Message>>,
    pub utc_offsets: Seq<i32>,
}

/// The answer that is made of a response and the offsets that go with it.
pub open spec fn received(
    response: BilibiliResponse<ResponseData<Message>>,
    utc_offsets: Seq<i32>,
) -> Answer {
    Answer { response, utc_offsets }
}

/// A session that has fetched nothing yet.
pub open spec fn initial(
    talker_uid: u64,
    size: u32,
    viewer: ViewerKind,
    nickname: Seq<char>,
) -> SessionView {
    SessionView { talker_uid, size, viewer, nickname, state: State::Bootstrap, lines: Seq::empty() }
}

/// What a session asks of its caller: the fetch of the latest message, the
/// fetch of the page that ends at the cursor after a wait of `wait_ms`, or to
/// stop.
pub open spec fn request(s: SessionView, wait_ms: u64) -> Action {
    match s.state {
        State::Bootstrap => Action::FetchLatest { talker_uid: s.talker_uid },
        State::Paging { cursor } => Action::FetchPage {
            talker_uid: s.talker_uid,
            size: s.size,
            end_seqno: cursor,
            wait_ms,
        },
        State::Done(outcome) => Action::Stop(outcome),
    }
}

/// The wait before the fetch that follows an answer received by `s`: none
/// after the answer that seeds the cursor, the fixed delay between pages.
pub open spec fn wait_after(s: SessionView) -> u64 {
    if s.state is Paging {
        PAGE_DELAY_MS
    } else {
        0
    }
}

/// The lines of the envelopes of an answer, as session `s` renders them.
pub open spec fn answer_lines(s: SessionView, answer: Answer) -> Seq<LineView> {
    page_lines(
        s.viewer,
        s.nickname,
        s.talker_uid,
        answer.response.data.envelopes(),
        answer.utc_offsets,
    )
}

/// The session after an answer.
///
/// The answer to the first fetch only seeds the cursor.  The answer to the
/// fetch of a page moves the engine on, and where the engine accepts the page
/// its lines are appended.  A finished session stays as it is.
pub open spec fn answered(s: SessionView, answer: Answer) -> SessionView {
    match s.state {
        State::Bootstrap => SessionView {
            talker_uid: s.talker_uid,
            size: s.size,
            viewer: s.viewer,
            nickname: s.nickname,
            state: after_latest(answer.response),
            lines: s.lines,
        },
        State::Paging { cursor } => SessionView {
            talker_uid: s.talker_uid,
            size: s.size,
            viewer: s.viewer,
            nickname: s.nickname,
            state: after_page(cursor, answer.response),
            lines: if accepts(cursor, answer.response) {
                s.lines + answer_lines(s, answer)
            } else {
                s.lines
            },
        },
        State::Done(_) => s,
    }
}

/// The session after an interruption: over, unless it was over already.
pub open spec fn interrupted(s: SessionView, why: Interruption) -> SessionView {
    match s.state {
        State::Done(_) => s,
        _ => SessionView {
            talker_uid: s.talker_uid,
            size: s.size,
            viewer: s.viewer,
            nickname: s.nickname,
            state: State::Done(why.outcome()),
            lines: s.lines,
        },
    }
}

/// The transcript in its final order: oldest line first.
pub open spec fn chronological(lines: Seq<LineView>) -> Seq<LineView> {
    lines.reverse()
}

impl Session {
    /// Starts a run and asks for the latest message of the conversation.
    pub fn start(config: &Config) -> (r: (Session, Action))
        ensures
            r.0@ == initial(
                config.talker_uid,
                config.size,
                config.viewer_kind,
                config.talker_nickname@,
            ),
            r.1 == request(r.0@, 0),
    {
        let session = Session {
            talker_uid: config.talker_uid,
            size: config.size,
            viewer: config.viewer_kind,
            nickname: config.talker_nickname.clone(),
            state: State::Bootstrap,
            lines: Vec::new(),
        };
        assert(lines_view(session.lines@) =~= Seq::empty());
        let action = session.next_request(0);
        (session, action)
    }

    /// The request that the session's state calls for.
    fn next_request(&self, wait_ms: u64) -> (action: Action)
        ensures
            action == request(self@, wait_ms),
    {
        match self.state {
            State::Bootstrap => Action::FetchLatest { talker_uid: self.talker_uid },
            State::Paging { cursor } => Action::FetchPage {
                talker_uid: self.talker_uid,
                size: self.size,
                end_seqno: cursor,
                wait_ms,
            },
            State::Done(outcome) => Action::Stop(outcome),
        }
    }

    /// Takes the answer to the last fetch and says what to do next.
    ///
    /// `utc_offsets` holds, for each envelope of the answer, the offset of
    /// local time from UTC at the time of that envelope, in seconds.
    pub fn on_answer(
        &mut self,
        response: &BilibiliResponse<ResponseData<Message>>,
        utc_offsets: &Vec<i32>,
    ) -> (action: Action)
        ensures
            final(self)@ == answered(old(self)@, received(*response, utc_offsets@)),
            action == request(final(self)@, wait_after(old(self)@)),
    {
        let ghost before = self@;
        let ghost answer = received(*response, utc_offsets@);
        match self.state {
            State::Bootstrap => {
                self.state = State::on_latest(response);
                self.next_request(0)
            },
            State::Paging { cursor } => {
                if State::takes(cursor, response) {
                    match &response.data.messages {
                        Some(envelopes) => {
                            render_page(
                                self.viewer,
                                envelopes,
                                self.nickname.as_str(),
                                self.talker_uid,
                                utc_offsets,
                                &mut self.lines,
                            );
                        },
                        None => {
                            assert(before.lines + answer_lines(before, answer) =~= before.lines);
                        },
                    }
                }
                self.state = State::on_page(cursor, response);
                self.next_request(PAGE_DELAY_MS)
            },
            State::Done(_) => self.next_request(0),
        }
    }

    /// Ends the run early and says so.
    pub fn interrupt(&mut self, why: Interruption) -> (action: Action)
        ensures
            final(self)@ == interrupted(old(self)@, why),
            action == request(final(self)@, 0),
    {
        match self.state {
            State::Done(_) => {},
            _ => {
                self.state = State::Done(
                    match why {
                        Interruption::TransportFailed => Outcome::TransportFailure,
                        Interruption::DecodeFailed => Outcome::DecodeFailure,
                        Interruption::Cancelled => Outcome::Cancelled,
                    },
                );
            },
        }
        self.next_request(0)
    }

    /// Where the run stands.
    pub fn state(&self) -> (state: State)
        ensures
            state == self@.state,
    {
        self.state
    }

    /// The lines rendered so far, in the order of arrival: newest first.
    pub fn lines(&self) -> (lines: &Vec<Line>)
        ensures
            lines_view(lines@) == self@.lines,
    {
        &self.lines
    }

    /// The transcript: the text of every line rendered so far, oldest first.
    pub fn transcript(&self) -> (texts: Vec<String>)
        ensures
            texts@.len() == self@.lines.len(),
            forall|i: int|
                0 <= i < texts@.len() ==> (#[trigger] texts@[i])@ == chronological(
                    self@.lines,
                )[i].text,
    {
        let mut texts: Vec<String> = Vec::new();
        let n: usize = self.lines.len();
        let mut i: usize = 0;
        while i < n
            invariant
                i <= n,
                n == self.lines.len(),
                texts@.len() == i,
                forall|k: int|
                    0 <= k < i ==> (#[trigger] texts@[k])@ == self.lines@[n - 1 - k].text@,
            decreases n - i,
        {
            texts.push(self.lines[n - 1 - i].text.clone());
            i += 1;
        }
        texts
    }
}

} // verus!
