//! Whole runs: a session fed with one answer after another, and what holds
//! of every such run.

use crate::engine::{accepts, advances, Outcome, State};
use crate::models::message::{Message, ViewerKind};
use crate::models::response::{BilibiliResponse, ResponseData};
use crate::session::{answer_lines, answered, chronological, initial, received};
use crate::session::{Answer, Session, SessionView};
use crate::transcript::{line_of, offset_at, page_lines, LineView};
use crate::Config;
use vstd::prelude::*;

verus! {

/// The session after it has received `answers`, one after the other.
pub open spec fn run(start: SessionView, answers: Seq<Answer>) -> SessionView
    decreases answers.len(),
{
    if answers.len() == 0 {
        start
    } else {
        run(answered(start, answers[0]), answers.drop_first())
    }
}

/// The lines of all envelopes of `answers`, in the order of arrival.
pub open spec fn all_lines(
    viewer: ViewerKind,
    nickname: Seq<char>,
    talker_uid: u64,
    answers: Seq<Answer>,
) -> Seq<LineView>
    decreases answers.len(),
{
    if answers.len() == 0 {
        Seq::empty()
    } else {
        page_lines(
            viewer,
            nickname,
            talker_uid,
            answers[0].response.data.envelopes(),
            answers[0].utc_offsets,
        ) + all_lines(viewer, nickname, talker_uid, answers.drop_first())
    }
}

/// All envelopes of `answers`, in the order of arrival.
pub open spec fn all_envelopes(answers: Seq<Answer>) -> Seq<Message>
    decreases answers.len(),
{
    if answers.len() == 0 {
        Seq::empty()
    } else {
        answers[0].response.data.envelopes() + all_envelopes(answers.drop_first())
    }
}

/// The offset that goes with each envelope of `answers`, in the order of
/// arrival.
pub open spec fn all_offsets(answers: Seq<Answer>) -> Seq<int>
    decreases answers.len(),
{
    if answers.len() == 0 {
        Seq::empty()
    } else {
        Seq::new(
            answers[0].response.data.envelopes().len(),
            |i: int| offset_at(answers[0].utc_offsets, i),
        ) + all_offsets(answers.drop_first())
    }
}

/// Whether `pages` is a history as a well-behaved service serves it to a
/// walk that starts at `cursor`: every page reports success, every page but
/// the last claims more history and moves the cursor down, and the last page
/// claims none.
pub open spec fn orderly_history(cursor: u64, pages: Seq<Answer>) -> bool
    decreases pages.len(),
{
    &&& pages.len() > 0
    &&& pages[0].response.code == 0
    &&& if pages.len() == 1 {
        pages[0].response.data.has_more == 0
    } else {
        &&& pages[0].response.data.has_more != 0
        &&& advances(cursor, pages[0].response.data)
        &&& orderly_history((pages[0].response.data.min_seqno - 1) as u64, pages.drop_first())
    }
}

/// Whether every envelope of a page lies between the lowest sequence number
/// that the page reports and the cursor that the page was asked with.
pub open spec fn within_bounds(cursor: u64, page: ResponseData<Message>) -> bool {
    forall|i: int|
        0 <= i < page.envelopes().len() ==> page.min_seqno <= (
        #[trigger] page.envelopes()[i]).msg_seqno <= cursor
}

/// Whether no two envelopes of a page share a sequence number.
pub open spec fn page_distinct(page: ResponseData<Message>) -> bool {
    forall|i: int, j: int|
        0 <= i < j < page.envelopes().len() ==> (#[trigger] page.envelopes()[i]).msg_seqno != (
        #[trigger] page.envelopes()[j]).msg_seqno
}

/// Whether a page lists its envelopes newest first.
pub open spec fn page_descending(page: ResponseData<Message>) -> bool {
    forall|i: int, j: int|
        0 <= i < j < page.envelopes().len() ==> (#[trigger] page.envelopes()[i]).msg_seqno > (
        #[trigger] page.envelopes()[j]).msg_seqno
}

/// Whether session `s` is fetching pages and appends the lines of `answer`.
pub open spec fn takes_in(s: SessionView, answer: Answer) -> bool {
    s.state is Paging && accepts(s.state->cursor, answer.response)
}

/// Whether `answer` keeps within bounds and repeats nothing, where session
/// `s` takes its lines in.
pub open spec fn faithful_page(s: SessionView, answer: Answer) -> bool {
    takes_in(s, answer) ==> within_bounds(s.state->cursor, answer.response.data) && page_distinct(
        answer.response.data,
    )
}

/// Whether `answer` keeps within bounds and lists newest first, where session
/// `s` takes its lines in.
pub open spec fn newest_first_page(s: SessionView, answer: Answer) -> bool {
    takes_in(s, answer) ==> within_bounds(s.state->cursor, answer.response.data)
        && page_descending(answer.response.data)
}

/// Whether the service keeps within bounds and repeats nothing inside a page,
/// for every page of `answers` that session `s` accepts on its way.
pub open spec fn faithful(s: SessionView, answers: Seq<Answer>) -> bool
    decreases answers.len(),
{
    answers.len() == 0 || (faithful_page(s, answers[0]) && faithful(
        answered(s, answers[0]),
        answers.drop_first(),
    ))
}

/// Whether the service keeps within bounds and lists newest first, for every
/// page of `answers` that session `s` accepts on its way.
pub open spec fn newest_first(s: SessionView, answers: Seq<Answer>) -> bool
    decreases answers.len(),
{
    answers.len() == 0 || (newest_first_page(s, answers[0]) && newest_first(
        answered(s, answers[0]),
        answers.drop_first(),
    ))
}

/// Whether no two lines render the same sequence number.
pub open spec fn distinct(lines: Seq<LineView>) -> bool {
    forall|i: int, j: int|
        0 <= i < j < lines.len() ==> (#[trigger] lines[i]).seqno != (#[trigger] lines[j]).seqno
}

/// Whether the sequence numbers of the lines fall from each line to the next.
pub open spec fn descending(lines: Seq<LineView>) -> bool {
    forall|i: int, j: int|
        0 <= i < j < lines.len() ==> (#[trigger] lines[i]).seqno > (#[trigger] lines[j]).seqno
}

/// Whether every line renders a sequence number above `cursor`.
pub open spec fn all_above(lines: Seq<LineView>, cursor: u64) -> bool {
    forall|i: int| 0 <= i < lines.len() ==> (#[trigger] lines[i]).seqno > cursor
}

/// Whether time follows the sequence numbers: of two lines, the one with the
/// lower sequence number was not sent later.
pub open spec fn time_follows_sequence(lines: Seq<LineView>) -> bool {
    forall|i: int, j: int|
        0 <= i < lines.len() && 0 <= j < lines.len() && (#[trigger] lines[i]).seqno < (
        #[trigger] lines[j]).seqno ==> lines[i].sent_at <= lines[j].sent_at
}

/// Feeding one more answer to a run is one more step of the session.
pub proof fn lemma_run_push(start: SessionView, answers: Seq<Answer>, next: Answer)
    ensures
        run(start, answers.push(next)) == answered(run(start, answers), next),
    decreases answers.len(),
{
    let longer = answers.push(next);
    if answers.len() == 0 {
        assert(longer.drop_first() =~= Seq::<Answer>::empty());
        assert(run(answered(start, next), longer.drop_first()) == answered(start, next));
    } else {
        assert(longer[0] == answers[0]);
        assert(longer.drop_first() =~= answers.drop_first().push(next));
        lemma_run_push(answered(start, answers[0]), answers.drop_first(), next);
    }
}

/// An answer on record: what the service answered to one fetch, and the
/// offset of local time from UTC, in seconds, at the time of each envelope.
#[derive(Debug)]
pub struct Recorded {
    pub response: BilibiliResponse<ResponseData<Message>>,
    pub utc_offsets: Vec<i32>,
}

impl View for Recorded {
    type V = Answer;

    open spec fn view(&self) -> Answer {
        received(self.response, self.utc_offsets@)
    }
}

/// The answers that a list of records holds.
pub open spec fn answers_view(records: Seq<Recorded>) -> Seq<Answer> {
    records.map_values(|r: Recorded| r@)
}

/// Runs a fresh session over answers on record, in their order, as if the
/// service gave them one after the other.
pub fn replay(config: &Config, records: &Vec<Recorded>) -> (session: Session)
    ensures
        session@ == run(
            initial(config.talker_uid, config.size, config.viewer_kind, config.talker_nickname@),
            answers_view(records@),
        ),
{
    let ghost start = initial(
        config.talker_uid,
        config.size,
        config.viewer_kind,
        config.talker_nickname@,
    );
    let ghost answers = answers_view(records@);
    let (mut session, _) = Session::start(config);
    let mut i: usize = 0;
    assert(answers.take(0) =~= Seq::<Answer>::empty());
    while i < records.len()
        invariant
            i <= records.len(),
            answers == answers_view(records@),
            session@ == run(start, answers.take(i as int)),
        decreases records.len() - i,
    {
        proof {
            lemma_run_push(start, answers.take(i as int), answers[i as int]);
            assert(answers.take(i as int + 1) =~= answers.take(i as int).push(answers[i as int]));
        }
        session.on_answer(&records[i].response, &records[i].utc_offsets);
        i += 1;
    }
    assert(answers.take(i as int) =~= answers);
    session
}

/// A run that is over takes no notice of further answers.
pub proof fn lemma_done_stays(start: SessionView, answers: Seq<Answer>)
    requires
        start.state is Done,
    ensures
        run(start, answers) == start,
    decreases answers.len(),
{
    if answers.len() > 0 {
        lemma_done_stays(answered(start, answers[0]), answers.drop_first());
    }
}

/// The cursor only moves down: where the session is fetching pages before
/// and after the answer at position `n`, the cursor after it is strictly
/// below the lowest sequence number of that page and strictly below the
/// cursor that the page was asked with.  Where the page keeps within its
/// bounds, the new cursor is below every sequence number of the page.
pub proof fn lemma_cursor_monotonic(start: SessionView, answers: Seq<Answer>, n: int)
    requires
        0 <= n < answers.len(),
        run(start, answers.take(n)).state is Paging,
        run(start, answers.take(n + 1)).state is Paging,
    ensures
        run(start, answers.take(n + 1)).state->cursor < answers[n].response.data.min_seqno,
        run(start, answers.take(n + 1)).state->cursor < run(
            start,
            answers.take(n),
        ).state->cursor,
        within_bounds(run(start, answers.take(n)).state->cursor, answers[n].response.data)
            ==> forall|i: int|
            0 <= i < answers[n].response.data.envelopes().len() ==> run(
                start,
                answers.take(n + 1),
            ).state->cursor < (#[trigger] answers[n].response.data.envelopes()[i]).msg_seqno,
{
    assert(answers.take(n + 1) =~= answers.take(n).push(answers[n]));
    lemma_run_push(start, answers.take(n), answers[n]);
}

/// No walk goes on forever: every page that keeps the walk going costs the
/// cursor at least one, so a walk that starts at a cursor takes at most that
/// many pages before it ends.
pub proof fn lemma_walk_is_bounded(start: SessionView, answers: Seq<Answer>)
    requires
        start.state is Paging,
        run(start, answers).state is Paging,
    ensures
        run(start, answers).state->cursor + answers.len() <= start.state->cursor,
    decreases answers.len(),
{
    if answers.len() > 0 {
        let next = answered(start, answers[0]);
        if next.state is Done {
            lemma_done_stays(next, answers.drop_first());
        } else {
            lemma_walk_is_bounded(next, answers.drop_first());
        }
    }
}

/// The lines of a list of answers render its envelopes one for one: there
/// are as many lines as envelopes, and the line at each position is the line
/// of the envelope at that position.
pub proof fn lemma_lines_follow_envelopes(
    viewer: ViewerKind,
    nickname: Seq<char>,
    talker_uid: u64,
    answers: Seq<Answer>,
)
    ensures
        all_lines(viewer, nickname, talker_uid, answers).len() == all_envelopes(answers).len(),
        all_offsets(answers).len() == all_envelopes(answers).len(),
        forall|k: int|
            0 <= k < all_envelopes(answers).len() ==> #[trigger] all_lines(
                viewer,
                nickname,
                talker_uid,
                answers,
            )[k] == line_of(
                viewer,
                nickname,
                talker_uid,
                all_envelopes(answers)[k],
                all_offsets(answers)[k],
            ),
    decreases answers.len(),
{
    if answers.len() > 0 {
        lemma_lines_follow_envelopes(viewer, nickname, talker_uid, answers.drop_first());
    }
}

/// A walk through an orderly history ends by itself, as complete, and has
/// then rendered every envelope of every page exactly once: its lines are
/// the lines of the pages, page after page, and the transcript is those
/// lines in reverse.
pub proof fn lemma_orderly_history_is_rendered(start: SessionView, pages: Seq<Answer>)
    requires
        start.state is Paging,
        orderly_history(start.state->cursor, pages),
    ensures
        run(start, pages).state == State::Done(Outcome::Complete),
        run(start, pages).lines == start.lines + all_lines(
            start.viewer,
            start.nickname,
            start.talker_uid,
            pages,
        ),
        chronological(run(start, pages).lines) == (start.lines + all_lines(
            start.viewer,
            start.nickname,
            start.talker_uid,
            pages,
        )).reverse(),
    decreases pages.len(),
{
    let next = answered(start, pages[0]);
    let rest = pages.drop_first();
    let tail = all_lines(start.viewer, start.nickname, start.talker_uid, rest);
    if pages.len() == 1 {
        assert(start.lines + (answer_lines(start, pages[0]) + tail) =~= next.lines);
    } else {
        lemma_orderly_history_is_rendered(next, rest);
        assert(start.lines + (answer_lines(start, pages[0]) + tail) =~= next.lines + tail);
    }
}

/// A whole run, from the first fetch on: where the latest message seeds the
/// cursor and an orderly history follows, the run ends as complete and its
/// lines are exactly the lines of the pages.  The message of the first answer
/// is not rendered by itself.
pub proof fn lemma_whole_run(
    talker_uid: u64,
    size: u32,
    viewer: ViewerKind,
    nickname: Seq<char>,
    latest: Answer,
    pages: Seq<Answer>,
)
    requires
        latest.response.code == 0,
        latest.response.data.envelopes().len() > 0,
        orderly_history(latest.response.data.max_seqno, pages),
    ensures
        run(initial(talker_uid, size, viewer, nickname), seq![latest] + pages).state
            == State::Done(Outcome::Complete),
        run(initial(talker_uid, size, viewer, nickname), seq![latest] + pages).lines
            == all_lines(viewer, nickname, talker_uid, pages),
{
    let start = initial(talker_uid, size, viewer, nickname);
    let all = seq![latest] + pages;
    assert(all.drop_first() =~= pages);
    lemma_orderly_history_is_rendered(answered(start, latest), pages);
    assert(Seq::<LineView>::empty() + all_lines(viewer, nickname, talker_uid, pages)
        =~= all_lines(viewer, nickname, talker_uid, pages));
}

/// What a correct walk keeps true of its lines, with or without order inside
/// the pages: nothing was fetched before the first answer, and while pages
/// are fetched every line lies above the cursor.
spec fn lines_above_cursor(s: SessionView) -> bool {
    &&& s.state is Bootstrap ==> s.lines.len() == 0
    &&& s.state matches State::Paging { cursor } ==> all_above(s.lines, cursor)
}

proof fn lemma_faithful_step(s: SessionView, answer: Answer)
    requires
        lines_above_cursor(s),
        distinct(s.lines),
        faithful_page(s, answer),
    ensures
        lines_above_cursor(answered(s, answer)),
        distinct(answered(s, answer).lines),
{
    let next = answered(s, answer);
    if let State::Paging { cursor } = s.state {
        if accepts(cursor, answer.response) {
            let page = answer.response.data;
            let fresh = answer_lines(s, answer);
            assert(forall|k: int|
                0 <= k < fresh.len() ==> (#[trigger] fresh[k]).seqno
                    == page.envelopes()[k].msg_seqno);
            assert forall|i: int, j: int| 0 <= i < j < next.lines.len() implies (
            #[trigger] next.lines[i]).seqno != (#[trigger] next.lines[j]).seqno by {
                if j < s.lines.len() {
                } else if i < s.lines.len() {
                    assert(next.lines[i] == s.lines[i]);
                    assert(next.lines[j] == fresh[j - s.lines.len()]);
                } else {
                    assert(next.lines[i] == fresh[i - s.lines.len()]);
                    assert(next.lines[j] == fresh[j - s.lines.len()]);
                }
            }
            if let State::Paging { cursor: lower } = next.state {
                assert forall|i: int| 0 <= i < next.lines.len() implies (
                #[trigger] next.lines[i]).seqno > lower by {
                    if i < s.lines.len() {
                        assert(next.lines[i] == s.lines[i]);
                    } else {
                        assert(next.lines[i] == fresh[i - s.lines.len()]);
                    }
                }
            }
        }
    }
}

proof fn lemma_faithful_run(s: SessionView, answers: Seq<Answer>)
    requires
        lines_above_cursor(s),
        distinct(s.lines),
        faithful(s, answers),
    ensures
        lines_above_cursor(run(s, answers)),
        distinct(run(s, answers).lines),
    decreases answers.len(),
{
    if answers.len() > 0 {
        lemma_faithful_step(s, answers[0]);
        lemma_faithful_run(answered(s, answers[0]), answers.drop_first());
    }
}

/// No message appears twice: where the service keeps every page within its
/// bounds and repeats no sequence number inside a page, the lines of a run
/// that starts with an empty transcript render pairwise different sequence
/// numbers.
pub proof fn lemma_no_duplicates(start: SessionView, answers: Seq<Answer>)
    requires
        start.lines.len() == 0,
        faithful(start, answers),
    ensures
        distinct(run(start, answers).lines),
        distinct(chronological(run(start, answers).lines)),
{
    lemma_faithful_run(start, answers);
    let lines = run(start, answers).lines;
    let ordered = chronological(lines);
    assert forall|i: int, j: int| 0 <= i < j < ordered.len() implies (#[trigger] ordered[i]).seqno
        != (#[trigger] ordered[j]).seqno by {
        assert(ordered[i] == lines[lines.len() - 1 - i]);
        assert(ordered[j] == lines[lines.len() - 1 - j]);
    }
}

proof fn lemma_newest_first_step(s: SessionView, answer: Answer)
    requires
        lines_above_cursor(s),
        descending(s.lines),
        newest_first_page(s, answer),
    ensures
        lines_above_cursor(answered(s, answer)),
        descending(answered(s, answer).lines),
{
    let next = answered(s, answer);
    if let State::Paging { cursor } = s.state {
        if accepts(cursor, answer.response) {
            let page = answer.response.data;
            let fresh = answer_lines(s, answer);
            assert(forall|k: int|
                0 <= k < fresh.len() ==> (#[trigger] fresh[k]).seqno
                    == page.envelopes()[k].msg_seqno);
            assert forall|i: int, j: int| 0 <= i < j < next.lines.len() implies (
            #[trigger] next.lines[i]).seqno > (#[trigger] next.lines[j]).seqno by {
                if j < s.lines.len() {
                } else if i < s.lines.len() {
                    assert(next.lines[i] == s.lines[i]);
                    assert(next.lines[j] == fresh[j - s.lines.len()]);
                } else {
                    assert(next.lines[i] == fresh[i - s.lines.len()]);
                    assert(next.lines[j] == fresh[j - s.lines.len()]);
                }
            }
            if let State::Paging { cursor: lower } = next.state {
                assert forall|i: int| 0 <= i < next.lines.len() implies (
                #[trigger] next.lines[i]).seqno > lower by {
                    if i < s.lines.len() {
                        assert(next.lines[i] == s.lines[i]);
                    } else {
                        assert(next.lines[i] == fresh[i - s.lines.len()]);
                    }
                }
            }
        }
    }
}

proof fn lemma_newest_first_run(s: SessionView, answers: Seq<Answer>)
    requires
        lines_above_cursor(s),
        descending(s.lines),
        newest_first(s, answers),
    ensures
        lines_above_cursor(run(s, answers)),
        descending(run(s, answers).lines),
    decreases answers.len(),
{
    if answers.len() > 0 {
        lemma_newest_first_step(s, answers[0]);
        lemma_newest_first_run(answered(s, answers[0]), answers.drop_first());
    }
}

/// The transcript is chronological: where the service keeps every page
/// within its bounds and lists it newest first, and time follows the
/// sequence numbers of the conversation, every line of the transcript of a
/// run that starts with an empty transcript has a higher sequence number
/// than the lines before it and was not sent before any of them.
pub proof fn lemma_transcript_is_chronological(start: SessionView, answers: Seq<Answer>)
    requires
        start.lines.len() == 0,
        newest_first(start, answers),
        time_follows_sequence(run(start, answers).lines),
    ensures
        forall|i: int, j: int|
            0 <= i < j < run(start, answers).lines.len() ==> (#[trigger] chronological(
                run(start, answers).lines,
            )[i]).seqno < (#[trigger] chronological(run(start, answers).lines)[j]).seqno,
        forall|i: int, j: int|
            0 <= i < j < run(start, answers).lines.len() ==> (#[trigger] chronological(
                run(start, answers).lines,
            )[i]).sent_at <= (#[trigger] chronological(run(start, answers).lines)[j]).sent_at,
{
    lemma_newest_first_run(start, answers);
    let lines = run(start, answers).lines;
    let ordered = chronological(lines);
    assert forall|i: int, j: int| 0 <= i < j < lines.len() implies (#[trigger] ordered[i]).seqno < (
    #[trigger] ordered[j]).seqno && ordered[i].sent_at <= ordered[j].sent_at by {
        assert(ordered[i] == lines[lines.len() - 1 - i]);
        assert(ordered[j] == lines[lines.len() - 1 - j]);
    }
}

} // verus!
