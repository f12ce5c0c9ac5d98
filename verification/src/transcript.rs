//! Transcript lines: one per message, in the format
//! `[<timestamp>]<speaker>: <content>` followed by a line feed.

use crate::identity::{person_nickname, speaker_name};
use crate::models::message::{Message, ViewerKind};
use crate::payload::{format_message, formatted, FormatError};
use vstd::prelude::*;
use vstd::string::*;

verus! {

/// One line of a transcript, with the position and time of the message it
/// renders.
#[derive(Debug, PartialEq, Eq)]
pub struct Line {
    /// The sequence number of the message.
    pub seqno: u64,
    /// When the message was sent, in seconds since the Unix epoch.
    pub sent_at: u64,
    /// The line itself, line feed included.
    pub text: String,
    /// Whether the calendar could render the time of the message; where it
    /// could not, the line shows a placeholder for it.
    pub dated: bool,
    /// Why the content of the message could not be rendered, if it could
    /// not; the line then shows a placeholder for it.
    pub error: Option<FormatError>,
}

/// The mathematical value of a [`Line`].
pub struct LineView {
    pub seqno: u64,
    pub sent_at: u64,
    pub text: Seq<char>,
    pub dated: bool,
    pub error: Option<FormatError>,
}

impl View for Line {
    type V = LineView;

    open spec fn view(&self) -> LineView {
        LineView {
            seqno: self.seqno,
            sent_at: self.sent_at,
            text: self.text@,
            dated: self.dated,
            error: self.error,
        }
    }
}

/// The views of a sequence of lines.
pub open spec fn lines_view(lines: Seq<Line>) -> Seq<LineView> {
    lines.map_values(|l: Line| l@)
}

/// The text of one line.
pub open spec fn line_text(stamp: Seq<char>, speaker: Seq<char>, content: Seq<char>) -> Seq<char> {
    "["@ + stamp + "]"@ + speaker + ": "@ + content + "\n"@
}

/// The line that renders `message` for a viewer, with the message's time
/// read on a clock that runs `utc_offset` seconds ahead of UTC.
///
/// A time that the calendar cannot render and a content that cannot be
/// rendered each become a placeholder, and the line says so.
pub open spec fn line_of(
    viewer: ViewerKind,
    nickname: Seq<char>,
    talker_uid: u64,
    message: Message,
    utc_offset: int,
) -> LineView {
    let stamp = message.stamp(utc_offset);
    let content = formatted(message.msg_type, message.content@);
    LineView {
        seqno: message.msg_seqno,
        sent_at: message.timestamp,
        text: line_text(
            match stamp {
                Some(t) => t,
                None => "????-??-?? ??:??:??"@,
            },
            speaker_name(viewer, message, nickname, talker_uid),
            match content {
                Ok(t) => t,
                Err(_) => "[unrenderable message]"@,
            },
        ),
        dated: stamp is Some,
        error: match content {
            Ok(_) => None,
            Err(e) => Some(e),
        },
    }
}

/// The offset that goes with the envelope at `index`: the one at that
/// position, or none at all (UTC) where the list is too short.
pub open spec fn offset_at(utc_offsets: Seq<i32>, index: int) -> int {
    if 0 <= index < utc_offsets.len() {
        utc_offsets[index] as int
    } else {
        0
    }
}

/// The lines of the envelopes of one page, in the order of the page.
pub open spec fn page_lines(
    viewer: ViewerKind,
    nickname: Seq<char>,
    talker_uid: u64,
    envelopes: Seq<Message>,
    utc_offsets: Seq<i32>,
) -> Seq<LineView> {
    Seq::new(
        envelopes.len(),
        |i: int| line_of(viewer, nickname, talker_uid, envelopes[i], offset_at(utc_offsets, i)),
    )
}

/// Puts a line together from its three parts.
pub fn compose_line(stamp: &str, speaker: &str, content: &str) -> (line: String)
    ensures
        line@ == line_text(stamp@, speaker@, content@),
{
    let mut line = String::from_str("[");
    line.append(stamp);
    line.append("]");
    line.append(speaker);
    line.append(": ");
    line.append(content);
    line.append("\n");
    line
}

/// Renders one message as a transcript line.
pub fn render_line(
    viewer: ViewerKind,
    message: &Message,
    nickname: &str,
    talker_uid: u64,
    utc_offset: i32,
) -> (line: Line)
    ensures
        line@ == line_of(viewer, nickname@, talker_uid, *message, utc_offset as int),
{
    let speaker = person_nickname(viewer, message, nickname, talker_uid);
    let stamp = message.datetime(utc_offset);
    let content = format_message(message);
    let text = match (&stamp, &content) {
        (Some(s), Ok(c)) => compose_line(s.as_str(), speaker, c.as_str()),
        (Some(s), Err(_)) => compose_line(s.as_str(), speaker, "[unrenderable message]"),
        (None, Ok(c)) => compose_line("????-??-?? ??:??:??", speaker, c.as_str()),
        (None, Err(_)) => compose_line("????-??-?? ??:??:??", speaker, "[unrenderable message]"),
    };
    Line {
        seqno: message.msg_seqno,
        sent_at: message.timestamp,
        text,
        dated: stamp.is_some(),
        error: match content {
            Ok(_) => None,
            Err(e) => Some(e),
        },
    }
}

/// Renders the envelopes of one page and appends their lines to `lines`, in
/// the order of the page.
pub fn render_page(
    viewer: ViewerKind,
    envelopes: &Vec<Message>,
    nickname: &str,
    talker_uid: u64,
    utc_offsets: &Vec<i32>,
    lines: &mut Vec<Line>,
)
    ensures
        lines_view(final(lines)@) == lines_view(old(lines)@) + page_lines(
            viewer,
            nickname@,
            talker_uid,
            envelopes@,
            utc_offsets@,
        ),
{
    let ghost before = lines_view(lines@);
    let ghost page = page_lines(viewer, nickname@, talker_uid, envelopes@, utc_offsets@);
    let mut i: usize = 0;
    assert(lines_view(lines@) =~= before + page.take(0));
    while i < envelopes.len()
        invariant
            i <= envelopes.len(),
            page == page_lines(viewer, nickname@, talker_uid, envelopes@, utc_offsets@),
            lines_view(lines@) == before + page.take(i as int),
        decreases envelopes.len() - i,
    {
        let utc_offset: i32 = if i < utc_offsets.len() {
            utc_offsets[i]
        } else {
            0
        };
        let line = render_line(viewer, &envelopes[i], nickname, talker_uid, utc_offset);
        let ghost earlier = lines@;
        lines.push(line);
        assert(lines_view(lines@) =~= lines_view(earlier).push(line@));
        assert(page.take(i as int + 1) =~= page.take(i as int).push(page[i as int]));
        i += 1;
    }
    assert(page.take(i as int) =~= page);
}

} // verus!
