//! Decoding of message content into payload variants, and their display text.

use crate::json::{field_of, find_field, json_object, members_view, parse_object};
use crate::json::{Member, MemberView, Scalar, ScalarView};
use crate::models::message::{text_view, Message};
use crate::models::message::{ImageMessage, ImageMessageView};
use crate::models::message::{ShareMessage, ShareMessageView};
use crate::models::message::{TextMessage, TextMessageView};
use vstd::prelude::*;
use vstd::string::*;

verus! {

/// The payload variants that a message type can select.
#[derive(Debug, Clone, Copy, PartialEq, Eq, Structural)]
pub enum PayloadKind {
    PlainText,
    Image,
    Share,
    Unrecognized,
}

/// The payload variant that a message type selects: `1` is text, `2` an
/// image, `7` a share; every other type is unrecognized.
pub open spec fn kind_of(msg_type: u8) -> PayloadKind {
    if msg_type == 1 {
        PayloadKind::PlainText
    } else if msg_type == 2 {
        PayloadKind::Image
    } else if msg_type == 7 {
        PayloadKind::Share
    } else {
        PayloadKind::Unrecognized
    }
}

impl PayloadKind {
    /// The payload variant that `msg_type` selects.
    pub fn of(msg_type: u8) -> (kind: PayloadKind)
        ensures
            kind == kind_of(msg_type),
    {
        if msg_type == 1 {
            PayloadKind::PlainText
        } else if msg_type == 2 {
            PayloadKind::Image
        } else if msg_type == 7 {
            PayloadKind::Share
        } else {
            PayloadKind::Unrecognized
        }
    }
}

/// Why a single message has no display text.
#[derive(Debug, Clone, Copy, PartialEq, Eq, Structural)]
pub enum FormatError {
    /// The content is not a JSON object with the members that a payload of
    /// this kind needs.
    Malformed(PayloadKind),
    /// The message is a share of a kind that has no rendering yet.
    UnsupportedShare,
}

/// The decoded content of a message.
#[derive(Debug, PartialEq, Eq)]
pub enum PayloadVariant {
    PlainText(TextMessage),
    Image(ImageMessage),
    Share(ShareMessage),
    /// A message of a type that this library does not read.
    Unrecognized,
}

/// The mathematical value of a [`PayloadVariant`].
pub enum PayloadView {
    PlainText(TextMessageView),
    Image(ImageMessageView),
    Share(ShareMessageView),
    Unrecognized,
}

impl View for PayloadVariant {
    type V = PayloadView;

    open spec fn view(&self) -> PayloadView {
        match self {
            PayloadVariant::PlainText(t) => PayloadView::PlainText(t@),
            PayloadVariant::Image(i) => PayloadView::Image(i@),
            PayloadVariant::Share(s) => PayloadView::Share(s@),
            PayloadVariant::Unrecognized => PayloadView::Unrecognized,
        }
    }
}

/// The text of the member `key`, where there is such a member and it holds
/// a string.
pub open spec fn text_field(members: Seq<MemberView>, key: Seq<char>) -> Option<Seq<char>> {
    match field_of(members, key) {
        Some(ScalarView::Text(t)) => Some(t),
        _ => None,
    }
}

/// The text of the member `key` where that member may be left out: a missing
/// member and `null` both give `Some(None)`, a string gives its text, and
/// anything else is a mismatch, `None`.
pub open spec fn optional_text_field(members: Seq<MemberView>, key: Seq<char>) -> Option<
    Option<Seq<char>>,
> {
    match field_of(members, key) {
        None => Some(None),
        Some(ScalarView::Null) => Some(None),
        Some(ScalarView::Text(t)) => Some(Some(t)),
        _ => None,
    }
}

/// The number of the member `key`, where there is such a member and it holds
/// a non-negative integer of at most `max`.
pub open spec fn number_field(members: Seq<MemberView>, key: Seq<char>, max: u64) -> Option<u64> {
    match field_of(members, key) {
        Some(ScalarView::Unsigned(n)) => if n <= max {
            Some(n)
        } else {
            None
        },
        _ => None,
    }
}

/// The text payload that an object spells: its member `content`.
pub open spec fn text_from(members: Seq<MemberView>) -> Option<TextMessageView> {
    match text_field(members, "content"@) {
        Some(content) => Some(TextMessageView { content }),
        None => None,
    }
}

/// The image payload that an object spells: its members `original`, `url`,
/// `imageType`, `height` and `width`.
pub open spec fn image_from(members: Seq<MemberView>) -> Option<ImageMessageView> {
    match (
        number_field(members, "original"@, 0xff),
        text_field(members, "url"@),
        text_field(members, "imageType"@),
        number_field(members, "height"@, 0xffff_ffff),
        number_field(members, "width"@, 0xffff_ffff),
    ) {
        (Some(original), Some(url), Some(image_type), Some(height), Some(width)) => Some(
            ImageMessageView {
                original: original as u8,
                url,
                image_type,
                height: height as u32,
                width: width as u32,
            },
        ),
        _ => None,
    }
}

/// The share payload that an object spells: its members `author`, `source`,
/// `thumb` and `title`, and `headline`, `url` and `bvid` where it has them.
pub open spec fn share_from(members: Seq<MemberView>) -> Option<ShareMessageView> {
    match (
        text_field(members, "author"@),
        optional_text_field(members, "headline"@),
        number_field(members, "source"@, 0xff),
        text_field(members, "thumb"@),
        text_field(members, "title"@),
        optional_text_field(members, "url"@),
        optional_text_field(members, "bvid"@),
    ) {
        (
            Some(author),
            Some(headline),
            Some(source),
            Some(thumb),
            Some(title),
            Some(url),
            Some(bvid),
        ) => Some(
            ShareMessageView { author, headline, source: source as u8, thumb, title, url, bvid },
        ),
        _ => None,
    }
}

/// The payload of the given kind that an object spells, or `None` where a
/// member is missing or holds a value of another type.  An unrecognized
/// message reads no member.
pub open spec fn payload_from(kind: PayloadKind, members: Seq<MemberView>) -> Option<PayloadView> {
    match kind {
        PayloadKind::PlainText => match text_from(members) {
            Some(t) => Some(PayloadView::PlainText(t)),
            None => None,
        },
        PayloadKind::Image => match image_from(members) {
            Some(i) => Some(PayloadView::Image(i)),
            None => None,
        },
        PayloadKind::Share => match share_from(members) {
            Some(s) => Some(PayloadView::Share(s)),
            None => None,
        },
        PayloadKind::Unrecognized => Some(PayloadView::Unrecognized),
    }
}

/// The payload of a message of type `msg_type` with the given content.  The
/// content of an unrecognized message is not read at all; any other content
/// must be a JSON object that spells a payload of the selected kind.
pub open spec fn decoded(msg_type: u8, content: Seq<char>) -> Result<PayloadView, FormatError> {
    let kind = kind_of(msg_type);
    if kind == PayloadKind::Unrecognized {
        Ok(PayloadView::Unrecognized)
    } else {
        match json_object(content) {
            Some(members) => match payload_from(kind, members) {
                Some(payload) => Ok(payload),
                None => Err(FormatError::Malformed(kind)),
            },
            None => Err(FormatError::Malformed(kind)),
        }
    }
}

/// The display text of a payload.  A share of the unsupported kind has none.
pub open spec fn display_text(payload: PayloadView) -> Result<Seq<char>, FormatError> {
    match payload {
        PayloadView::PlainText(t) => Ok(t.text()),
        PayloadView::Image(i) => Ok(i.text()),
        PayloadView::Share(s) => if s.supported() {
            Ok(s.text())
        } else {
            Err(FormatError::UnsupportedShare)
        },
        PayloadView::Unrecognized => Ok("[其他消息]"@),
    }
}

/// The display text of a message of type `msg_type` with the given content.
pub open spec fn formatted(msg_type: u8, content: Seq<char>) -> Result<Seq<char>, FormatError> {
    match decoded(msg_type, content) {
        Ok(payload) => display_text(payload),
        Err(e) => Err(e),
    }
}

/// The view of the outcome of formatting.
pub open spec fn outcome_view(r: Result<String, FormatError>) -> Result<Seq<char>, FormatError> {
    match r {
        Ok(text) => Ok(text@),
        Err(e) => Err(e),
    }
}

/// The view of the outcome of decoding.
pub open spec fn payload_view(r: Result<PayloadVariant, FormatError>) -> Result<
    PayloadView,
    FormatError,
> {
    match r {
        Ok(payload) => Ok(payload@),
        Err(e) => Err(e),
    }
}

/// Reads the member `key` as a string.
fn read_text(members: &Vec<Member>, key: &str) -> (r: Option<String>)
    ensures
        text_view(r) == text_field(members_view(members@), key@),
{
    match find_field(members, key) {
        Some(Scalar::Text(t)) => Some(t.clone()),
        _ => None,
    }
}

/// Reads the member `key` as a string that may be left out.
fn read_optional_text(members: &Vec<Member>, key: &str) -> (r: Option<Option<String>>)
    ensures
        match r {
            Some(inner) => optional_text_field(members_view(members@), key@) == Some(
                text_view(inner),
            ),
            None => optional_text_field(members_view(members@), key@) is None,
        },
{
    match find_field(members, key) {
        None => Some(None),
        Some(Scalar::Null) => Some(None),
        Some(Scalar::Text(t)) => Some(Some(t.clone())),
        _ => None,
    }
}

/// Reads the member `key` as a non-negative integer of at most `max`.
fn read_number(members: &Vec<Member>, key: &str, max: u64) -> (r: Option<u64>)
    ensures
        r == number_field(members_view(members@), key@, max),
{
    match find_field(members, key) {
        Some(Scalar::Unsigned(n)) => if *n <= max {
            Some(*n)
        } else {
            None
        },
        _ => None,
    }
}

/// Reads the members of a text payload.
fn read_text_message(members: &Vec<Member>) -> (r: Option<TextMessage>)
    ensures
        match r {
            Some(t) => text_from(members_view(members@)) == Some(t@),
            None => text_from(members_view(members@)) is None,
        },
{
    match read_text(members, "content") {
        Some(content) => Some(TextMessage { content }),
        None => None,
    }
}

/// Reads the members of an image payload.
fn read_image_message(members: &Vec<Member>) -> (r: Option<ImageMessage>)
    ensures
        match r {
            Some(i) => image_from(members_view(members@)) == Some(i@),
            None => image_from(members_view(members@)) is None,
        },
{
    let original = read_number(members, "original", 0xff);
    let url = read_text(members, "url");
    let image_type = read_text(members, "imageType");
    let height = read_number(members, "height", 0xffff_ffff);
    let width = read_number(members, "width", 0xffff_ffff);
    match (original, url, image_type, height, width) {
        (Some(original), Some(url), Some(image_type), Some(height), Some(width)) => Some(
            ImageMessage {
                original: original as u8,
                url,
                image_type,
                height: height as u32,
                width: width as u32,
            },
        ),
        _ => None,
    }
}

/// Reads the members of a share payload.
fn read_share_message(members: &Vec<Member>) -> (r: Option<ShareMessage>)
    ensures
        match r {
            Some(s) => share_from(members_view(members@)) == Some(s@),
            None => share_from(members_view(members@)) is None,
        },
{
    let author = read_text(members, "author");
    let headline = read_optional_text(members, "headline");
    let source = read_number(members, "source", 0xff);
    let thumb = read_text(members, "thumb");
    let title = read_text(members, "title");
    let url = read_optional_text(members, "url");
    let bvid = read_optional_text(members, "bvid");
    match (author, headline, source, thumb, title, url, bvid) {
        (
            Some(author),
            Some(headline),
            Some(source),
            Some(thumb),
            Some(title),
            Some(url),
            Some(bvid),
        ) => Some(
            ShareMessage { author, headline, source: source as u8, thumb, title, url, bvid },
        ),
        _ => None,
    }
}

impl PayloadVariant {
    /// Builds the payload of the given kind from the members of the object
    /// that the content of a message spells.
    pub fn from_members(kind: PayloadKind, members: &Vec<Member>) -> (r: Option<PayloadVariant>)
        ensures
            match r {
                Some(payload) => payload_from(kind, members_view(members@)) == Some(payload@),
                None => payload_from(kind, members_view(members@)) is None,
            },
    {
        match kind {
            PayloadKind::PlainText => match read_text_message(members) {
                Some(t) => Some(PayloadVariant::PlainText(t)),
                None => None,
            },
            PayloadKind::Image => match read_image_message(members) {
                Some(i) => Some(PayloadVariant::Image(i)),
                None => None,
            },
            PayloadKind::Share => match read_share_message(members) {
                Some(s) => Some(PayloadVariant::Share(s)),
                None => None,
            },
            PayloadKind::Unrecognized => Some(PayloadVariant::Unrecognized),
        }
    }

    /// Decodes the content of a message of type `msg_type`.
    pub fn decode(msg_type: u8, content: &str) -> (r: Result<PayloadVariant, FormatError>)
        ensures
            payload_view(r) == decoded(msg_type, content@),
    {
        let kind = PayloadKind::of(msg_type);
        if kind == PayloadKind::Unrecognized {
            return Ok(PayloadVariant::Unrecognized);
        }
        match parse_object(content) {
            Ok(members) => match PayloadVariant::from_members(kind, &members) {
                Some(payload) => Ok(payload),
                None => Err(FormatError::Malformed(kind)),
            },
            Err(_) => Err(FormatError::Malformed(kind)),
        }
    }

    /// Renders the payload as display text.
    pub fn render(&self) -> (r: Result<String, FormatError>)
        ensures
            outcome_view(r) == display_text(self@),
    {
        match self {
            PayloadVariant::PlainText(t) => Ok(t.to_string()),
            PayloadVariant::Image(i) => Ok(i.to_string()),
            PayloadVariant::Share(s) => if s.is_supported() {
                Ok(s.to_string())
            } else {
                Err(FormatError::UnsupportedShare)
            },
            PayloadVariant::Unrecognized => Ok(String::from_str("[其他消息]")),
        }
    }
}

/// A message of an unrecognized type always has a display text, whatever its
/// content: the fixed placeholder.
pub proof fn lemma_unrecognized_always_formats(msg_type: u8, content: Seq<char>)
    requires
        kind_of(msg_type) == PayloadKind::Unrecognized,
    ensures
        formatted(msg_type, content) == Ok::<Seq<char>, FormatError>("[其他消息]"@),
{
}

/// Rendering is repeatable: two renderings of one payload, each as
/// [`PayloadVariant::render`] returns it, are the same text or the same error.
pub proof fn lemma_render_repeatable(
    payload: PayloadVariant,
    first: Result<String, FormatError>,
    second: Result<String, FormatError>,
)
    requires
        outcome_view(first) == display_text(payload@),
        outcome_view(second) == display_text(payload@),
    ensures
        outcome_view(first) == outcome_view(second),
{
}

/// Formatting is repeatable: two formattings of one message, each as
/// [`format_message`] returns it, are the same text or the same error.
pub proof fn lemma_format_repeatable(
    message: Message,
    first: Result<String, FormatError>,
    second: Result<String, FormatError>,
)
    requires
        outcome_view(first) == formatted(message.msg_type, message.content@),
        outcome_view(second) == formatted(message.msg_type, message.content@),
    ensures
        outcome_view(first) == outcome_view(second),
{
}

/// Renders the content of a message as display text.
///
/// A message of an unrecognized type always has a text, a fixed placeholder.
/// A message of a recognized type has one where its content decodes to a
/// payload of that type, and that payload is not an unsupported share.
pub fn format_message(message: &Message) -> (r: Result<String, FormatError>)
    ensures
        outcome_view(r) == formatted(message.msg_type, message.content@),
{
    match PayloadVariant::decode(message.msg_type, message.content.as_str()) {
        Ok(payload) => payload.render(),
        Err(e) => Err(e),
    }
}

} // verus!
