//! Message envelopes and the payload variants they carry.

use crate::clock::{civil_text, format_instant};
use vstd::prelude::*;
use vstd::std_specs::convert::FromSpecImpl;
use vstd::string::*;

verus! {

/// One message of a conversation, as the service hands it out.
#[derive(Debug, PartialEq, Eq)]
pub struct Message {
    /// The account that wrote the message.
    pub sender_uid: u64,
    /// The peer or group the message went to.
    pub receiver_id: u64,
    pub receiver_type: u8,
    /// Selects how `content` is to be read.
    pub msg_type: u8,
    /// Position of the message in the conversation.
    pub msg_seqno: u64,
    /// The encoded payload.
    pub content: String,
    /// Seconds since the Unix epoch.
    pub timestamp: u64,
}

/// The view of an optional text.
pub open spec fn text_view(text: Option<String>) -> Option<Seq<char>> {
    match text {
        Some(t) => Some(t@),
        None => None,
    }
}

impl Message {
    /// The date and time of the message on a clock that runs `utc_offset`
    /// seconds ahead of UTC; `None` where the timestamp lies beyond what the
    /// calendar can hold.
    pub open spec fn stamp(self, utc_offset: int) -> Option<Seq<char>> {
        if self.timestamp <= i64::MAX {
            civil_text(self.timestamp as int, utc_offset)
        } else {
            None
        }
    }

    /// Renders the timestamp as `YYYY-MM-DD HH:MM:SS` in the zone that lies
    /// `utc_offset` seconds east of UTC.
    pub fn datetime(&self, utc_offset: i32) -> (r: Option<String>)
        ensures
            text_view(r) == self.stamp(utc_offset as int),
    {
        if self.timestamp <= 0x7fff_ffff_ffff_ffff {
            format_instant(self.timestamp as i64, utc_offset)
        } else {
            None
        }
    }
}

impl Clone for Message {
    fn clone(&self) -> (r: Self)
        ensures
            r == *self,
    {
        Message {
            sender_uid: self.sender_uid,
            receiver_id: self.receiver_id,
            receiver_type: self.receiver_type,
            msg_type: self.msg_type,
            msg_seqno: self.msg_seqno,
            content: self.content.clone(),
            timestamp: self.timestamp,
        }
    }
}

/// Whose inbox is being read.
#[derive(Debug, Clone, Copy, PartialEq, Eq, Structural)]
pub enum ViewerKind {
    /// The account that fetches the history.
    FirstPerson,
    /// An observer who reads along from the peer's side.
    ThirdPerson,
}

impl Default for ViewerKind {
    fn default() -> (viewer: ViewerKind)
        ensures
            viewer == ViewerKind::FirstPerson,
    {
        ViewerKind::FirstPerson
    }
}

impl ViewerKind {
    /// The viewpoint a numeric selector stands for: `1` is the third person,
    /// every other value the first.
    pub fn from_selector(selector: u8) -> (viewer: ViewerKind)
        ensures
            viewer == if selector == 1 {
                ViewerKind::ThirdPerson
            } else {
                ViewerKind::FirstPerson
            },
    {
        if selector == 1 {
            ViewerKind::ThirdPerson
        } else {
            ViewerKind::FirstPerson
        }
    }
}

/// A text payload.
#[derive(Debug, PartialEq, Eq)]
pub struct TextMessage {
    pub content: String,
}

/// The mathematical value of a [`TextMessage`].
pub struct TextMessageView {
    pub content: Seq<char>,
}

impl View for TextMessage {
    type V = TextMessageView;

    open spec fn view(&self) -> TextMessageView {
        TextMessageView { content: self.content@ }
    }
}

impl TextMessageView {
    /// A text payload reads as its literal text.
    pub open spec fn text(self) -> Seq<char> {
        self.content
    }
}

impl TextMessage {
    /// The display text of the payload.
    pub fn to_string(&self) -> (s: String)
        ensures
            s@ == self@.text(),
    {
        self.content.clone()
    }
}

impl From<TextMessage> for String {
    fn from(value: TextMessage) -> (s: String)
        ensures
            s@ == value@.text(),
    {
        value.content
    }
}

impl FromSpecImpl<TextMessage> for String {
    open spec fn obeys_from_spec() -> bool {
        true
    }

    open spec fn from_spec(value: TextMessage) -> String {
        value.content
    }
}

/// An image payload.
#[derive(Debug, PartialEq, Eq)]
pub struct ImageMessage {
    /// `1` where the image is the original asset, any other value where it
    /// was transcoded.
    pub original: u8,
    /// Where the image lies.
    pub url: String,
    pub image_type: String,
    pub height: u32,
    pub width: u32,
}

/// The mathematical value of a [`ImageMessage`].
pub struct ImageMessageView {
    pub original: u8,
    pub url: Seq<char>,
    pub image_type: Seq<char>,
    pub height: u32,
    pub width: u32,
}

impl View for ImageMessage {
    type V = ImageMessageView;

    open spec fn view(&self) -> ImageMessageView {
        ImageMessageView {
            original: self.original,
            url: self.url@,
            image_type: self.image_type@,
            height: self.height,
            width: self.width,
        }
    }
}

impl ImageMessageView {
    /// An image reads as a marker that tells an original from a transcoded
    /// asset, a space, and the address of the image.
    pub open spec fn text(self) -> Seq<char> {
        if self.original == 1 {
            "[图片][原图] "@ + self.url
        } else {
            "[图片][非原图] "@ + self.url
        }
    }
}

impl ImageMessage {
    /// The display text of the payload.
    pub fn to_string(&self) -> (s: String)
        ensures
            s@ == self@.text(),
    {
        let mut s = if self.original == 1 {
            String::from_str("[图片][原图] ")
        } else {
            String::from_str("[图片][非原图] ")
        };
        s.append(self.url.as_str());
        s
    }
}

impl From<ImageMessage> for String {
    fn from(value: ImageMessage) -> (s: String)
        ensures
            s@ == value@.text(),
    {
        value.to_string()
    }
}

/// The conversion builds a new text, which no spec function can hand out as
/// a `String`; what it returns is stated by the `ensures` of `from`.
impl FromSpecImpl<ImageMessage> for String {
    open spec fn obeys_from_spec() -> bool {
        false
    }

    open spec fn from_spec(value: ImageMessage) -> String {
        arbitrary()
    }
}

/// The source type of a share that cannot be rendered yet.
pub const UNSUPPORTED_SHARE_SOURCE: u8 = 5;

/// A shared piece of content.
#[derive(Debug, PartialEq, Eq)]
pub struct ShareMessage {
    pub author: String,
    pub headline: Option<String>,
    /// The kind of content that was shared.
    pub source: u8,
    pub thumb: String,
    pub title: String,
    pub url: Option<String>,
    /// The content code, where the source has one.
    pub bvid: Option<String>,
}

/// The mathematical value of a [`ShareMessage`].
pub struct ShareMessageView {
    pub author: Seq<char>,
    pub headline: Option<Seq<char>>,
    pub source: u8,
    pub thumb: Seq<char>,
    pub title: Seq<char>,
    pub url: Option<Seq<char>>,
    pub bvid: Option<Seq<char>>,
}

impl View for ShareMessage {
    type V = ShareMessageView;

    open spec fn view(&self) -> ShareMessageView {
        ShareMessageView {
            author: self.author@,
            headline: text_view(self.headline),
            source: self.source,
            thumb: self.thumb@,
            title: self.title@,
            url: text_view(self.url),
            bvid: text_view(self.bvid),
        }
    }
}

impl ShareMessageView {
    /// Whether the share is of a kind that has a rendering.
    pub open spec fn supported(self) -> bool {
        self.source != UNSUPPORTED_SHARE_SOURCE
    }

    /// A share reads as its title in brackets, followed by its content code
    /// or, where it has none, by a fixed marker.
    pub open spec fn text(self) -> Seq<char> {
        "【"@ + self.title + "】"@ + match self.bvid {
            Some(code) => code,
            None => "无番号"@,
        }
    }
}

impl ShareMessage {
    /// Whether the share is of a kind that has a rendering.
    pub fn is_supported(&self) -> (b: bool)
        ensures
            b == self@.supported(),
    {
        self.source != UNSUPPORTED_SHARE_SOURCE
    }

    /// The display text of the payload.
    pub fn to_string(&self) -> (s: String)
        requires
            self@.supported(),
        ensures
            s@ == self@.text(),
    {
        let mut s = String::from_str("【");
        s.append(self.title.as_str());
        s.append("】");
        match &self.bvid {
            Some(code) => s.append(code.as_str()),
            None => s.append("无番号"),
        }
        s
    }
}

} // verus!
