//! Who spoke: naming the two parties of a conversation from a viewpoint.

use crate::models::message::{Message, ViewerKind};
use vstd::prelude::*;

verus! {

/// The name of the speaker of `message` in a conversation with `talker_uid`,
/// who goes by `nickname`.
///
/// Read from the first person, a message is the peer's where the peer sent
/// it.  Read from the third person, it is the peer's where the peer received
/// it.  Every other message is "mine".
pub open spec fn speaker_name(
    viewer: ViewerKind,
    message: Message,
    nickname: Seq<char>,
    talker_uid: u64,
) -> Seq<char> {
    match viewer {
        ViewerKind::FirstPerson => if message.sender_uid == talker_uid {
            nickname
        } else {
            "我"@
        },
        ViewerKind::ThirdPerson => if message.receiver_id == talker_uid {
            nickname
        } else {
            "我"@
        },
    }
}

/// Resolves the display name of the speaker of `message`.
pub fn person_nickname<'a>(
    viewer: ViewerKind,
    message: &'a Message,
    nickname: &'a str,
    talker_uid: u64,
) -> (name: &'a str)
    ensures
        name@ == speaker_name(viewer, *message, nickname@, talker_uid),
{
    match viewer {
        ViewerKind::FirstPerson => {
            if message.sender_uid == talker_uid {
                return nickname;
            }
            "我"
        },
        ViewerKind::ThirdPerson => {
            if message.receiver_id == talker_uid {
                return nickname;
            }
            "我"
        },
    }
}

/// Both viewpoints name the peer where the peer stands on the side they look
/// at, and both say "me" of a message that the peer neither sent nor
/// received.
pub proof fn lemma_perspective(message: Message, nickname: Seq<char>, talker_uid: u64)
    ensures
        message.sender_uid == talker_uid ==> speaker_name(
            ViewerKind::FirstPerson,
            message,
            nickname,
            talker_uid,
        ) == nickname,
        message.receiver_id == talker_uid ==> speaker_name(
            ViewerKind::ThirdPerson,
            message,
            nickname,
            talker_uid,
        ) == nickname,
        message.sender_uid != talker_uid && message.receiver_id != talker_uid ==> speaker_name(
            ViewerKind::FirstPerson,
            message,
            nickname,
            talker_uid,
        ) == "我"@ && speaker_name(ViewerKind::ThirdPerson, message, nickname, talker_uid) == "我"@,
{
}

} // verus!
