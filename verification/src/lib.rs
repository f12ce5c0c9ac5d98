//! Retrieval of a direct-message history through a reverse-chronological,
//! cursor-paginated endpoint, and its assembly into a chronological transcript.
//!
//! The library decides and renders; it performs no request itself.  A caller
//! starts a [`session::Session`], performs the fetch that each
//! [`session::Action`] asks for, and hands the answer back.

use vstd::prelude::*;

pub mod api;
pub mod clock;
pub mod engine;
pub mod identity;
pub mod json;
pub mod models;
pub mod payload;
pub mod run;
pub mod session;
pub mod text;
pub mod transcript;

pub use identity::person_nickname;
pub use payload::format_message;

use models::message::ViewerKind;

verus! {

/// What a run needs to know.
#[derive(Debug)]
pub struct Config {
    /// The session credential of the account that reads its history.
    pub cookie: String,
    /// The peer of the conversation.
    pub talker_uid: u64,
    /// How many messages to ask for per page.
    pub size: u32,
    /// Whose inbox is being read.
    pub viewer_kind: ViewerKind,
    /// The name under which the peer appears in the transcript.
    pub talker_nickname: String,
    /// The directory that receives the transcript.
    pub save_path: String,
}

impl Default for Config {
    fn default() -> (config: Config)
        ensures
            config.cookie@.len() == 0,
            config.talker_uid == 0,
            config.size == 0,
            config.viewer_kind == ViewerKind::FirstPerson,
            config.talker_nickname@.len() == 0,
            config.save_path@.len() == 0,
    {
        Config {
            cookie: String::new(),
            talker_uid: 0,
            size: 0,
            viewer_kind: ViewerKind::FirstPerson,
            talker_nickname: String::new(),
            save_path: String::new(),
        }
    }
}

} // verus!
