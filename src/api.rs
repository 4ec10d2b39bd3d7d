use tokio::sync::mpsc::UnboundedReceiver;
use vstd::prelude::*;

use crate::error::{get_error, taken, LogState, WhatsmeowError};
use crate::events::Event;
use crate::jid::{jid_text, Jid};
use crate::registry::{registered, unchanged, Registry};
use crate::types::{ConnId, GoInt, MsgId, FAILURE};

verus! {

/// The state of a connection, as the engine reports it.
#[derive(Debug, Clone, Copy, PartialEq, Eq, Hash, Structural)]
pub enum AccountState {
    Uninitialized,
    Connecting,
    Connected,
    Disconnected,
    Outdated,
}

/// The state a raw engine code stands for; an unknown code means the
/// connection is not set up.
pub open spec fn state_of_code(code: int) -> AccountState {
    if code == 1 {
        AccountState::Connecting
    } else if code == 2 {
        AccountState::Connected
    } else if code == 3 {
        AccountState::Disconnected
    } else if code == 4 {
        AccountState::Outdated
    } else {
        AccountState::Uninitialized
    }
}

impl AccountState {
    /// Decodes the engine's answer to a state query.
    pub fn from_code(code: GoInt) -> (r: AccountState)
        ensures
            r == state_of_code(code as int),
    {
        if code == 1 {
            AccountState::Connecting
        } else if code == 2 {
            AccountState::Connected
        } else if code == 3 {
            AccountState::Disconnected
        } else if code == 4 {
            AccountState::Outdated
        } else {
            AccountState::Uninitialized
        }
    }
}

/// The kind of a file attached to an outgoing message.
#[derive(Debug, Clone, Copy, PartialEq, Eq, Hash, Structural)]
pub enum FileType {
    Audio,
    Video,
    Image,
    Document,
}

/// The name the engine knows each file type by.
pub open spec fn file_type_text(t: FileType) -> Seq<char> {
    match t {
        FileType::Audio => seq!['a', 'u', 'd', 'i', 'o'],
        FileType::Video => seq!['v', 'i', 'd', 'e', 'o'],
        FileType::Image => seq!['i', 'm', 'a', 'g', 'e'],
        FileType::Document => seq!['d', 'o', 'c', 'u', 'm', 'e', 'n', 't'],
    }
}

impl FileType {
    pub fn as_str(self) -> (r: &'static str)
        ensures
            r@ == file_type_text(self),
    {
        match self {
            FileType::Audio => {
                proof { reveal_strlit("audio"); }
                "audio"
            },
            FileType::Video => {
                proof { reveal_strlit("video"); }
                "video"
            },
            FileType::Image => {
                proof { reveal_strlit("image"); }
                "image"
            },
            FileType::Document => {
                proof { reveal_strlit("document"); }
                "document"
            },
        }
    }
}

/// The message that an outgoing message replies to.
pub struct QuotedMessage {
    pub sender: Jid,
    pub contents: String,
    pub message_id: MsgId,
}

/// The text arguments of the engine's send call. Absent optional parts are
/// empty text; a message that edits no other has edit time 0.
pub struct OutgoingMessage {
    pub chat_id: String,
    pub text: String,
    pub quoted_id: String,
    pub quoted_text: String,
    pub quoted_sender: String,
    pub file_path: String,
    pub file_type: String,
    pub edit_msg_id: String,
    pub edit_msg_sent: GoInt,
}

impl OutgoingMessage {
    /// The arguments that send (or, with `edit_msg`, edit) a message with
    /// text `contents` in `chat_id`, replying to `reply_to` and carrying the
    /// file at the given path if those are given.
    pub fn new(
        chat_id: &Jid,
        contents: &str,
        reply_to: Option<&QuotedMessage>,
        file: Option<(String, FileType)>,
        edit_msg: Option<(&MsgId, isize)>,
    ) -> (r: OutgoingMessage)
        ensures
            r.chat_id@ == jid_text(chat_id@.0, chat_id@.1),
            r.text@ == contents@,
            match reply_to {
                Some(q) => r.quoted_id@ == q.message_id@ && r.quoted_text@ == q.contents@
                    && r.quoted_sender@ == jid_text(q.sender@.0, q.sender@.1),
                None => r.quoted_id@.len() == 0 && r.quoted_text@.len() == 0 && r.quoted_sender@.len() == 0,
            },
            match file {
                Some((path, kind)) => r.file_path@ == path@ && r.file_type@ == file_type_text(kind),
                None => r.file_path@.len() == 0 && r.file_type@.len() == 0,
            },
            match edit_msg {
                Some((id, sent)) => r.edit_msg_id@ == id@ && r.edit_msg_sent as int == sent as int,
                None => r.edit_msg_id@.len() == 0 && r.edit_msg_sent == 0,
            },
    {
        let (quoted_id, quoted_text, quoted_sender) = match reply_to {
            Some(q) => (q.message_id.0.clone(), q.contents.clone(), q.sender.to_id()),
            None => (String::new(), String::new(), String::new()),
        };
        let (file_path, file_type) = match file {
            Some((path, kind)) => (path, String::from_str(kind.as_str())),
            None => (String::new(), String::new()),
        };
        let (edit_msg_id, edit_msg_sent) = match edit_msg {
            Some((id, sent)) => (id.0.clone(), sent as GoInt),
            None => (String::new(), 0),
        };
        OutgoingMessage {
            chat_id: chat_id.to_id(),
            text: String::from_str(contents),
            quoted_id,
            quoted_text,
            quoted_sender,
            file_path,
            file_type,
            edit_msg_id,
            edit_msg_sent,
        }
    }
}

/// Finishes opening a connection once the engine's connect call returned
/// `init_result`. On success the connection is registered with a fresh
/// channel whose receiving half is returned; on the failure value the most
/// recent logged record explains it (see [`get_error`]).
pub fn create_connection(
    registry: &mut Registry,
    log: &mut LogState,
    poisoned: bool,
    init_result: GoInt,
) -> (r: Result<(ConnId, UnboundedReceiver<Event>), WhatsmeowError>)
    ensures
        init_result == FAILURE ==> (r matches Err(e) && e == taken(old(log).warnings@, poisoned).0
            && final(log).warnings@ == taken(old(log).warnings@, poisoned).1
            && unchanged(old(registry), final(registry))),
        init_result != FAILURE ==> (r matches Ok((id, _)) && id@ == init_result as isize
            && registered(old(registry), final(registry), id@)
            && final(log).warnings@ == old(log).warnings@),
{
    match registry.accept_connection(init_result) {
        Ok(pair) => Ok(pair),
        Err(()) => Err(get_error(log, poisoned)),
    }
}

/// The configuration value of `param`. No configuration is kept yet: every
/// parameter reads as 0.
pub fn app_config_get_num(param: &str) -> (r: i32)
    ensures
        r == 0,
{
    0
}

} // verus!
