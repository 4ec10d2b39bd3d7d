use vstd::prelude::*;

use crate::jid::{parse_jid, Jid};
use crate::types::{status_of_code, DownloadFileAction, DownloadFileStatus, MsgId, StatusFlags};

verus! {

/// An event that concerns one chat.
#[derive(Debug, Clone, PartialEq, Eq)]
pub enum ChatEvent {
    NewContactsNotify {
        name: String,
        phone: String,
        is_self: bool,
        is_group: bool,
        notify: isize,
    },
    NewChatsNotify {
        is_unread: bool,
        is_muted: bool,
        is_pinned: bool,
        last_message_time: isize,
    },
    NewMessagesNotify {
        msg_id: MsgId,
        sender_id: Jid,
        text: String,
        from_me: bool,
        quoted_id: Option<MsgId>,
        file_id_path: Option<(String, String)>,
        file_status: DownloadFileStatus,
        time_sent: isize,
        is_read: bool,
        is_edited: bool,
    },
    NewTypingNotify {
        user_id: String,
        is_typing: bool,
    },
    NewMessageStatusNotify {
        msg_id: MsgId,
        is_read: bool,
    },
    /// A file attachment that the user asked for has been downloaded.
    NewMessageFileNotify {
        msg_id: MsgId,
        file_path: String,
        file_status: DownloadFileStatus,
        action: DownloadFileAction,
    },
    NewMessageReactionNotify {
        msg_id: MsgId,
        sender_id: Jid,
        emoji: String,
        from_me: bool,
    },
    DeleteChatNotify,
    DeleteMessageNotify(MsgId),
    UpdateIsMuted(bool),
    UpdatePinNotify {
        is_pinned: bool,
        time_pinned: isize,
    },
}

/// Everything the engine reports about a connection.
#[derive(Debug, Clone, PartialEq, Eq)]
pub enum Event {
    ChatEvent(Jid, ChatEvent),
    NewStatusNotify {
        user_id: String,
        is_online: bool,
        time_seen: isize,
    },
    Reinit,
    /// Scan this QR code with the phone ("Linked devices", then "Link a
    /// device") to authenticate.
    QrCode(String),
    /// Enter this code on the phone, in the notification "Enter code to
    /// link new device", to authenticate.
    PairingCode(String),
    /// The engine is about to take over (or hand back) the terminal.
    SetProtocolUiControl {
        is_take_control: bool,
    },
    SetStatus(StatusFlags),
    ClearStatus(StatusFlags),
}

/// A quoted message id as the engine reports it; empty text quotes nothing.
pub open spec fn quoted_of(quoted_id: String) -> Option<MsgId> {
    if quoted_id@.len() == 0 {
        None
    } else {
        Some(MsgId(quoted_id))
    }
}

/// A file attachment as the engine reports it; an empty file id means the
/// message has none.
pub open spec fn attachment_of(file_id: String, file_path: String) -> Option<(String, String)> {
    if file_id@.len() == 0 {
        None
    } else {
        Some((file_id, file_path))
    }
}

/// The engine's integer flags read as booleans: zero is false.
pub open spec fn flag(v: i32) -> bool {
    v != 0
}

impl Event {
    /// `event` tagged with the chat that `chat_id` names; `None` when the
    /// text names no chat.
    pub fn in_chat(chat_id: &str, event: ChatEvent) -> (r: Option<Event>)
        ensures
            match parse_jid(chat_id@) {
                Some(chat) => exists|j: Jid| j@ == chat && r == Some(Event::ChatEvent(j, event)),
                None => r is None,
            },
    {
        match Jid::parse(chat_id) {
            Some(j) => Some(Event::ChatEvent(j, event)),
            None => None,
        }
    }
}

impl ChatEvent {
    /// A new message as the engine reports it: empty quote and file ids
    /// stand for none, and an unknown file status code for no status.
    /// `None` when the sender id does not parse.
    pub fn new_message(
        msg_id: String,
        sender_id: &str,
        text: String,
        from_me: i32,
        quoted_id: String,
        file_id: String,
        file_path: String,
        file_status: i32,
        time_sent: i32,
        is_read: i32,
        is_edited: i32,
    ) -> (r: Option<ChatEvent>)
        ensures
            match parse_jid(sender_id@) {
                Some(sender) => exists|s: Jid|
                    s@ == sender && r == Some(
                        ChatEvent::NewMessagesNotify {
                            msg_id: MsgId(msg_id),
                            sender_id: s,
                            text,
                            from_me: flag(from_me),
                            quoted_id: quoted_of(quoted_id),
                            file_id_path: attachment_of(file_id, file_path),
                            file_status: status_of_code(file_status as int),
                            time_sent: time_sent as isize,
                            is_read: flag(is_read),
                            is_edited: flag(is_edited),
                        },
                    ),
                None => r is None,
            },
    {
        let sender = match Jid::parse(sender_id) {
            Some(s) => s,
            None => return None,
        };
        let quoted = if quoted_id.as_str().is_empty() {
            None
        } else {
            Some(MsgId(quoted_id))
        };
        let attachment = if file_id.as_str().is_empty() {
            None
        } else {
            Some((file_id, file_path))
        };
        Some(
            ChatEvent::NewMessagesNotify {
                msg_id: MsgId(msg_id),
                sender_id: sender,
                text,
                from_me: from_me != 0,
                quoted_id: quoted,
                file_id_path: attachment,
                file_status: DownloadFileStatus::from_raw(file_status),
                time_sent: time_sent as isize,
                is_read: is_read != 0,
                is_edited: is_edited != 0,
            },
        )
    }

    /// A reaction as the engine reports it; `None` when the sender id does
    /// not parse.
    pub fn new_reaction(msg_id: String, sender_id: &str, emoji: String, from_me: i32) -> (r: Option<ChatEvent>)
        ensures
            match parse_jid(sender_id@) {
                Some(sender) => exists|s: Jid|
                    s@ == sender && r == Some(
                        ChatEvent::NewMessageReactionNotify {
                            msg_id: MsgId(msg_id),
                            sender_id: s,
                            emoji,
                            from_me: flag(from_me),
                        },
                    ),
                None => r is None,
            },
    {
        match Jid::parse(sender_id) {
            Some(sender) => Some(
                ChatEvent::NewMessageReactionNotify {
                    msg_id: MsgId(msg_id),
                    sender_id: sender,
                    emoji,
                    from_me: from_me != 0,
                },
            ),
            None => None,
        }
    }
}

} // verus!
