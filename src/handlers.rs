use vstd::prelude::*;

use crate::events::{attachment_of, flag, quoted_of, ChatEvent, Event};
use crate::jid::{parse_jid, Jid};
use crate::registry::{chat_dispatched, dispatched, unchanged, Delivery, Registry};
use crate::types::{
    action_of_code, status_of_code, DownloadFileAction, DownloadFileStatus, MsgId, StatusFlags,
};

verus! {

/// The connection that authentication artifacts are reported on: the
/// engine gives no connection id with them.
pub const AUTH_CONNECTION: i32 = 0;

/// Each method below takes the arguments of one engine callback, once its
/// foreign strings have been copied out, builds the event it stands for and
/// hands it to the channel of the connection. A chat or sender id that does
/// not parse drops the event.
impl Registry {
    pub fn new_contacts_notify(
        &mut self,
        conn_id: i32,
        chat_id: &str,
        name: String,
        phone: String,
        is_self: i32,
        is_group: i32,
        notify: i32,
    ) -> (r: Delivery)
        ensures
            chat_dispatched(
                old(self),
                final(self),
                conn_id as isize,
                chat_id@,
                (ChatEvent::NewContactsNotify {
                    name,
                    phone,
                    is_self: flag(is_self),
                    is_group: flag(is_group),
                    notify: notify as isize,
                }),
                r,
            ),
    {
        self.sendc(
            conn_id,
            chat_id,
            ChatEvent::NewContactsNotify {
                name,
                phone,
                is_self: is_self != 0,
                is_group: is_group != 0,
                notify: notify as isize,
            },
        )
    }

    pub fn new_chats_notify(
        &mut self,
        conn_id: i32,
        chat_id: &str,
        is_unread: i32,
        is_muted: i32,
        is_pinned: i32,
        last_message_time: i32,
    ) -> (r: Delivery)
        ensures
            chat_dispatched(
                old(self),
                final(self),
                conn_id as isize,
                chat_id@,
                (ChatEvent::NewChatsNotify {
                    is_unread: flag(is_unread),
                    is_muted: flag(is_muted),
                    is_pinned: flag(is_pinned),
                    last_message_time: last_message_time as isize,
                }),
                r,
            ),
    {
        self.sendc(
            conn_id,
            chat_id,
            ChatEvent::NewChatsNotify {
                is_unread: is_unread != 0,
                is_muted: is_muted != 0,
                is_pinned: is_pinned != 0,
                last_message_time: last_message_time as isize,
            },
        )
    }

    pub fn new_messages_notify(
        &mut self,
        conn_id: i32,
        chat_id: &str,
        msg_id: String,
        sender_id: &str,
        text: String,
        from_me: i32,
        quoted_id: String,
        file_id: String,
        file_path: String,
        file_status: i32,
        time_sent: i32,
        is_read: i32,
        is_edited: i32,
    ) -> (r: Delivery)
        ensures
            match parse_jid(sender_id@) {
                Some(sender) => exists|s: Jid|
                    s@ == sender && chat_dispatched(
                        old(self),
                        final(self),
                        conn_id as isize,
                        chat_id@,
                        (ChatEvent::NewMessagesNotify {
                            msg_id: MsgId(msg_id),
                            sender_id: s,
                            text,
                            from_me: flag(from_me),
                            quoted_id: quoted_of(quoted_id),
                            file_id_path: attachment_of(file_id, file_path),
                            file_status: status_of_code(file_status as int),
                            time_sent: time_sent as isize,
                            is_read: flag(is_read),
                            is_edited: flag(is_edited),
                        }),
                        r,
                    ),
                None => r is BadSender && unchanged(old(self), final(self)),
            },
    {
        let event = ChatEvent::new_message(
            msg_id,
            sender_id,
            text,
            from_me,
            quoted_id,
            file_id,
            file_path,
            file_status,
            time_sent,
            is_read,
            is_edited,
        );
        match event {
            Some(ev) => {
                let ghost e = ev;
                let r = self.sendc(conn_id, chat_id, ev);
                proof {
                    let sender = parse_jid(sender_id@)->Some_0;
                    let s = choose|s: Jid|
                        s@ == sender && Some(e) == Some(
                            ChatEvent::NewMessagesNotify {
                                msg_id: MsgId(msg_id),
                                sender_id: s,
                                text,
                                from_me: flag(from_me),
                                quoted_id: quoted_of(quoted_id),
                                file_id_path: attachment_of(file_id, file_path),
                                file_status: status_of_code(file_status as int),
                                time_sent: time_sent as isize,
                                is_read: flag(is_read),
                                is_edited: flag(is_edited),
                            },
                        );
                    assert(chat_dispatched(old(self), self, conn_id as isize, chat_id@, e, r));
                }
                r
            },
            None => Delivery::BadSender,
        }
    }

    pub fn new_status_notify(&mut self, conn_id: i32, user_id: String, is_online: i32, time_seen: i32) -> (r: Delivery)
        ensures
            dispatched(
                old(self),
                final(self),
                conn_id as isize,
                (Event::NewStatusNotify { user_id, is_online: flag(is_online), time_seen: time_seen as isize }),
                r,
            ),
    {
        self.sendm(
            conn_id,
            Event::NewStatusNotify { user_id, is_online: is_online != 0, time_seen: time_seen as isize },
        )
    }

    pub fn new_typing_notify(&mut self, conn_id: i32, chat_id: &str, user_id: String, is_typing: i32) -> (r: Delivery)
        ensures
            chat_dispatched(
                old(self),
                final(self),
                conn_id as isize,
                chat_id@,
                (ChatEvent::NewTypingNotify { user_id, is_typing: flag(is_typing) }),
                r,
            ),
    {
        self.sendc(conn_id, chat_id, ChatEvent::NewTypingNotify { user_id, is_typing: is_typing != 0 })
    }

    pub fn new_message_status_notify(&mut self, conn_id: i32, chat_id: &str, msg_id: String, is_read: i32) -> (r: Delivery)
        ensures
            chat_dispatched(
                old(self),
                final(self),
                conn_id as isize,
                chat_id@,
                (ChatEvent::NewMessageStatusNotify { msg_id: MsgId(msg_id), is_read: flag(is_read) }),
                r,
            ),
    {
        self.sendc(conn_id, chat_id, ChatEvent::NewMessageStatusNotify { msg_id: MsgId(msg_id), is_read: is_read != 0 })
    }

    pub fn new_message_file_notify(
        &mut self,
        conn_id: i32,
        chat_id: &str,
        msg_id: String,
        file_path: String,
        file_status: i32,
        action: i32,
    ) -> (r: Delivery)
        ensures
            chat_dispatched(
                old(self),
                final(self),
                conn_id as isize,
                chat_id@,
                (ChatEvent::NewMessageFileNotify {
                    msg_id: MsgId(msg_id),
                    file_path,
                    file_status: status_of_code(file_status as int),
                    action: action_of_code(action as int),
                }),
                r,
            ),
    {
        self.sendc(
            conn_id,
            chat_id,
            ChatEvent::NewMessageFileNotify {
                msg_id: MsgId(msg_id),
                file_path,
                file_status: DownloadFileStatus::from_raw(file_status),
                action: DownloadFileAction::from_raw(action),
            },
        )
    }

    pub fn new_message_reaction_notify(
        &mut self,
        conn_id: i32,
        chat_id: &str,
        msg_id: String,
        sender_id: &str,
        emoji: String,
        from_me: i32,
    ) -> (r: Delivery)
        ensures
            match parse_jid(sender_id@) {
                Some(sender) => exists|s: Jid|
                    s@ == sender && chat_dispatched(
                        old(self),
                        final(self),
                        conn_id as isize,
                        chat_id@,
                        (ChatEvent::NewMessageReactionNotify {
                            msg_id: MsgId(msg_id),
                            sender_id: s,
                            emoji,
                            from_me: flag(from_me),
                        }),
                        r,
                    ),
                None => r is BadSender && unchanged(old(self), final(self)),
            },
    {
        match ChatEvent::new_reaction(msg_id, sender_id, emoji, from_me) {
            Some(ev) => {
                let ghost e = ev;
                let r = self.sendc(conn_id, chat_id, ev);
                proof {
                    let sender = parse_jid(sender_id@)->Some_0;
                    let s = choose|s: Jid|
                        s@ == sender && Some(e) == Some(
                            ChatEvent::NewMessageReactionNotify {
                                msg_id: MsgId(msg_id),
                                sender_id: s,
                                emoji,
                                from_me: flag(from_me),
                            },
                        );
                    assert(chat_dispatched(old(self), self, conn_id as isize, chat_id@, e, r));
                }
                r
            },
            None => Delivery::BadSender,
        }
    }

    pub fn delete_chat_notify(&mut self, conn_id: i32, chat_id: &str) -> (r: Delivery)
        ensures
            chat_dispatched(old(self), final(self), conn_id as isize, chat_id@, ChatEvent::DeleteChatNotify, r),
    {
        self.sendc(conn_id, chat_id, ChatEvent::DeleteChatNotify)
    }

    pub fn delete_message_notify(&mut self, conn_id: i32, chat_id: &str, msg_id: String) -> (r: Delivery)
        ensures
            chat_dispatched(
                old(self),
                final(self),
                conn_id as isize,
                chat_id@,
                ChatEvent::DeleteMessageNotify(MsgId(msg_id)),
                r,
            ),
    {
        self.sendc(conn_id, chat_id, ChatEvent::DeleteMessageNotify(MsgId(msg_id)))
    }

    pub fn update_mute_notify(&mut self, conn_id: i32, chat_id: &str, is_muted: i32) -> (r: Delivery)
        ensures
            chat_dispatched(
                old(self),
                final(self),
                conn_id as isize,
                chat_id@,
                ChatEvent::UpdateIsMuted(flag(is_muted)),
                r,
            ),
    {
        self.sendc(conn_id, chat_id, ChatEvent::UpdateIsMuted(is_muted != 0))
    }

    pub fn update_pin_notify(&mut self, conn_id: i32, chat_id: &str, is_pinned: i32, time_pinned: i32) -> (r: Delivery)
        ensures
            chat_dispatched(
                old(self),
                final(self),
                conn_id as isize,
                chat_id@,
                (ChatEvent::UpdatePinNotify { is_pinned: flag(is_pinned), time_pinned: time_pinned as isize }),
                r,
            ),
    {
        self.sendc(
            conn_id,
            chat_id,
            ChatEvent::UpdatePinNotify { is_pinned: is_pinned != 0, time_pinned: time_pinned as isize },
        )
    }

    pub fn reinit(&mut self, conn_id: i32) -> (r: Delivery)
        ensures
            dispatched(old(self), final(self), conn_id as isize, Event::Reinit, r),
    {
        self.sendm(conn_id, Event::Reinit)
    }

    pub fn set_protocol_ui_control(&mut self, conn_id: i32, is_take_control: i32) -> (r: Delivery)
        ensures
            dispatched(
                old(self),
                final(self),
                conn_id as isize,
                (Event::SetProtocolUiControl { is_take_control: flag(is_take_control) }),
                r,
            ),
    {
        self.sendm(conn_id, Event::SetProtocolUiControl { is_take_control: is_take_control != 0 })
    }

    /// The engine set the bits of `flags`; all bits are kept as they come.
    pub fn set_status(&mut self, conn_id: i32, flags: i32) -> (r: Delivery)
        ensures
            exists|f: StatusFlags|
                f@ == flags as isize && dispatched(old(self), final(self), conn_id as isize, Event::SetStatus(f), r),
    {
        let f = StatusFlags::from_bits_retain(flags as isize);
        self.sendm(conn_id, Event::SetStatus(f))
    }

    /// The engine cleared the bits of `flags`; all bits are kept as they come.
    pub fn clear_status(&mut self, conn_id: i32, flags: i32) -> (r: Delivery)
        ensures
            exists|f: StatusFlags|
                f@ == flags as isize && dispatched(old(self), final(self), conn_id as isize, Event::ClearStatus(f), r),
    {
        let f = StatusFlags::from_bits_retain(flags as isize);
        self.sendm(conn_id, Event::ClearStatus(f))
    }

    /// A QR code to scan, reported on the authentication connection.
    pub fn show_image(&mut self, path: String) -> (r: Delivery)
        ensures
            dispatched(old(self), final(self), AUTH_CONNECTION as isize, Event::QrCode(path), r),
    {
        self.sendm(AUTH_CONNECTION, Event::QrCode(path))
    }

    /// A pairing code to enter on the phone, reported on the authentication
    /// connection.
    pub fn login_pairing_code(&mut self, code: String) -> (r: Delivery)
        ensures
            dispatched(old(self), final(self), AUTH_CONNECTION as isize, Event::PairingCode(code), r),
    {
        self.sendm(AUTH_CONNECTION, Event::PairingCode(code))
    }
}

} // verus!
