use std::sync::{Arc, Mutex};

use tokio::sync::mpsc::unbounded_channel;
use whatsmeow_nchat::types::ONLINE;
use whatsmeow_nchat::{
    ChatEvent, ConnId, Delivery, DownloadFileAction, DownloadFileStatus, Event, Jid, MsgId,
    Registry, StatusFlags,
};

fn chat(text: &str) -> Jid {
    Jid::parse(text).unwrap()
}

#[test]
fn registered_connection_gets_its_events_in_order() {
    let mut reg = Registry::new();
    let (tx, mut rx) = unbounded_channel();
    reg.add_sender(ConnId::from_inner(7), tx);
    assert_eq!(reg.sendm(7, Event::Reinit), Delivery::Delivered);
    assert_eq!(reg.sendm(7, Event::QrCode("/tmp/qr.png".to_string())), Delivery::Delivered);
    assert_eq!(rx.try_recv().unwrap(), Event::Reinit);
    assert_eq!(rx.try_recv().unwrap(), Event::QrCode("/tmp/qr.png".to_string()));
    assert!(rx.try_recv().is_err());
}

#[test]
fn unregistered_connection_gets_nothing() {
    let mut reg = Registry::new();
    let (tx, mut rx) = unbounded_channel();
    reg.add_sender(ConnId::from_inner(1), tx);
    assert_eq!(reg.sendm(2, Event::Reinit), Delivery::NoChannel);
    assert!(rx.try_recv().is_err());
}

#[test]
fn closed_channel_refuses_events() {
    let mut reg = Registry::new();
    let (tx, rx) = unbounded_channel();
    reg.add_sender(ConnId::from_inner(1), tx);
    drop(rx);
    assert_eq!(reg.sendm(1, Event::Reinit), Delivery::Refused);
}

#[test]
fn registering_again_replaces_the_channel() {
    let mut reg = Registry::new();
    let (tx1, mut rx1) = unbounded_channel();
    let (tx2, mut rx2) = unbounded_channel();
    reg.add_sender(ConnId::from_inner(5), tx1);
    reg.add_sender(ConnId::from_inner(5), tx2);
    assert_eq!(reg.sendm(5, Event::Reinit), Delivery::Delivered);
    assert!(rx1.try_recv().is_err());
    assert_eq!(rx2.try_recv().unwrap(), Event::Reinit);
}

#[test]
fn chat_event_with_bad_chat_id_is_dropped() {
    let mut reg = Registry::new();
    let (tx, mut rx) = unbounded_channel();
    reg.add_sender(ConnId::from_inner(3), tx);
    assert_eq!(reg.sendc(3, "no-server-here", ChatEvent::DeleteChatNotify), Delivery::BadChat);
    assert_eq!(reg.sendc(3, "1@unknown", ChatEvent::DeleteChatNotify), Delivery::BadChat);
    assert_eq!(reg.sendc(3, "1@g.us@g.us", ChatEvent::DeleteChatNotify), Delivery::BadChat);
    assert!(rx.try_recv().is_err());
    assert_eq!(reg.sendc(3, "1@g.us", ChatEvent::DeleteChatNotify), Delivery::Delivered);
    assert_eq!(
        rx.try_recv().unwrap(),
        Event::ChatEvent(chat("1@g.us"), ChatEvent::DeleteChatNotify)
    );
}

#[test]
fn new_message_scenario() {
    let mut reg = Registry::new();
    let (tx, mut rx) = unbounded_channel();
    reg.add_sender(ConnId::from_inner(3), tx);
    let ok = reg.new_messages_notify(
        3,
        "12025550123@s.whatsapp.net",
        "ABC123".to_string(),
        "12025550123@s.whatsapp.net",
        "hello".to_string(),
        0,
        String::new(),
        String::new(),
        String::new(),
        -1,
        1700000000,
        0,
        0,
    );
    assert_eq!(ok, Delivery::Delivered);
    let expected = Event::ChatEvent(
        chat("12025550123@s.whatsapp.net"),
        ChatEvent::NewMessagesNotify {
            msg_id: MsgId("ABC123".to_string()),
            sender_id: chat("12025550123@s.whatsapp.net"),
            text: "hello".to_string(),
            from_me: false,
            quoted_id: None,
            file_id_path: None,
            file_status: DownloadFileStatus::NoStatus,
            time_sent: 1700000000,
            is_read: false,
            is_edited: false,
        },
    );
    assert_eq!(rx.try_recv().unwrap(), expected);
    assert!(rx.try_recv().is_err());
}

#[test]
fn new_message_with_quote_and_file() {
    let mut reg = Registry::new();
    let (tx, mut rx) = unbounded_channel();
    reg.add_sender(ConnId::from_inner(4), tx);
    assert_eq!(
        reg.new_messages_notify(
        4,
        "99@g.us",
        "M1".to_string(),
        "123@s.whatsapp.net",
        "see file".to_string(),
        1,
        "Q9".to_string(),
        "F7".to_string(),
        "/tmp/f7.jpg".to_string(),
        1,
        12,
        1,
        1,
        ),
        Delivery::Delivered
    );
    let expected = Event::ChatEvent(
        chat("99@g.us"),
        ChatEvent::NewMessagesNotify {
            msg_id: MsgId("M1".to_string()),
            sender_id: chat("123@s.whatsapp.net"),
            text: "see file".to_string(),
            from_me: true,
            quoted_id: Some(MsgId("Q9".to_string())),
            file_id_path: Some(("F7".to_string(), "/tmp/f7.jpg".to_string())),
            file_status: DownloadFileStatus::Downloaded,
            time_sent: 12,
            is_read: true,
            is_edited: true,
        },
    );
    assert_eq!(rx.try_recv().unwrap(), expected);
}

#[test]
fn new_message_with_bad_sender_is_dropped() {
    let mut reg = Registry::new();
    let (tx, mut rx) = unbounded_channel();
    reg.add_sender(ConnId::from_inner(3), tx);
    assert_eq!(
        reg.new_messages_notify(
        3,
        "1@g.us",
        "M".to_string(),
        "not-a-jid",
        "x".to_string(),
        0,
        String::new(),
        String::new(),
        String::new(),
        0,
        0,
        0,
        0,
        ),
        Delivery::BadSender
    );
    assert_eq!(
        reg.new_message_reaction_notify(3, "1@g.us", "M".to_string(), "x@y", "+1".to_string(), 0),
        Delivery::BadSender
    );
    assert!(rx.try_recv().is_err());
}

#[test]
fn every_callback_builds_its_event() {
    let mut reg = Registry::new();
    let (tx, mut rx) = unbounded_channel();
    reg.add_sender(ConnId::from_inner(2), tx);
    let c = "555@s.whatsapp.net";
    assert_eq!(reg.new_contacts_notify(2, c, "Ann".to_string(), "555".to_string(), 1, 0, 3), Delivery::Delivered);
    assert_eq!(reg.new_chats_notify(2, c, 1, 0, 1, 99), Delivery::Delivered);
    assert_eq!(reg.new_status_notify(2, "555@s.whatsapp.net".to_string(), 1, 77), Delivery::Delivered);
    assert_eq!(reg.new_typing_notify(2, c, "555".to_string(), 1), Delivery::Delivered);
    assert_eq!(reg.new_message_status_notify(2, c, "M2".to_string(), 1), Delivery::Delivered);
    assert_eq!(reg.new_message_file_notify(2, c, "M3".to_string(), "/tmp/a".to_string(), 3, 2), Delivery::Delivered);
    assert_eq!(reg.new_message_reaction_notify(2, c, "M4".to_string(), c, "👍".to_string(), 1), Delivery::Delivered);
    assert_eq!(reg.delete_chat_notify(2, c), Delivery::Delivered);
    assert_eq!(reg.delete_message_notify(2, c, "M5".to_string()), Delivery::Delivered);
    assert_eq!(reg.update_mute_notify(2, c, 1), Delivery::Delivered);
    assert_eq!(reg.update_pin_notify(2, c, 0, 1234), Delivery::Delivered);
    assert_eq!(reg.reinit(2), Delivery::Delivered);
    assert_eq!(reg.set_protocol_ui_control(2, 1), Delivery::Delivered);
    assert_eq!(reg.set_status(2, 4), Delivery::Delivered);
    assert_eq!(reg.clear_status(2, 0x104), Delivery::Delivered);
    let j = chat(c);
    let expected = vec![
        Event::ChatEvent(
            j.clone(),
            ChatEvent::NewContactsNotify {
                name: "Ann".to_string(),
                phone: "555".to_string(),
                is_self: true,
                is_group: false,
                notify: 3,
            },
        ),
        Event::ChatEvent(
            j.clone(),
            ChatEvent::NewChatsNotify { is_unread: true, is_muted: false, is_pinned: true, last_message_time: 99 },
        ),
        Event::NewStatusNotify { user_id: "555@s.whatsapp.net".to_string(), is_online: true, time_seen: 77 },
        Event::ChatEvent(j.clone(), ChatEvent::NewTypingNotify { user_id: "555".to_string(), is_typing: true }),
        Event::ChatEvent(
            j.clone(),
            ChatEvent::NewMessageStatusNotify { msg_id: MsgId("M2".to_string()), is_read: true },
        ),
        Event::ChatEvent(
            j.clone(),
            ChatEvent::NewMessageFileNotify {
                msg_id: MsgId("M3".to_string()),
                file_path: "/tmp/a".to_string(),
                file_status: DownloadFileStatus::DownloadFailed,
                action: DownloadFileAction::Save,
            },
        ),
        Event::ChatEvent(
            j.clone(),
            ChatEvent::NewMessageReactionNotify {
                msg_id: MsgId("M4".to_string()),
                sender_id: j.clone(),
                emoji: "👍".to_string(),
                from_me: true,
            },
        ),
        Event::ChatEvent(j.clone(), ChatEvent::DeleteChatNotify),
        Event::ChatEvent(j.clone(), ChatEvent::DeleteMessageNotify(MsgId("M5".to_string()))),
        Event::ChatEvent(j.clone(), ChatEvent::UpdateIsMuted(true)),
        Event::ChatEvent(j.clone(), ChatEvent::UpdatePinNotify { is_pinned: false, time_pinned: 1234 }),
        Event::Reinit,
        Event::SetProtocolUiControl { is_take_control: true },
        Event::SetStatus(StatusFlags::from_bits_retain(ONLINE)),
        Event::ClearStatus(StatusFlags::from_bits_retain(0x104)),
    ];
    for e in expected {
        assert_eq!(rx.try_recv().unwrap(), e);
    }
    assert!(rx.try_recv().is_err());
}

#[test]
fn auth_artifacts_go_to_connection_zero() {
    let mut reg = Registry::new();
    let (tx0, mut rx0) = unbounded_channel();
    let (tx1, mut rx1) = unbounded_channel();
    reg.add_sender(ConnId::from_inner(0), tx0);
    reg.add_sender(ConnId::from_inner(1), tx1);
    assert_eq!(reg.show_image("/tmp/qr.png".to_string()), Delivery::Delivered);
    assert_eq!(reg.login_pairing_code("ABCD-EFGH".to_string()), Delivery::Delivered);
    assert_eq!(rx0.try_recv().unwrap(), Event::QrCode("/tmp/qr.png".to_string()));
    assert_eq!(rx0.try_recv().unwrap(), Event::PairingCode("ABCD-EFGH".to_string()));
    assert!(rx1.try_recv().is_err());
}

#[test]
fn accept_connection_registers_a_channel() {
    let mut reg = Registry::new();
    let (id, mut rx) = reg.accept_connection(12).unwrap();
    assert_eq!(id.into_inner(), 12);
    assert_eq!(reg.sendm(12, Event::Reinit), Delivery::Delivered);
    assert_eq!(rx.try_recv().unwrap(), Event::Reinit);
    assert!(reg.accept_connection(-1).is_err());
}

#[test]
fn concurrent_dispatches_stay_apart() {
    const THREADS: i32 = 100;
    const EVENTS: isize = 1000;
    let mut reg = Registry::new();
    let mut receivers = Vec::new();
    for id in 0..THREADS {
        let (tx, rx) = unbounded_channel();
        reg.add_sender(ConnId::from_inner(id as isize), tx);
        receivers.push(rx);
    }
    let reg = Arc::new(Mutex::new(reg));
    let rt = tokio::runtime::Builder::new_multi_thread().worker_threads(8).build().unwrap();
    let mut handles = Vec::new();
    for id in 0..THREADS {
        let reg = Arc::clone(&reg);
        handles.push(rt.spawn_blocking(move || {
            for n in 0..EVENTS {
                let ok = reg.lock().unwrap().new_chats_notify(id, "1@g.us", 0, 0, 0, id * 1000 + n as i32);
                assert_eq!(ok, Delivery::Delivered);
            }
        }));
    }
    for h in handles {
        rt.block_on(h).unwrap();
    }
    for (id, rx) in receivers.iter_mut().enumerate() {
        for n in 0..EVENTS {
            match rx.try_recv().unwrap() {
                Event::ChatEvent(_, ChatEvent::NewChatsNotify { last_message_time, .. }) => {
                    assert_eq!(last_message_time, id as isize * EVENTS + n)
                }
                other => panic!("unexpected event {other:?}"),
            }
        }
        assert!(rx.try_recv().is_err());
    }
}

#[test]
fn message_builder_reads_engine_conventions() {
    let ev = ChatEvent::new_message(
        "ABC123".to_string(),
        "12025550123@s.whatsapp.net",
        "hello".to_string(),
        0,
        String::new(),
        String::new(),
        "/ignored/without/id".to_string(),
        -1,
        1700000000,
        0,
        0,
    )
    .unwrap();
    assert_eq!(
        ev,
        ChatEvent::NewMessagesNotify {
            msg_id: MsgId("ABC123".to_string()),
            sender_id: chat("12025550123@s.whatsapp.net"),
            text: "hello".to_string(),
            from_me: false,
            quoted_id: None,
            file_id_path: None,
            file_status: DownloadFileStatus::NoStatus,
            time_sent: 1700000000,
            is_read: false,
            is_edited: false,
        }
    );
    assert_eq!(
        ChatEvent::new_message(
            "X".to_string(),
            "12025550123",
            String::new(),
            0,
            String::new(),
            String::new(),
            String::new(),
            0,
            0,
            0,
            0
        ),
        None
    );
}

#[test]
fn reaction_builder_parses_sender() {
    assert_eq!(
        ChatEvent::new_reaction("M".to_string(), "7@lid", "❤".to_string(), 2),
        Some(ChatEvent::NewMessageReactionNotify {
            msg_id: MsgId("M".to_string()),
            sender_id: chat("7@lid"),
            emoji: "❤".to_string(),
            from_me: true,
        })
    );
    assert_eq!(ChatEvent::new_reaction("M".to_string(), "7@nowhere", "❤".to_string(), 0), None);
}

#[test]
fn chat_tagging_parses_chat_id() {
    assert_eq!(
        Event::in_chat("5@broadcast", ChatEvent::UpdateIsMuted(true)),
        Some(Event::ChatEvent(chat("5@broadcast"), ChatEvent::UpdateIsMuted(true)))
    );
    assert_eq!(Event::in_chat("5", ChatEvent::UpdateIsMuted(true)), None);
}
