use whatsmeow_nchat::api::app_config_get_num;
use whatsmeow_nchat::{AccountState, FileType, Jid, MsgId, OutgoingMessage, QuotedMessage};

#[test]
fn account_state_codes() {
    assert_eq!(AccountState::from_code(0), AccountState::Uninitialized);
    assert_eq!(AccountState::from_code(1), AccountState::Connecting);
    assert_eq!(AccountState::from_code(2), AccountState::Connected);
    assert_eq!(AccountState::from_code(3), AccountState::Disconnected);
    assert_eq!(AccountState::from_code(4), AccountState::Outdated);
    assert_eq!(AccountState::from_code(5), AccountState::Uninitialized);
    assert_eq!(AccountState::from_code(-1), AccountState::Uninitialized);
}

#[test]
fn file_type_names() {
    assert_eq!(FileType::Audio.as_str(), "audio");
    assert_eq!(FileType::Video.as_str(), "video");
    assert_eq!(FileType::Image.as_str(), "image");
    assert_eq!(FileType::Document.as_str(), "document");
}

#[test]
fn plain_message_has_empty_optional_parts() {
    let chat = Jid::parse("120363@g.us").unwrap();
    let m = OutgoingMessage::new(&chat, "hi all", None, None, None);
    assert_eq!(m.chat_id, "120363@g.us");
    assert_eq!(m.text, "hi all");
    assert_eq!(m.quoted_id, "");
    assert_eq!(m.quoted_text, "");
    assert_eq!(m.quoted_sender, "");
    assert_eq!(m.file_path, "");
    assert_eq!(m.file_type, "");
    assert_eq!(m.edit_msg_id, "");
    assert_eq!(m.edit_msg_sent, 0);
}

#[test]
fn reply_with_file_and_edit() {
    let chat = Jid::from_phone_no("15550001".to_string());
    let quoted = QuotedMessage {
        sender: Jid::parse("15550002@s.whatsapp.net").unwrap(),
        contents: "original".to_string(),
        message_id: MsgId("Q1".to_string()),
    };
    let edited = MsgId("E5".to_string());
    let m = OutgoingMessage::new(
        &chat,
        "reply",
        Some(&quoted),
        Some(("/home/u/pic.png".to_string(), FileType::Image)),
        Some((&edited, 1700000123)),
    );
    assert_eq!(m.chat_id, "15550001@s.whatsapp.net");
    assert_eq!(m.text, "reply");
    assert_eq!(m.quoted_id, "Q1");
    assert_eq!(m.quoted_text, "original");
    assert_eq!(m.quoted_sender, "15550002@s.whatsapp.net");
    assert_eq!(m.file_path, "/home/u/pic.png");
    assert_eq!(m.file_type, "image");
    assert_eq!(m.edit_msg_id, "E5");
    assert_eq!(m.edit_msg_sent, 1700000123);
}

#[test]
fn config_reads_zero() {
    assert_eq!(app_config_get_num("some.param"), 0);
}
