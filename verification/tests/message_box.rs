use lan_chat::networking::Message;
use lan_chat::networking::MessageType;
use lan_chat::tui::app::message_box::MessageBox;
use std::time::UNIX_EPOCH;

#[test]
fn line_has_time_sender_and_text() {
    let message = Message {
        time: UNIX_EPOCH,
        sent_by_self: false,
        sender_name: "Alice".to_string(),
        message_type: MessageType::Text,
        content: "hello".to_string(),
    };
    let line = MessageBox::get_line(&message, "12:34:56");
    assert_eq!(line.time, "[12:34:56] ");
    assert_eq!(line.sender, "Alice");
    assert!(!line.sent_by_self);
    assert_eq!(line.text, " :  hello");
}

#[test]
fn line_of_an_own_empty_message() {
    let message = Message {
        time: UNIX_EPOCH,
        sent_by_self: true,
        sender_name: "Me".to_string(),
        message_type: MessageType::Error,
        content: String::new(),
    };
    let line = MessageBox::get_line(&message, "");
    assert_eq!(line.time, "[] ");
    assert_eq!(line.sender, "Me");
    assert!(line.sent_by_self);
    assert_eq!(line.text, " :  ");
}
