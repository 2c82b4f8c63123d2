use walle_core::message::{IntoMessage, Message, MessageBuild, MessageSegment};

#[test]
fn string_into_message() {
    let m = "hello".to_string().into_message();
    assert_eq!(m.len(), 1);
    assert!(matches!(&m[0], MessageSegment::Text { text } if text == "hello"));
}

#[test]
fn str_into_message() {
    let m = "hi there".into_message();
    assert_eq!(m.len(), 1);
    assert!(matches!(&m[0], MessageSegment::Text { text } if text == "hi there"));
}

#[test]
fn message_into_message() {
    let m: Message = vec![MessageSegment::MentionAll, MessageSegment::Text { text: "x".to_string() }];
    let n = m.into_message();
    assert_eq!(n.len(), 2);
    assert!(matches!(&n[0], MessageSegment::MentionAll));
}

#[test]
fn builder_appends_in_order() {
    let m: Message = Message::new()
        .text("a".to_string())
        .mention("u".to_string())
        .mention_all()
        .image("i".to_string())
        .voice("v".to_string())
        .audio("au".to_string())
        .video("vi".to_string())
        .file("f".to_string())
        .reply("m".to_string(), "u2".to_string())
        .custom("poke".to_string());
    assert_eq!(m.len(), 10);
    assert!(matches!(&m[0], MessageSegment::Text { text } if text == "a"));
    assert!(matches!(&m[1], MessageSegment::Mention { user_id } if user_id == "u"));
    assert!(matches!(&m[2], MessageSegment::MentionAll));
    assert!(matches!(&m[3], MessageSegment::Image { file_id } if file_id == "i"));
    assert!(matches!(&m[4], MessageSegment::Voice { file_id } if file_id == "v"));
    assert!(matches!(&m[5], MessageSegment::Audio { file_id } if file_id == "au"));
    assert!(matches!(&m[6], MessageSegment::Video { file_id } if file_id == "vi"));
    assert!(matches!(&m[7], MessageSegment::File { file_id } if file_id == "f"));
    assert!(matches!(&m[8], MessageSegment::Reply { message_id, user_id } if message_id == "m" && user_id == "u2"));
    assert!(matches!(&m[9], MessageSegment::Custom { ty } if ty == "poke"));
}
