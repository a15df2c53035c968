use weixin_ilink_sdk::types::{
    FileItem, Message, MessageItem, MessageItemType, MessageState, MessageType, RefMessage,
    TextItem, TypingStatus, UploadMediaType, VoiceItem,
};

fn text_item(text: Option<&str>) -> MessageItem {
    MessageItem {
        item_type: Some(MessageItemType::Text),
        text_item: Some(TextItem { text: text.map(|t| t.to_string()) }),
        ..Default::default()
    }
}

fn voice_item(text: &str) -> MessageItem {
    MessageItem {
        item_type: Some(MessageItemType::Voice),
        voice_item: Some(VoiceItem { text: Some(text.to_string()), ..Default::default() }),
        ..Default::default()
    }
}

fn typed(t: MessageItemType) -> MessageItem {
    MessageItem { item_type: Some(t), ..Default::default() }
}

fn msg(items: Vec<MessageItem>) -> Message {
    Message { item_list: Some(items), ..Default::default() }
}

#[test]
fn enum_codes_roundtrip() {
    for v in 0u8..=8 {
        if let Ok(t) = MessageItemType::try_from_u8(v) {
            assert_eq!(t.to_u8(), v);
        }
        if let Ok(t) = UploadMediaType::try_from_u8(v) {
            assert_eq!(t.to_u8(), v);
        }
        if let Ok(t) = MessageType::try_from_u8(v) {
            assert_eq!(t.to_u8(), v);
        }
        if let Ok(t) = MessageState::try_from_u8(v) {
            assert_eq!(t.to_u8(), v);
        }
        if let Ok(t) = TypingStatus::try_from_u8(v) {
            assert_eq!(t.to_u8(), v);
        }
    }
    assert_eq!(MessageItemType::Video.to_u8(), 5);
    assert_eq!(MessageItemType::try_from_u8(6), Err(6));
    assert_eq!(MessageType::try_from_u8(0), Ok(MessageType::NoType));
    assert_eq!(MessageState::Finish.to_u8(), 2);
    assert_eq!(UploadMediaType::Voice.to_u8(), 4);
    assert_eq!(TypingStatus::try_from_u8(0), Err(0));
}

#[test]
fn file_len_bytes() {
    let f = |s: Option<&str>| FileItem { len: s.map(|x| x.to_string()), ..Default::default() }.len_bytes();
    assert_eq!(f(Some("1024")), Some(1024));
    assert_eq!(f(Some("+7")), Some(7));
    assert_eq!(f(Some("0007")), Some(7));
    assert_eq!(f(Some("18446744073709551615")), Some(u64::MAX));
    assert_eq!(f(Some("18446744073709551616")), None);
    assert_eq!(f(Some("")), None);
    assert_eq!(f(Some("+")), None);
    assert_eq!(f(Some("-1")), None);
    assert_eq!(f(Some("12a")), None);
    assert_eq!(f(None), None);
}

#[test]
fn text_and_voice_text() {
    let m = msg(vec![voice_item("spoken"), text_item(Some("hello")), text_item(Some("later"))]);
    assert_eq!(m.text(), Some("hello"));
    assert_eq!(m.voice_text(), Some("spoken"));
    assert_eq!(m.any_text(), Some("hello"));
    // Only the first text item counts, even where it holds no text.
    let first_empty = msg(vec![voice_item("spoken"), text_item(None), text_item(Some("b"))]);
    assert_eq!(first_empty.text(), None);
    assert_eq!(first_empty.any_text(), Some("spoken"));
    let silent_first = msg(vec![typed(MessageItemType::Voice), voice_item("x")]);
    assert_eq!(silent_first.voice_text(), None);
    // Without a text item, extract_text gives what voice_text gives.
    assert_eq!(silent_first.extract_text(), None);
    let spoken = msg(vec![voice_item("v"), voice_item("w")]);
    assert_eq!(spoken.extract_text().as_deref(), spoken.voice_text());
    assert_eq!(spoken.extract_text().as_deref(), Some("v"));
    let v = msg(vec![voice_item("spoken")]);
    assert_eq!(v.text(), None);
    assert_eq!(v.any_text(), Some("spoken"));
    let none = Message::default();
    assert_eq!(none.text(), None);
    assert_eq!(none.any_text(), None);
    assert_eq!(none.extract_text(), None);
}

#[test]
fn extract_text_quotes() {
    let mut item = text_item(Some("reply"));
    item.ref_msg = Some(Box::new(RefMessage {
        message_item: Some(text_item(Some("earlier words"))),
        title: Some("Alice".to_string()),
    }));
    assert_eq!(msg(vec![item]).extract_text().as_deref(), Some("[引用: Alice | earlier words]\nreply"));

    let mut item = text_item(Some("reply"));
    item.ref_msg = Some(Box::new(RefMessage { message_item: None, title: Some("T".to_string()) }));
    assert_eq!(msg(vec![item]).extract_text().as_deref(), Some("[引用: T]\nreply"));

    let mut item = text_item(Some("reply"));
    item.ref_msg = Some(Box::new(RefMessage {
        message_item: Some(typed(MessageItemType::Image)),
        title: Some("T".to_string()),
    }));
    assert_eq!(msg(vec![item]).extract_text().as_deref(), Some("reply"));

    let mut item = text_item(Some("reply"));
    item.ref_msg = Some(Box::new(RefMessage { message_item: None, title: Some(String::new()) }));
    assert_eq!(msg(vec![item]).extract_text().as_deref(), Some("reply"));
}

#[test]
fn extract_text_first_text_item_decides() {
    // The first text item has no text: nothing, even though a voice item has one.
    let m = msg(vec![text_item(None), voice_item("spoken")]);
    assert_eq!(m.extract_text(), None);
    // No text item: the voice transcription.
    let m = msg(vec![typed(MessageItemType::File), voice_item("spoken")]);
    assert_eq!(m.extract_text().as_deref(), Some("spoken"));
}

#[test]
fn media_item_is_first_media() {
    let m = msg(vec![text_item(Some("x")), typed(MessageItemType::Video), typed(MessageItemType::Image)]);
    let item = m.media_item().unwrap();
    assert_eq!(item.item_type, Some(MessageItemType::Video));
    assert!(item.is_media());
    assert!(!text_item(None).is_media());
    assert!(msg(vec![text_item(Some("x"))]).media_item().is_none());
}
