use weixin_ilink_sdk::error::Error;
use weixin_ilink_sdk::send::{
    attachment_name, build_media_item_request, build_text_message, build_text_message_with_id,
    file_message_item, generate_client_id, image_message_item, media_kind_for_path,
    prepare_media_send, prepare_text_send, video_message_item, MediaKind,
};
use weixin_ilink_sdk::types::{MessageItemType, MessageState, MessageType};
use weixin_ilink_sdk::upload::UploadedFile;

fn uploaded() -> UploadedFile {
    UploadedFile {
        filekey: "fk".into(),
        download_param: "dl".into(),
        aeskey: "00112233445566778899aabbccddeeff".into(),
        file_size: 20,
        ciphertext_size: 32,
    }
}

#[test]
fn text_message_shape() {
    let req = build_text_message_with_id("bob", "hi", "ctx", "id-1".into());
    let m = &req.msg;
    assert_eq!(m.from_user_id.as_deref(), Some(""));
    assert_eq!(m.to_user_id.as_deref(), Some("bob"));
    assert_eq!(m.client_id.as_deref(), Some("id-1"));
    assert_eq!(m.message_type, Some(MessageType::Bot));
    assert_eq!(m.message_state, Some(MessageState::Finish));
    assert_eq!(m.context_token.as_deref(), Some("ctx"));
    let items = m.item_list.as_ref().unwrap();
    assert_eq!(items.len(), 1);
    assert_eq!(items[0].item_type, Some(MessageItemType::Text));
    assert_eq!(m.text(), Some("hi"));
    assert!(req.base_info.is_none());
    let empty = build_text_message("bob", "", "ctx");
    assert!(empty.msg.item_list.is_none());
}

#[test]
fn client_ids_are_fresh_and_prefixed() {
    let a = generate_client_id();
    let b = generate_client_id();
    assert!(a.starts_with("weixin-ilink-"));
    assert_eq!(a.len(), "weixin-ilink-".len() + 36);
    assert_ne!(a, b);
    let u: Vec<char> = a["weixin-ilink-".len()..].chars().collect();
    for (i, c) in u.iter().enumerate() {
        if [8, 13, 18, 23].contains(&i) {
            assert_eq!(*c, '-');
        } else {
            assert!(c.is_ascii_digit() || ('a'..='f').contains(c));
        }
    }
    assert_eq!(u[14], '4');
    assert!(['8', '9', 'a', 'b'].contains(&u[19]));
}

#[test]
fn send_requires_context_token() {
    assert!(matches!(prepare_text_send("bob", "hi", ""), Err(Error::MissingContextToken)));
    let (req, id) = prepare_text_send("bob", "hi", "ctx").unwrap();
    assert_eq!(req.msg.client_id.as_deref(), Some(id.as_str()));
    let item = image_message_item(&uploaded());
    assert!(matches!(prepare_media_send("bob", "cap", item, ""), Err(Error::MissingContextToken)));
}

#[test]
fn media_send_text_first() {
    let s = prepare_media_send("bob", "caption", video_message_item(&uploaded()), "ctx").unwrap();
    let t = s.text_request.unwrap();
    assert_eq!(t.msg.text(), Some("caption"));
    assert_eq!(s.media_request.msg.client_id.as_deref(), Some(s.msg_id.as_str()));
    assert_ne!(t.msg.client_id, s.media_request.msg.client_id);
    let items = s.media_request.msg.item_list.unwrap();
    assert_eq!(items[0].item_type, Some(MessageItemType::Video));
    let no_text = prepare_media_send("bob", "", image_message_item(&uploaded()), "ctx").unwrap();
    assert!(no_text.text_request.is_none());
}

#[test]
fn media_items_point_at_upload() {
    let u = uploaded();
    let img = image_message_item(&u);
    let ii = img.image_item.unwrap();
    let media = ii.media.unwrap();
    assert_eq!(media.encrypt_query_param.as_deref(), Some("dl"));
    assert_eq!(
        media.aes_key.as_deref(),
        Some("MDAxMTIyMzM0NDU1NjY3Nzg4OTlhYWJiY2NkZGVlZmY=")
    );
    assert_eq!(media.encrypt_type, Some(1));
    assert_eq!(ii.mid_size, Some(32));
    let vid = video_message_item(&u).video_item.unwrap();
    assert_eq!(vid.video_size, Some(32));
    let file = file_message_item(&u, "report.pdf");
    assert_eq!(file.item_type, Some(MessageItemType::File));
    let fi = file.file_item.unwrap();
    assert_eq!(fi.file_name.as_deref(), Some("report.pdf"));
    assert_eq!(fi.len.as_deref(), Some("20"));
    let single = build_media_item_request("bob", image_message_item(&u), "ctx");
    assert_eq!(single.msg.item_list.unwrap().len(), 1);
}

#[test]
fn media_routing_by_extension() {
    assert_eq!(media_kind_for_path("a/b/photo.PNG"), MediaKind::Image);
    assert_eq!(media_kind_for_path("clip.mov"), MediaKind::Video);
    assert_eq!(media_kind_for_path("song.mp3"), MediaKind::File);
    assert_eq!(media_kind_for_path("README"), MediaKind::File);
    assert_eq!(attachment_name("/tmp/x/report.pdf"), "report.pdf");
    assert_eq!(attachment_name("/"), "file");
}

#[test]
fn file_item_length_reads_back_as_size() {
    let u = uploaded();
    let item = file_message_item(&u, "report.pdf");
    assert_eq!(item.file_item.unwrap().len_bytes(), Some(u.file_size));
}
