//! Outgoing messages: how text and media messages are put together, and which
//! requests a send consists of.
use vstd::prelude::*;
use vstd::string::{StrSliceExecFns, StringExecFns};

use crate::client::opt_view;
use crate::crypto::{is_uuid_v4_text, uuid_v4_text};
use crate::encoding::{b64_encode_standard, base64_standard_encoded};
use crate::error::Error;
use crate::media_type::{mime_from_path, spec_mime_from_extension, path_extension};
use crate::text::{decimal_string, lemma_decimal_parses_back, owned, spec_decimal, spec_parse_u64, starts_with};
use crate::types::{
    CdnMedia, FileItem, ImageItem, Message, MessageItem, MessageItemType, MessageState, MessageType,
    SendMessageRequest, TextItem, VideoItem,
};
use crate::upload::UploadedFile;

verus! {

/// Prefix of the client ids the SDK gives its messages.
pub const CLIENT_ID_PREFIX: &'static str = "weixin-ilink-";

/// A fresh client id: the prefix followed by the text of a random
/// version-4 UUID.
pub fn generate_client_id() -> (r: String)
    ensures
        exists|u: Seq<char>| is_uuid_v4_text(u) && r@ == CLIENT_ID_PREFIX@ + u,
{
    let u = uuid_v4_text();
    let mut s = owned(CLIENT_ID_PREFIX);
    s.append(u.as_str());
    s
}

/// `msg` is a finished bot message to `to` in the context `ctx` with the given
/// client id, with no other field set than its item list.
pub open spec fn is_outgoing(msg: Message, to: Seq<char>, ctx: Seq<char>, client_id: Seq<char>) -> bool {
    &&& msg.seq is None
    &&& msg.message_id is None
    &&& opt_view(msg.from_user_id) == Some(Seq::<char>::empty())
    &&& opt_view(msg.to_user_id) == Some(to)
    &&& opt_view(msg.client_id) == Some(client_id)
    &&& msg.create_time_ms is None
    &&& msg.update_time_ms is None
    &&& msg.delete_time_ms is None
    &&& msg.session_id is None
    &&& msg.group_id is None
    &&& msg.message_type == Some(MessageType::Bot)
    &&& msg.message_state == Some(MessageState::Finish)
    &&& opt_view(msg.context_token) == Some(ctx)
}

/// No field of the item is set except its kind and the listed parts.
pub open spec fn only_parts(item: MessageItem, text: bool, image: bool, file: bool, video: bool) -> bool {
    &&& item.create_time_ms is None
    &&& item.update_time_ms is None
    &&& item.is_completed is None
    &&& item.msg_id is None
    &&& item.ref_msg is None
    &&& (item.text_item is Some <==> text)
    &&& (item.image_item is Some <==> image)
    &&& item.voice_item is None
    &&& (item.file_item is Some <==> file)
    &&& (item.video_item is Some <==> video)
}

/// `item` is a text item holding `text`.
pub open spec fn is_text_item(item: MessageItem, text: Seq<char>) -> bool {
    &&& item.item_type == Some(MessageItemType::Text)
    &&& only_parts(item, true, false, false, false)
    &&& item.text_item matches Some(t) && opt_view(t.text) == Some(text)
}

/// The items of a text message: none for empty text, else one text item.
pub open spec fn has_text_items(msg: Message, text: Seq<char>) -> bool {
    if text.len() == 0 {
        msg.item_list is None
    } else {
        msg.spec_items() matches Some(items) && items.len() == 1 && is_text_item(items[0], text)
    }
}

fn text_item(text: &str) -> (r: MessageItem)
    ensures
        is_text_item(r, text@),
{
    MessageItem {
        item_type: Some(MessageItemType::Text),
        text_item: Some(TextItem { text: Some(owned(text)) }),
        ..MessageItem::default()
    }
}

fn outgoing(to: &str, context_token: &str, client_id: String, item_list: Option<Vec<MessageItem>>) -> (r:
    Message)
    ensures
        is_outgoing(r, to@, context_token@, client_id@),
        r.item_list == item_list,
{
    Message {
        from_user_id: Some(String::new()),
        to_user_id: Some(owned(to)),
        client_id: Some(client_id),
        message_type: Some(MessageType::Bot),
        message_state: Some(MessageState::Finish),
        item_list,
        context_token: Some(owned(context_token)),
        ..Message::default()
    }
}

/// The request that sends `text` with a given client id.
pub fn build_text_message_with_id(to: &str, text: &str, context_token: &str, client_id: String) -> (r:
    SendMessageRequest)
    ensures
        is_outgoing(r.msg, to@, context_token@, client_id@),
        has_text_items(r.msg, text@),
        r.base_info is None,
{
    let item_list = if text.unicode_len() == 0 {
        None
    } else {
        let mut v: Vec<MessageItem> = Vec::new();
        v.push(text_item(text));
        Some(v)
    };
    let msg = outgoing(to, context_token, client_id, item_list);
    SendMessageRequest { msg, base_info: None }
}

/// The request that sends `text`, with a fresh client id.
pub fn build_text_message(to: &str, text: &str, context_token: &str) -> (r: SendMessageRequest)
    ensures
        exists|u: Seq<char>|
            is_uuid_v4_text(u) && is_outgoing(r.msg, to@, context_token@, #[trigger] (CLIENT_ID_PREFIX@ + u)),
        has_text_items(r.msg, text@),
        r.base_info is None,
{
    build_text_message_with_id(to, text, context_token, generate_client_id())
}

/// The request that sends one media item with a given client id.
pub fn build_media_item_request_with_id(to: &str, item: MessageItem, context_token: &str, client_id: String) -> (r:
    SendMessageRequest)
    ensures
        is_outgoing(r.msg, to@, context_token@, client_id@),
        r.msg.spec_items() matches Some(items) && items.len() == 1 && items[0] == item,
        r.base_info is None,
{
    let mut v: Vec<MessageItem> = Vec::new();
    v.push(item);
    let msg = outgoing(to, context_token, client_id, Some(v));
    SendMessageRequest { msg, base_info: None }
}

/// The request that sends one media item, with a fresh client id.
pub fn build_media_item_request(to: &str, item: MessageItem, context_token: &str) -> (r: SendMessageRequest)
    ensures
        exists|u: Seq<char>|
            is_uuid_v4_text(u) && is_outgoing(r.msg, to@, context_token@, #[trigger] (CLIENT_ID_PREFIX@ + u)),
        r.msg.spec_items() matches Some(items) && items.len() == 1 && items[0] == item,
        r.base_info is None,
{
    build_media_item_request_with_id(to, item, context_token, generate_client_id())
}

// ── Media items ─────────────────────────────────────────────────────────────

/// `m` points at an uploaded object: its download parameter, its AES key as
/// base64 of the hex text, and encryption type 1.
pub open spec fn is_cdn_media_for(m: CdnMedia, u: UploadedFile) -> bool {
    &&& opt_view(m.encrypt_query_param) == Some(u.download_param@)
    &&& opt_view(m.aes_key) == Some(base64_standard_encoded(vstd::utf8::encode_utf8(u.aeskey@)))
    &&& m.encrypt_type == Some(1u8)
}

fn cdn_media(uploaded: &UploadedFile) -> (r: CdnMedia)
    ensures
        is_cdn_media_for(r, *uploaded),
{
    CdnMedia {
        encrypt_query_param: Some(uploaded.download_param.clone()),
        aes_key: Some(b64_encode_standard(uploaded.aeskey.as_str().as_bytes())),
        encrypt_type: Some(1),
    }
}

pub open spec fn is_image_item_for(item: MessageItem, u: UploadedFile) -> bool {
    &&& item.item_type == Some(MessageItemType::Image)
    &&& only_parts(item, false, true, false, false)
    &&& item.image_item matches Some(ii) && {
        &&& ii.media matches Some(m) && is_cdn_media_for(m, u)
        &&& ii.thumb_media is None
        &&& ii.aeskey is None
        &&& ii.url is None
        &&& ii.mid_size == Some(u.ciphertext_size)
        &&& ii.thumb_size is None
        &&& ii.thumb_height is None
        &&& ii.thumb_width is None
        &&& ii.hd_size is None
    }
}

pub open spec fn is_video_item_for(item: MessageItem, u: UploadedFile) -> bool {
    &&& item.item_type == Some(MessageItemType::Video)
    &&& only_parts(item, false, false, false, true)
    &&& item.video_item matches Some(vi) && {
        &&& vi.media matches Some(m) && is_cdn_media_for(m, u)
        &&& vi.video_size == Some(u.ciphertext_size)
        &&& vi.play_length is None
        &&& vi.video_md5 is None
        &&& vi.thumb_media is None
        &&& vi.thumb_size is None
        &&& vi.thumb_height is None
        &&& vi.thumb_width is None
    }
}

pub open spec fn is_file_item_for(item: MessageItem, u: UploadedFile, file_name: Seq<char>) -> bool {
    &&& item.item_type == Some(MessageItemType::File)
    &&& only_parts(item, false, false, true, false)
    &&& item.file_item matches Some(fi) && {
        &&& fi.media matches Some(m) && is_cdn_media_for(m, u)
        &&& opt_view(fi.file_name) == Some(file_name)
        &&& fi.md5 is None
        &&& opt_view(fi.len) == Some(spec_decimal(u.file_size as nat))
    }
}

/// The length a file item announces reads back as the uploaded file's size:
/// `len_bytes` of the item `file_message_item` builds is `file_size`.
pub proof fn lemma_file_item_len_reads_back(item: MessageItem, u: UploadedFile, file_name: Seq<char>)
    requires
        is_file_item_for(item, u, file_name),
    ensures
        item.file_item matches Some(fi) && fi.len matches Some(l) && spec_parse_u64(l@) == Some(u.file_size),
{
    lemma_decimal_parses_back(u.file_size);
}

/// The message item of an uploaded image.
pub fn image_message_item(uploaded: &UploadedFile) -> (r: MessageItem)
    ensures
        is_image_item_for(r, *uploaded),
{
    MessageItem {
        item_type: Some(MessageItemType::Image),
        image_item: Some(
            ImageItem {
                media: Some(cdn_media(uploaded)),
                mid_size: Some(uploaded.ciphertext_size),
                ..ImageItem::default()
            },
        ),
        ..MessageItem::default()
    }
}

/// The message item of an uploaded video.
pub fn video_message_item(uploaded: &UploadedFile) -> (r: MessageItem)
    ensures
        is_video_item_for(r, *uploaded),
{
    MessageItem {
        item_type: Some(MessageItemType::Video),
        video_item: Some(
            VideoItem {
                media: Some(cdn_media(uploaded)),
                video_size: Some(uploaded.ciphertext_size),
                ..VideoItem::default()
            },
        ),
        ..MessageItem::default()
    }
}

/// The message item of an uploaded file attachment.
pub fn file_message_item(uploaded: &UploadedFile, file_name: &str) -> (r: MessageItem)
    ensures
        is_file_item_for(r, *uploaded, file_name@),
{
    MessageItem {
        item_type: Some(MessageItemType::File),
        file_item: Some(
            FileItem {
                media: Some(cdn_media(uploaded)),
                file_name: Some(owned(file_name)),
                len: Some(decimal_string(uploaded.file_size)),
                ..FileItem::default()
            },
        ),
        ..MessageItem::default()
    }
}

// ── Sends ───────────────────────────────────────────────────────────────────

/// Sending text: the request and the message id the send returns (the
/// request's client id). An empty context token is refused.
pub fn prepare_text_send(to: &str, text: &str, context_token: &str) -> (r: Result<(SendMessageRequest, String), Error>)
    ensures
        context_token@.len() == 0 ==> (r matches Err(e) && e is MissingContextToken),
        context_token@.len() > 0 ==> (r matches Ok((req, id)) && is_outgoing(req.msg, to@, context_token@, id@)
            && has_text_items(req.msg, text@) && req.base_info is None && exists|u: Seq<char>|
            is_uuid_v4_text(u) && id@ == CLIENT_ID_PREFIX@ + u),
{
    if context_token.unicode_len() == 0 {
        return Err(Error::MissingContextToken);
    }
    let id = generate_client_id();
    let req = build_text_message_with_id(to, text, context_token, id.clone());
    Ok((req, id))
}

/// The requests of a media send: a text message first where there is text,
/// then the media message, whose client id the send returns.
#[derive(Debug)]
pub struct MediaSend {
    pub text_request: Option<SendMessageRequest>,
    pub media_request: SendMessageRequest,
    pub msg_id: String,
}

/// Sending a media item with an optional caption. An empty context token is
/// refused.
pub fn prepare_media_send(to: &str, text: &str, media_item: MessageItem, context_token: &str) -> (r: Result<
    MediaSend,
    Error,
>)
    ensures
        context_token@.len() == 0 ==> (r matches Err(e) && e is MissingContextToken),
        context_token@.len() > 0 ==> (r matches Ok(s) && {
            &&& is_outgoing(s.media_request.msg, to@, context_token@, s.msg_id@)
            &&& exists|u: Seq<char>| is_uuid_v4_text(u) && s.msg_id@ == CLIENT_ID_PREFIX@ + u
            &&& s.media_request.msg.spec_items() matches Some(items) && items.len() == 1 && items[0] == media_item
            &&& s.media_request.base_info is None
            &&& (text@.len() == 0 <==> s.text_request is None)
            &&& (s.text_request matches Some(t) ==> (exists|u: Seq<char>| is_uuid_v4_text(u) && #[trigger] is_outgoing(
                t.msg,
                to@,
                context_token@,
                CLIENT_ID_PREFIX@ + u,
            )) && has_text_items(t.msg, text@) && t.base_info is None)
        }),
{
    if context_token.unicode_len() == 0 {
        return Err(Error::MissingContextToken);
    }
    let text_request = if text.unicode_len() > 0 {
        Some(build_text_message(to, text, context_token))
    } else {
        None
    };
    let id = generate_client_id();
    let media_request = build_media_item_request_with_id(to, media_item, context_token, id.clone());
    Ok(MediaSend { text_request, media_request, msg_id: id })
}

/// How a file is sent, by its MIME type.
#[derive(Debug, Clone, Copy, PartialEq, Eq, Structural)]
pub enum MediaKind {
    Image,
    Video,
    File,
}

pub open spec fn spec_media_kind(mime: Seq<char>) -> MediaKind {
    if mime.len() >= 6 && mime.take(6) == "image/"@ {
        MediaKind::Image
    } else if mime.len() >= 6 && mime.take(6) == "video/"@ {
        MediaKind::Video
    } else {
        MediaKind::File
    }
}

/// Route a file to the image, video or file send by the MIME type of its
/// extension.
pub fn media_kind_for_path(path: &str) -> (r: MediaKind)
    ensures
        r == spec_media_kind(spec_mime_from_extension(path_extension(path@))),
{
    let mime = mime_from_path(path);
    proof {
        reveal_strlit("image/");
        reveal_strlit("video/");
    }
    if starts_with(mime, "image/") {
        MediaKind::Image
    } else if starts_with(mime, "video/") {
        MediaKind::Video
    } else {
        MediaKind::File
    }
}

/// The name of the last component of a path, as `Path::file_name` gives it
/// (lossily converted to text).
pub uninterp spec fn path_file_name(path: Seq<char>) -> Option<Seq<char>>;

/// `std::path::Path::new(path).file_name()`, converted with `to_string_lossy`.
#[verifier::external_body]
fn path_file_name_of(path: &str) -> (r: Option<String>)
    ensures
        match r {
            Some(n) => path_file_name(path@) == Some(n@),
            None => path_file_name(path@) is None,
        },
{
    std::path::Path::new(path).file_name().map(|n| n.to_string_lossy().to_string())
}

/// The name a file attachment is sent under: its file name, or `file`.
pub fn attachment_name(path: &str) -> (r: String)
    ensures
        r@ == (match path_file_name(path@) {
            Some(n) => n,
            None => "file"@,
        }),
{
    match path_file_name_of(path) {
        Some(n) => n,
        None => owned("file"),
    }
}

} // verus!
