//! Wire types of the iLink Bot API and the queries that read messages.
use vstd::prelude::*;
use vstd::string::StringExecFns;

use crate::text::{parse_u64, spec_parse_u64};

verus! {

// ── Enums ───────────────────────────────────────────────────────────────────

/// Kind of one item inside a message.
#[derive(Debug, Clone, Copy, PartialEq, Eq, Structural)]
#[non_exhaustive]
pub enum MessageItemType {
    Text,
    Image,
    Voice,
    File,
    Video,
}

impl MessageItemType {
    /// Protocol code of the item kind.
    pub open spec fn code(self) -> u8 {
        match self {
            MessageItemType::Text => 1,
            MessageItemType::Image => 2,
            MessageItemType::Voice => 3,
            MessageItemType::File => 4,
            MessageItemType::Video => 5,
        }
    }

    /// The item kind that a protocol code names, or the code back.
    pub open spec fn spec_decode(v: u8) -> Result<MessageItemType, u8> {
        if v == 1 {
            Ok(MessageItemType::Text)
        } else if v == 2 {
            Ok(MessageItemType::Image)
        } else if v == 3 {
            Ok(MessageItemType::Voice)
        } else if v == 4 {
            Ok(MessageItemType::File)
        } else if v == 5 {
            Ok(MessageItemType::Video)
        } else {
            Err(v)
        }
    }

    pub fn to_u8(self) -> (r: u8)
        ensures
            r == self.code(),
    {
        match self {
            MessageItemType::Text => 1,
            MessageItemType::Image => 2,
            MessageItemType::Voice => 3,
            MessageItemType::File => 4,
            MessageItemType::Video => 5,
        }
    }

    pub fn try_from_u8(v: u8) -> (r: Result<MessageItemType, u8>)
        ensures
            r == Self::spec_decode(v),
    {
        match v {
            1 => Ok(MessageItemType::Text),
            2 => Ok(MessageItemType::Image),
            3 => Ok(MessageItemType::Voice),
            4 => Ok(MessageItemType::File),
            5 => Ok(MessageItemType::Video),
            _ => Err(v),
        }
    }
}

/// Kind of media announced to `getUploadUrl`.
#[derive(Debug, Clone, Copy, PartialEq, Eq, Structural)]
#[non_exhaustive]
pub enum UploadMediaType {
    Image,
    Video,
    File,
    Voice,
}

impl UploadMediaType {
    pub open spec fn code(self) -> u8 {
        match self {
            UploadMediaType::Image => 1,
            UploadMediaType::Video => 2,
            UploadMediaType::File => 3,
            UploadMediaType::Voice => 4,
        }
    }

    pub open spec fn spec_decode(v: u8) -> Result<UploadMediaType, u8> {
        if v == 1 {
            Ok(UploadMediaType::Image)
        } else if v == 2 {
            Ok(UploadMediaType::Video)
        } else if v == 3 {
            Ok(UploadMediaType::File)
        } else if v == 4 {
            Ok(UploadMediaType::Voice)
        } else {
            Err(v)
        }
    }

    pub fn to_u8(self) -> (r: u8)
        ensures
            r == self.code(),
    {
        match self {
            UploadMediaType::Image => 1,
            UploadMediaType::Video => 2,
            UploadMediaType::File => 3,
            UploadMediaType::Voice => 4,
        }
    }

    pub fn try_from_u8(v: u8) -> (r: Result<UploadMediaType, u8>)
        ensures
            r == Self::spec_decode(v),
    {
        match v {
            1 => Ok(UploadMediaType::Image),
            2 => Ok(UploadMediaType::Video),
            3 => Ok(UploadMediaType::File),
            4 => Ok(UploadMediaType::Voice),
            _ => Err(v),
        }
    }
}

/// Who sent a message.
#[derive(Debug, Clone, Copy, PartialEq, Eq, Structural)]
#[non_exhaustive]
pub enum MessageType {
    NoType,
    User,
    Bot,
}

impl MessageType {
    pub open spec fn code(self) -> u8 {
        match self {
            MessageType::NoType => 0,
            MessageType::User => 1,
            MessageType::Bot => 2,
        }
    }

    pub open spec fn spec_decode(v: u8) -> Result<MessageType, u8> {
        if v == 0 {
            Ok(MessageType::NoType)
        } else if v == 1 {
            Ok(MessageType::User)
        } else if v == 2 {
            Ok(MessageType::Bot)
        } else {
            Err(v)
        }
    }

    pub fn to_u8(self) -> (r: u8)
        ensures
            r == self.code(),
    {
        match self {
            MessageType::NoType => 0,
            MessageType::User => 1,
            MessageType::Bot => 2,
        }
    }

    pub fn try_from_u8(v: u8) -> (r: Result<MessageType, u8>)
        ensures
            r == Self::spec_decode(v),
    {
        match v {
            0 => Ok(MessageType::NoType),
            1 => Ok(MessageType::User),
            2 => Ok(MessageType::Bot),
            _ => Err(v),
        }
    }
}

/// Generation state of a message.
#[derive(Debug, Clone, Copy, PartialEq, Eq, Structural)]
#[non_exhaustive]
pub enum MessageState {
    New,
    Generating,
    Finish,
}

impl MessageState {
    pub open spec fn code(self) -> u8 {
        match self {
            MessageState::New => 0,
            MessageState::Generating => 1,
            MessageState::Finish => 2,
        }
    }

    pub open spec fn spec_decode(v: u8) -> Result<MessageState, u8> {
        if v == 0 {
            Ok(MessageState::New)
        } else if v == 1 {
            Ok(MessageState::Generating)
        } else if v == 2 {
            Ok(MessageState::Finish)
        } else {
            Err(v)
        }
    }

    pub fn to_u8(self) -> (r: u8)
        ensures
            r == self.code(),
    {
        match self {
            MessageState::New => 0,
            MessageState::Generating => 1,
            MessageState::Finish => 2,
        }
    }

    pub fn try_from_u8(v: u8) -> (r: Result<MessageState, u8>)
        ensures
            r == Self::spec_decode(v),
    {
        match v {
            0 => Ok(MessageState::New),
            1 => Ok(MessageState::Generating),
            2 => Ok(MessageState::Finish),
            _ => Err(v),
        }
    }
}

/// Typing indicator state.
#[derive(Debug, Clone, Copy, PartialEq, Eq, Structural)]
#[non_exhaustive]
pub enum TypingStatus {
    Typing,
    Cancel,
}

impl TypingStatus {
    pub open spec fn code(self) -> u8 {
        match self {
            TypingStatus::Typing => 1,
            TypingStatus::Cancel => 2,
        }
    }

    pub open spec fn spec_decode(v: u8) -> Result<TypingStatus, u8> {
        if v == 1 {
            Ok(TypingStatus::Typing)
        } else if v == 2 {
            Ok(TypingStatus::Cancel)
        } else {
            Err(v)
        }
    }

    pub fn to_u8(self) -> (r: u8)
        ensures
            r == self.code(),
    {
        match self {
            TypingStatus::Typing => 1,
            TypingStatus::Cancel => 2,
        }
    }

    pub fn try_from_u8(v: u8) -> (r: Result<TypingStatus, u8>)
        ensures
            r == Self::spec_decode(v),
    {
        match v {
            1 => Ok(TypingStatus::Typing),
            2 => Ok(TypingStatus::Cancel),
            _ => Err(v),
        }
    }
}

/// Every code an enum gives decodes back to the same variant, and every code
/// that decodes is the code of the variant it decodes to.
pub proof fn lemma_codes_roundtrip()
    ensures
        forall|t: MessageItemType| MessageItemType::spec_decode(#[trigger] t.code()) == Ok::<MessageItemType, u8>(t),
        forall|v: u8| #[trigger] MessageItemType::spec_decode(v) matches Ok(t) ==> t.code() == v,
        forall|t: UploadMediaType| UploadMediaType::spec_decode(#[trigger] t.code()) == Ok::<UploadMediaType, u8>(t),
        forall|v: u8| #[trigger] UploadMediaType::spec_decode(v) matches Ok(t) ==> t.code() == v,
        forall|t: MessageType| MessageType::spec_decode(#[trigger] t.code()) == Ok::<MessageType, u8>(t),
        forall|v: u8| #[trigger] MessageType::spec_decode(v) matches Ok(t) ==> t.code() == v,
        forall|t: MessageState| MessageState::spec_decode(#[trigger] t.code()) == Ok::<MessageState, u8>(t),
        forall|v: u8| #[trigger] MessageState::spec_decode(v) matches Ok(t) ==> t.code() == v,
        forall|t: TypingStatus| TypingStatus::spec_decode(#[trigger] t.code()) == Ok::<TypingStatus, u8>(t),
        forall|v: u8| #[trigger] TypingStatus::spec_decode(v) matches Ok(t) ==> t.code() == v,
{
}

// ── Common ──────────────────────────────────────────────────────────────────

#[derive(Debug, Clone)]
pub struct BaseInfo {
    pub channel_version: Option<String>,
}

// ── CDN Media ───────────────────────────────────────────────────────────────

#[derive(Debug, Clone)]
pub struct CdnMedia {
    pub encrypt_query_param: Option<String>,
    pub aes_key: Option<String>,
    pub encrypt_type: Option<u8>,
}

// ── Message Items ───────────────────────────────────────────────────────────

#[derive(Debug, Clone)]
pub struct TextItem {
    pub text: Option<String>,
}

#[derive(Debug, Clone)]
pub struct ImageItem {
    pub media: Option<CdnMedia>,
    pub thumb_media: Option<CdnMedia>,
    /// Raw AES-128 key as hex string; preferred for inbound decryption.
    pub aeskey: Option<String>,
    pub url: Option<String>,
    pub mid_size: Option<u64>,
    pub thumb_size: Option<u64>,
    pub thumb_height: Option<u32>,
    pub thumb_width: Option<u32>,
    pub hd_size: Option<u64>,
}

#[derive(Debug, Clone)]
pub struct VoiceItem {
    pub media: Option<CdnMedia>,
    pub encode_type: Option<u8>,
    pub bits_per_sample: Option<u32>,
    pub sample_rate: Option<u32>,
    pub playtime: Option<u64>,
    /// Voice-to-text transcription.
    pub text: Option<String>,
}

#[derive(Debug, Clone)]
pub struct FileItem {
    pub media: Option<CdnMedia>,
    pub file_name: Option<String>,
    pub md5: Option<String>,
    pub len: Option<String>,
}

impl FileItem {
    /// File length in bytes (parsed from the protocol's string field).
    pub fn len_bytes(&self) -> (r: Option<u64>)
        ensures
            r == (match self.len {
                Some(s) => spec_parse_u64(s@),
                None => None,
            }),
    {
        match &self.len {
            Some(s) => parse_u64(s.as_str()),
            None => None,
        }
    }
}

#[derive(Debug, Clone)]
pub struct VideoItem {
    pub media: Option<CdnMedia>,
    pub video_size: Option<u64>,
    pub play_length: Option<u64>,
    pub video_md5: Option<String>,
    pub thumb_media: Option<CdnMedia>,
    pub thumb_size: Option<u64>,
    pub thumb_height: Option<u32>,
    pub thumb_width: Option<u32>,
}

#[derive(Debug)]
pub struct RefMessage {
    pub message_item: Option<MessageItem>,
    pub title: Option<String>,
}

#[derive(Debug)]
pub struct MessageItem {
    pub item_type: Option<MessageItemType>,
    pub create_time_ms: Option<u64>,
    pub update_time_ms: Option<u64>,
    pub is_completed: Option<bool>,
    pub msg_id: Option<String>,
    pub ref_msg: Option<Box<RefMessage>>,
    pub text_item: Option<TextItem>,
    pub image_item: Option<ImageItem>,
    pub voice_item: Option<VoiceItem>,
    pub file_item: Option<FileItem>,
    pub video_item: Option<VideoItem>,
}

impl MessageItem {
    /// An item is media when its kind is image, voice, file or video.
    pub open spec fn spec_is_media(self) -> bool {
        match self.item_type {
            Some(MessageItemType::Image) => true,
            Some(MessageItemType::Voice) => true,
            Some(MessageItemType::File) => true,
            Some(MessageItemType::Video) => true,
            _ => false,
        }
    }

    /// The item is of the given kind.
    pub open spec fn has_type(self, t: MessageItemType) -> bool {
        self.item_type == Some(t)
    }

    /// The text of the item's text part, where it has one.
    pub open spec fn spec_text_of(self) -> Option<Seq<char>> {
        match self.text_item {
            Some(ti) => match ti.text {
                Some(s) => Some(s@),
                None => None,
            },
            None => None,
        }
    }

    /// The transcription of the item's voice part, where it has one.
    pub open spec fn spec_voice_text_of(self) -> Option<Seq<char>> {
        match self.voice_item {
            Some(vi) => match vi.text {
                Some(s) => Some(s@),
                None => None,
            },
            None => None,
        }
    }

    pub fn is_media(&self) -> (r: bool)
        ensures
            r == self.spec_is_media(),
    {
        match self.item_type {
            Some(MessageItemType::Image) => true,
            Some(MessageItemType::Voice) => true,
            Some(MessageItemType::File) => true,
            Some(MessageItemType::Video) => true,
            _ => false,
        }
    }

    fn is_type(&self, t: MessageItemType) -> (r: bool)
        ensures
            r == self.has_type(t),
    {
        match self.item_type {
            Some(k) => k == t,
            None => false,
        }
    }

    fn text_of(&self) -> (r: Option<&str>)
        ensures
            match r {
                Some(s) => self.spec_text_of() == Some(s@),
                None => self.spec_text_of() is None,
            },
    {
        match &self.text_item {
            Some(ti) => match &ti.text {
                Some(s) => Some(s.as_str()),
                None => None,
            },
            None => None,
        }
    }

    fn voice_text_of(&self) -> (r: Option<&str>)
        ensures
            match r {
                Some(s) => self.spec_voice_text_of() == Some(s@),
                None => self.spec_voice_text_of() is None,
            },
    {
        match &self.voice_item {
            Some(vi) => match &vi.text {
                Some(s) => Some(s.as_str()),
                None => None,
            },
            None => None,
        }
    }
}

// ── Message ─────────────────────────────────────────────────────────────────

#[derive(Debug)]
pub struct Message {
    pub seq: Option<u64>,
    pub message_id: Option<u64>,
    pub from_user_id: Option<String>,
    pub to_user_id: Option<String>,
    pub client_id: Option<String>,
    pub create_time_ms: Option<u64>,
    pub update_time_ms: Option<u64>,
    pub delete_time_ms: Option<u64>,
    pub session_id: Option<String>,
    pub group_id: Option<String>,
    pub message_type: Option<MessageType>,
    pub message_state: Option<MessageState>,
    pub item_list: Option<Vec<MessageItem>>,
    pub context_token: Option<String>,
}

/// Index of the first item at or after `i` of kind `t`, or `items.len()`.
pub open spec fn first_of_type(items: Seq<MessageItem>, t: MessageItemType, i: int) -> int
    decreases items.len() - i,
{
    if i >= items.len() {
        items.len() as int
    } else if items[i].has_type(t) {
        i
    } else {
        first_of_type(items, t, i + 1)
    }
}

/// Index of the first media item at or after `i`, or `items.len()`.
pub open spec fn first_media(items: Seq<MessageItem>, i: int) -> int
    decreases items.len() - i,
{
    if i >= items.len() {
        items.len() as int
    } else if items[i].spec_is_media() {
        i
    } else {
        first_media(items, i + 1)
    }
}

proof fn lemma_first_of_type_range(items: Seq<MessageItem>, t: MessageItemType, i: int)
    requires
        0 <= i <= items.len(),
    ensures
        i <= first_of_type(items, t, i) <= items.len(),
    decreases items.len() - i,
{
    if i < items.len() {
        lemma_first_of_type_range(items, t, i + 1);
    }
}

proof fn lemma_first_media_range(items: Seq<MessageItem>, i: int)
    requires
        0 <= i <= items.len(),
    ensures
        i <= first_media(items, i) <= items.len(),
    decreases items.len() - i,
{
    if i < items.len() {
        lemma_first_media_range(items, i + 1);
    }
}

/// The text part (or, when `voice`, the transcription) of the first item of
/// kind `t`; `None` where there is no such item or it holds none.
pub open spec fn spec_first_item_text(items: Seq<MessageItem>, t: MessageItemType, voice: bool) -> Option<
    Seq<char>,
> {
    let k = first_of_type(items, t, 0);
    if k < items.len() {
        if voice {
            items[k].spec_voice_text_of()
        } else {
            items[k].spec_text_of()
        }
    } else {
        None
    }
}

/// `"[引用: "` + parts joined by `" | "` + `"]\n"` + body, or the body alone
/// when no part is left.
pub open spec fn spec_quoted(parts: Seq<Seq<char>>, body: Seq<char>) -> Seq<char> {
    if parts.len() == 0 {
        body
    } else if parts.len() == 1 {
        "[引用: "@ + parts[0] + "]\n"@ + body
    } else {
        "[引用: "@ + parts[0] + " | "@ + parts[1] + "]\n"@ + body
    }
}

/// Parts of the quote prefix: the non-empty title, then the non-empty text of
/// the quoted item.
pub open spec fn spec_quote_parts(r: RefMessage) -> Seq<Seq<char>> {
    let title_part: Seq<Seq<char>> = match r.title {
        Some(t) => if t@.len() > 0 {
            seq![t@]
        } else {
            seq![]
        },
        None => seq![],
    };
    let body_part: Seq<Seq<char>> = match r.message_item {
        Some(item) => match item.spec_text_of() {
            Some(s) => if s.len() > 0 {
                seq![s]
            } else {
                seq![]
            },
            None => seq![],
        },
        None => seq![],
    };
    title_part + body_part
}

/// The text of a text item with its quote context.
pub open spec fn spec_text_with_quote(item: MessageItem, body: Seq<char>) -> Seq<char> {
    match item.ref_msg {
        Some(r) => {
            let skip = match r.message_item {
                Some(ri) => ri.spec_is_media(),
                None => false,
            };
            if skip {
                body
            } else {
                spec_quoted(spec_quote_parts(*r), body)
            }
        },
        None => body,
    }
}

/// What `extract_text` gives for a list of items.
pub open spec fn spec_extract_text(items: Seq<MessageItem>) -> Option<Seq<char>> {
    let k = first_of_type(items, MessageItemType::Text, 0);
    if k < items.len() {
        match items[k].spec_text_of() {
            Some(body) => Some(spec_text_with_quote(items[k], body)),
            None => None,
        }
    } else {
        spec_first_item_text(items, MessageItemType::Voice, true)
    }
}

impl Message {
    /// Items of the message, empty where there is no list.
    pub open spec fn spec_items(self) -> Option<Seq<MessageItem>> {
        match self.item_list {
            Some(v) => Some(v@),
            None => None,
        }
    }

    /// The text of the first `Text` item; `None` where that item holds no
    /// text, even if a later one does.
    pub open spec fn spec_text(self) -> Option<Seq<char>> {
        match self.spec_items() {
            Some(items) => spec_first_item_text(items, MessageItemType::Text, false),
            None => None,
        }
    }

    /// The transcription of the first `Voice` item; `None` where that item
    /// holds none, even if a later one does.
    pub open spec fn spec_voice_text(self) -> Option<Seq<char>> {
        match self.spec_items() {
            Some(items) => spec_first_item_text(items, MessageItemType::Voice, true),
            None => None,
        }
    }

    fn first_item_text_in(items: &Vec<MessageItem>, t: MessageItemType, voice: bool) -> (r: Option<&str>)
        ensures
            match r {
                Some(s) => spec_first_item_text(items@, t, voice) == Some(s@),
                None => spec_first_item_text(items@, t, voice) is None,
            },
    {
        let n = items.len();
        let mut i: usize = 0;
        proof {
            lemma_first_of_type_range(items@, t, 0);
        }
        while i < n
            invariant
                n == items@.len(),
                0 <= i <= n,
                first_of_type(items@, t, 0) == first_of_type(items@, t, i as int),
            decreases n - i,
        {
            let item = &items[i];
            if item.is_type(t) {
                proof {
                    assert(first_of_type(items@, t, i as int) == i as int);
                }
                return if voice {
                    item.voice_text_of()
                } else {
                    item.text_of()
                };
            }
            i += 1;
        }
        None
    }

    /// Extract text from the first `Text` item only.
    pub fn text(&self) -> (r: Option<&str>)
        ensures
            match r {
                Some(s) => self.spec_text() == Some(s@),
                None => self.spec_text() is None,
            },
    {
        match &self.item_list {
            Some(items) => Self::first_item_text_in(items, MessageItemType::Text, false),
            None => None,
        }
    }

    /// Extract voice-to-text transcription from the first `Voice` item.
    pub fn voice_text(&self) -> (r: Option<&str>)
        ensures
            match r {
                Some(s) => self.spec_voice_text() == Some(s@),
                None => self.spec_voice_text() is None,
            },
    {
        match &self.item_list {
            Some(items) => Self::first_item_text_in(items, MessageItemType::Voice, true),
            None => None,
        }
    }

    /// Extract any textual content: text item first, then voice transcription.
    pub fn any_text(&self) -> (r: Option<&str>)
        ensures
            match r {
                Some(s) => Some(s@) == (if self.spec_text() is Some {
                    self.spec_text()
                } else {
                    self.spec_voice_text()
                }),
                None => self.spec_text() is None && self.spec_voice_text() is None,
            },
    {
        match self.text() {
            Some(t) => Some(t),
            None => self.voice_text(),
        }
    }

    /// The message holds no `Text` item.
    pub open spec fn has_no_text_item(self) -> bool {
        match self.spec_items() {
            Some(items) => first_of_type(items, MessageItemType::Text, 0) == items.len(),
            None => true,
        }
    }

    pub open spec fn spec_extract(self) -> Option<Seq<char>> {
        match self.spec_items() {
            Some(items) => spec_extract_text(items),
            None => None,
        }
    }

    /// Extract text with quoted-message context prefix.
    ///
    /// If the first text item has a `ref_msg` that is not a media item,
    /// prepends `[引用: <title> | <body>]\n` to the text body.
    /// Falls back to voice transcription if no text item exists: then the
    /// result is what `voice_text` gives.
    pub fn extract_text(&self) -> (r: Option<String>)
        ensures
            match r {
                Some(s) => self.spec_extract() == Some(s@),
                None => self.spec_extract() is None,
            },
            self.has_no_text_item() ==> match r {
                Some(s) => self.spec_voice_text() == Some(s@),
                None => self.spec_voice_text() is None,
            },
    {
        if self.item_list.is_none() {
            return None;
        }
        let items = self.item_list.as_ref().unwrap();
        let n = items.len();
        let mut i: usize = 0;
        proof {
            lemma_first_of_type_range(items@, MessageItemType::Text, 0);
        }
        while i < n
            invariant
                n == items@.len(),
                0 <= i <= n,
                self.spec_items() == Some(items@),
                first_of_type(items@, MessageItemType::Text, 0) == first_of_type(
                    items@,
                    MessageItemType::Text,
                    i as int,
                ),
            decreases n - i,
        {
            let item = &items[i];
            if item.is_type(MessageItemType::Text) {
                proof {
                    assert(first_of_type(items@, MessageItemType::Text, i as int) == i as int);
                    assert(self.spec_items() == Some(items@));
                }
                let body = match item.text_of() {
                    Some(b) => b,
                    None => return None,
                };
                return Some(Self::with_quote(item, body));
            }
            i += 1;
        }
        proof {
            assert(first_of_type(items@, MessageItemType::Text, 0) == items@.len());
        }
        match Self::first_item_text_in(items, MessageItemType::Voice, true) {
            Some(vt) => Some(vt.to_owned()),
            None => None,
        }
    }

    fn with_quote(item: &MessageItem, body: &str) -> (r: String)
        ensures
            r@ == spec_text_with_quote(*item, body@),
    {
        let ref_msg = match &item.ref_msg {
            Some(r) => r,
            None => return body.to_owned(),
        };
        if let Some(ref_item) = &ref_msg.message_item {
            if ref_item.is_media() {
                return body.to_owned();
            }
        }
        let mut title_part: Option<&str> = None;
        if let Some(title) = &ref_msg.title {
            if title.as_str().unicode_len() > 0 {
                title_part = Some(title.as_str());
            }
        }
        let mut body_part: Option<&str> = None;
        if let Some(ref_item) = &ref_msg.message_item {
            if let Some(ref_text) = ref_item.text_of() {
                if ref_text.unicode_len() > 0 {
                    body_part = Some(ref_text);
                }
            }
        }
        let ghost parts = spec_quote_parts(**ref_msg);
        match (title_part, body_part) {
            (None, None) => {
                assert(parts =~= Seq::<Seq<char>>::empty());
                body.to_owned()
            },
            (Some(a), None) => {
                assert(parts =~= seq![a@]);
                let mut s = String::from_str("[引用: ");
                s.append(a);
                s.append("]\n");
                s.append(body);
                s
            },
            (None, Some(b)) => {
                assert(parts =~= seq![b@]);
                let mut s = String::from_str("[引用: ");
                s.append(b);
                s.append("]\n");
                s.append(body);
                s
            },
            (Some(a), Some(b)) => {
                assert(parts =~= seq![a@, b@]);
                let mut s = String::from_str("[引用: ");
                s.append(a);
                s.append(" | ");
                s.append(b);
                s.append("]\n");
                s.append(body);
                s
            },
        }
    }

    pub open spec fn spec_media_index(self) -> Option<int> {
        match self.spec_items() {
            Some(items) => {
                let k = first_media(items, 0);
                if k < items.len() {
                    Some(k)
                } else {
                    None
                }
            },
            None => None,
        }
    }

    /// Find the first media item in the message.
    pub fn media_item(&self) -> (r: Option<&MessageItem>)
        ensures
            match r {
                Some(item) => self.spec_media_index() matches Some(k) && *item == self.spec_items()->0[k],
                None => self.spec_media_index() is None,
            },
    {
        if self.item_list.is_none() {
            return None;
        }
        let items = self.item_list.as_ref().unwrap();
        let n = items.len();
        let mut i: usize = 0;
        proof {
            lemma_first_media_range(items@, 0);
        }
        while i < n
            invariant
                n == items@.len(),
                0 <= i <= n,
                self.spec_items() == Some(items@),
                first_media(items@, 0) == first_media(items@, i as int),
            decreases n - i,
        {
            if items[i].is_media() {
                proof {
                    assert(first_media(items@, i as int) == i as int);
                    assert(self.spec_items() == Some(items@));
                }
                return Some(&items[i]);
            }
            i += 1;
        }
        None
    }
}

// ── GetUpdates ──────────────────────────────────────────────────────────────

#[derive(Debug, Clone)]
pub struct GetUpdatesRequest {
    pub get_updates_buf: String,
    pub base_info: BaseInfo,
}

#[derive(Debug)]
pub struct GetUpdatesResponse {
    pub ret: Option<i32>,
    pub errcode: Option<i32>,
    pub errmsg: Option<String>,
    pub msgs: Option<Vec<Message>>,
    pub get_updates_buf: Option<String>,
    pub longpolling_timeout_ms: Option<u64>,
}

// ── SendMessage ─────────────────────────────────────────────────────────────

#[derive(Debug)]
pub struct SendMessageRequest {
    pub msg: Message,
    pub base_info: Option<BaseInfo>,
}

// ── GetUploadUrl ────────────────────────────────────────────────────────────

#[derive(Debug, Clone)]
pub struct GetUploadUrlRequest {
    pub filekey: Option<String>,
    pub media_type: Option<UploadMediaType>,
    pub to_user_id: Option<String>,
    pub rawsize: Option<u64>,
    pub rawfilemd5: Option<String>,
    pub filesize: Option<u64>,
    pub thumb_rawsize: Option<u64>,
    pub thumb_rawfilemd5: Option<String>,
    pub thumb_filesize: Option<u64>,
    pub no_need_thumb: Option<bool>,
    pub aeskey: Option<String>,
    pub base_info: Option<BaseInfo>,
}

#[derive(Debug, Clone)]
pub struct GetUploadUrlResponse {
    pub ret: Option<i32>,
    pub errmsg: Option<String>,
    pub upload_param: Option<String>,
    pub thumb_upload_param: Option<String>,
}

// ── GetConfig ───────────────────────────────────────────────────────────────

#[derive(Debug, Clone)]
pub struct GetConfigRequest {
    pub ilink_user_id: String,
    pub context_token: Option<String>,
    pub base_info: Option<BaseInfo>,
}

#[derive(Debug, Clone)]
pub struct GetConfigResponse {
    pub ret: Option<i32>,
    pub errmsg: Option<String>,
    pub typing_ticket: Option<String>,
}

// ── SendTyping ──────────────────────────────────────────────────────────────

#[derive(Debug, Clone)]
pub struct SendTypingRequest {
    pub ilink_user_id: String,
    pub typing_ticket: String,
    pub status: TypingStatus,
    pub base_info: Option<BaseInfo>,
}

// ── QR Login ────────────────────────────────────────────────────────────────

#[derive(Debug, Clone)]
pub struct QrCodeResponse {
    pub qrcode: String,
    pub qrcode_img_content: String,
}

#[derive(Debug, Clone, Copy, PartialEq, Eq, Structural)]
#[non_exhaustive]
pub enum QrStatus {
    Wait,
    Scaned,
    Confirmed,
    Expired,
}

#[derive(Debug, Clone)]
pub struct QrStatusResponse {
    pub status: QrStatus,
    pub bot_token: Option<String>,
    pub ilink_bot_id: Option<String>,
    pub baseurl: Option<String>,
    pub ilink_user_id: Option<String>,
}

// ── Defaults ────────────────────────────────────────────────────────────────

impl Default for BaseInfo {
    /// Every field absent.
    fn default() -> (r: Self)
        ensures
            r.channel_version is None,
    {
        BaseInfo {
            channel_version: None,
        }
    }
}

impl Default for CdnMedia {
    /// Every field absent.
    fn default() -> (r: Self)
        ensures
            r.encrypt_query_param is None,
            r.aes_key is None,
            r.encrypt_type is None,
    {
        CdnMedia {
            encrypt_query_param: None,
            aes_key: None,
            encrypt_type: None,
        }
    }
}

impl Default for TextItem {
    /// Every field absent.
    fn default() -> (r: Self)
        ensures
            r.text is None,
    {
        TextItem {
            text: None,
        }
    }
}

impl Default for ImageItem {
    /// Every field absent.
    fn default() -> (r: Self)
        ensures
            r.media is None,
            r.thumb_media is None,
            r.aeskey is None,
            r.url is None,
            r.mid_size is None,
            r.thumb_size is None,
            r.thumb_height is None,
            r.thumb_width is None,
            r.hd_size is None,
    {
        ImageItem {
            media: None,
            thumb_media: None,
            aeskey: None,
            url: None,
            mid_size: None,
            thumb_size: None,
            thumb_height: None,
            thumb_width: None,
            hd_size: None,
        }
    }
}

impl Default for VoiceItem {
    /// Every field absent.
    fn default() -> (r: Self)
        ensures
            r.media is None,
            r.encode_type is None,
            r.bits_per_sample is None,
            r.sample_rate is None,
            r.playtime is None,
            r.text is None,
    {
        VoiceItem {
            media: None,
            encode_type: None,
            bits_per_sample: None,
            sample_rate: None,
            playtime: None,
            text: None,
        }
    }
}

impl Default for FileItem {
    /// Every field absent.
    fn default() -> (r: Self)
        ensures
            r.media is None,
            r.file_name is None,
            r.md5 is None,
            r.len is None,
    {
        FileItem {
            media: None,
            file_name: None,
            md5: None,
            len: None,
        }
    }
}

impl Default for VideoItem {
    /// Every field absent.
    fn default() -> (r: Self)
        ensures
            r.media is None,
            r.video_size is None,
            r.play_length is None,
            r.video_md5 is None,
            r.thumb_media is None,
            r.thumb_size is None,
            r.thumb_height is None,
            r.thumb_width is None,
    {
        VideoItem {
            media: None,
            video_size: None,
            play_length: None,
            video_md5: None,
            thumb_media: None,
            thumb_size: None,
            thumb_height: None,
            thumb_width: None,
        }
    }
}

impl Default for RefMessage {
    /// Every field absent.
    fn default() -> (r: Self)
        ensures
            r.message_item is None,
            r.title is None,
    {
        RefMessage {
            message_item: None,
            title: None,
        }
    }
}

impl Default for MessageItem {
    /// Every field absent.
    fn default() -> (r: Self)
        ensures
            r.item_type is None,
            r.create_time_ms is None,
            r.update_time_ms is None,
            r.is_completed is None,
            r.msg_id is None,
            r.ref_msg is None,
            r.text_item is None,
            r.image_item is None,
            r.voice_item is None,
            r.file_item is None,
            r.video_item is None,
    {
        MessageItem {
            item_type: None,
            create_time_ms: None,
            update_time_ms: None,
            is_completed: None,
            msg_id: None,
            ref_msg: None,
            text_item: None,
            image_item: None,
            voice_item: None,
            file_item: None,
            video_item: None,
        }
    }
}

impl Default for Message {
    /// Every field absent.
    fn default() -> (r: Self)
        ensures
            r.seq is None,
            r.message_id is None,
            r.from_user_id is None,
            r.to_user_id is None,
            r.client_id is None,
            r.create_time_ms is None,
            r.update_time_ms is None,
            r.delete_time_ms is None,
            r.session_id is None,
            r.group_id is None,
            r.message_type is None,
            r.message_state is None,
            r.item_list is None,
            r.context_token is None,
    {
        Message {
            seq: None,
            message_id: None,
            from_user_id: None,
            to_user_id: None,
            client_id: None,
            create_time_ms: None,
            update_time_ms: None,
            delete_time_ms: None,
            session_id: None,
            group_id: None,
            message_type: None,
            message_state: None,
            item_list: None,
            context_token: None,
        }
    }
}

// ── Laws of the wire codes, media kinds and quotes ─────────────────────────

/// The protocol numbers of every enum, variant by variant: what each variant
/// is sent as, and what each number is read back as.
pub proof fn lemma_wire_codes()
    ensures
        MessageItemType::Text.code() == 1 && MessageItemType::Image.code() == 2
            && MessageItemType::Voice.code() == 3 && MessageItemType::File.code() == 4
            && MessageItemType::Video.code() == 5,
        MessageItemType::spec_decode(1) == Ok::<MessageItemType, u8>(MessageItemType::Text)
            && MessageItemType::spec_decode(2) == Ok::<MessageItemType, u8>(MessageItemType::Image)
            && MessageItemType::spec_decode(3) == Ok::<MessageItemType, u8>(MessageItemType::Voice)
            && MessageItemType::spec_decode(4) == Ok::<MessageItemType, u8>(MessageItemType::File)
            && MessageItemType::spec_decode(5) == Ok::<MessageItemType, u8>(MessageItemType::Video),
        forall|v: u8| (v < 1 || v > 5) ==> #[trigger] MessageItemType::spec_decode(v) == Err::<MessageItemType, u8>(v),
        UploadMediaType::Image.code() == 1 && UploadMediaType::Video.code() == 2
            && UploadMediaType::File.code() == 3 && UploadMediaType::Voice.code() == 4,
        UploadMediaType::spec_decode(1) == Ok::<UploadMediaType, u8>(UploadMediaType::Image)
            && UploadMediaType::spec_decode(2) == Ok::<UploadMediaType, u8>(UploadMediaType::Video)
            && UploadMediaType::spec_decode(3) == Ok::<UploadMediaType, u8>(UploadMediaType::File)
            && UploadMediaType::spec_decode(4) == Ok::<UploadMediaType, u8>(UploadMediaType::Voice),
        forall|v: u8| (v < 1 || v > 4) ==> #[trigger] UploadMediaType::spec_decode(v) == Err::<UploadMediaType, u8>(v),
        MessageType::NoType.code() == 0 && MessageType::User.code() == 1 && MessageType::Bot.code() == 2,
        MessageType::spec_decode(0) == Ok::<MessageType, u8>(MessageType::NoType)
            && MessageType::spec_decode(1) == Ok::<MessageType, u8>(MessageType::User)
            && MessageType::spec_decode(2) == Ok::<MessageType, u8>(MessageType::Bot),
        forall|v: u8| v > 2 ==> #[trigger] MessageType::spec_decode(v) == Err::<MessageType, u8>(v),
        MessageState::New.code() == 0 && MessageState::Generating.code() == 1 && MessageState::Finish.code() == 2,
        MessageState::spec_decode(0) == Ok::<MessageState, u8>(MessageState::New)
            && MessageState::spec_decode(1) == Ok::<MessageState, u8>(MessageState::Generating)
            && MessageState::spec_decode(2) == Ok::<MessageState, u8>(MessageState::Finish),
        forall|v: u8| v > 2 ==> #[trigger] MessageState::spec_decode(v) == Err::<MessageState, u8>(v),
        TypingStatus::Typing.code() == 1 && TypingStatus::Cancel.code() == 2,
        TypingStatus::spec_decode(1) == Ok::<TypingStatus, u8>(TypingStatus::Typing)
            && TypingStatus::spec_decode(2) == Ok::<TypingStatus, u8>(TypingStatus::Cancel),
        forall|v: u8| (v < 1 || v > 2) ==> #[trigger] TypingStatus::spec_decode(v) == Err::<TypingStatus, u8>(v),
{
}

/// Item kinds that carry media.
pub open spec fn is_media_kind(t: Option<MessageItemType>) -> bool {
    t == Some(MessageItemType::Image) || t == Some(MessageItemType::Voice) || t == Some(MessageItemType::File)
        || t == Some(MessageItemType::Video)
}

/// An item is media exactly when its kind is image, voice, file or video;
/// text items and items of no kind are not.
pub proof fn lemma_media_kinds(item: MessageItem)
    ensures
        item.spec_is_media() <==> is_media_kind(item.item_type),
        item.item_type == Some(MessageItemType::Voice) ==> item.spec_is_media(),
        item.item_type == Some(MessageItemType::Text) ==> !item.spec_is_media(),
{
}

proof fn lemma_first_media_is(items: Seq<MessageItem>, k: int, i: int)
    requires
        0 <= i <= k < items.len(),
        is_media_kind(items[k].item_type),
        forall|j: int| i <= j < k ==> !is_media_kind(#[trigger] items[j].item_type),
    ensures
        first_media(items, i) == k,
    decreases k - i,
{
    if i < k {
        lemma_first_media_is(items, k, i + 1);
    }
}

proof fn lemma_first_media_none(items: Seq<MessageItem>, i: int)
    requires
        0 <= i <= items.len(),
        forall|j: int| i <= j < items.len() ==> !is_media_kind(#[trigger] items[j].item_type),
    ensures
        first_media(items, i) == items.len(),
    decreases items.len() - i,
{
    if i < items.len() {
        lemma_first_media_none(items, i + 1);
    }
}

/// `media_item` finds the first item whose kind is image, voice, file or
/// video, and nothing where there is none.
pub proof fn lemma_media_item_is_first_media_kind(m: Message)
    ensures
        m.spec_items() matches Some(items) ==> {
            &&& forall|k: int|
                0 <= k < items.len() && is_media_kind(items[k].item_type) && (forall|j: int|
                    0 <= j < k ==> !is_media_kind(#[trigger] items[j].item_type)) ==> m.spec_media_index()
                    == Some(k)
            &&& (forall|j: int| 0 <= j < items.len() ==> !is_media_kind(#[trigger] items[j].item_type))
                ==> m.spec_media_index() is None
        },
        m.spec_items() is None ==> m.spec_media_index() is None,
{
    if let Some(items) = m.spec_items() {
        assert forall|k: int|
            0 <= k < items.len() && is_media_kind(items[k].item_type) && (forall|j: int|
                0 <= j < k ==> !is_media_kind(#[trigger] items[j].item_type)) implies m.spec_media_index()
            == Some(k) by {
            lemma_first_media_is(items, k, 0);
        }
        if forall|j: int| 0 <= j < items.len() ==> !is_media_kind(#[trigger] items[j].item_type) {
            lemma_first_media_none(items, 0);
        }
    }
}

/// The text of a quoted item, where it is not media: its text part.
pub open spec fn quoted_text(r: RefMessage) -> Option<Seq<char>> {
    match r.message_item {
        Some(ri) => if is_media_kind(ri.item_type) {
            None
        } else {
            match ri.text_item {
                Some(ti) => match ti.text {
                    Some(s) => Some(s@),
                    None => None,
                },
                None => None,
            }
        },
        None => None,
    }
}

/// How a text item's body is shown with its quote:
/// - no quote, or a quote of a media item: the body alone;
/// - otherwise `[引用: ` + the non-empty title and the non-empty quoted text
///   (each on its own where the other is missing or empty, else joined by
///   ` | `) + `]` and a newline, then the body; the body alone where both are
///   missing or empty.
pub proof fn lemma_quote_prefix(item: MessageItem, body: Seq<char>)
    ensures
        item.ref_msg is None ==> spec_text_with_quote(item, body) == body,
        item.ref_msg matches Some(r) ==> {
            let media = r.message_item matches Some(ri) && is_media_kind(ri.item_type);
            let title: Option<Seq<char>> = match r.title {
                Some(t) => if t@.len() > 0 { Some(t@) } else { None },
                None => None,
            };
            let quoted: Option<Seq<char>> = match quoted_text(*r) {
                Some(q) => if q.len() > 0 { Some(q) } else { None },
                None => None,
            };
            &&& media ==> spec_text_with_quote(item, body) == body
            &&& !media && title is Some && quoted is Some ==> spec_text_with_quote(item, body) == "[引用: "@
                + title.unwrap() + " | "@ + quoted.unwrap() + "]\n"@ + body
            &&& !media && title is Some && quoted is None ==> spec_text_with_quote(item, body) == "[引用: "@
                + title.unwrap() + "]\n"@ + body
            &&& !media && title is None && quoted is Some ==> spec_text_with_quote(item, body) == "[引用: "@
                + quoted.unwrap() + "]\n"@ + body
            &&& !media && title is None && quoted is None ==> spec_text_with_quote(item, body) == body
        },
{
    if let Some(r) = item.ref_msg {
        let parts = spec_quote_parts(*r);
        if let Some(ri) = r.message_item {
            lemma_media_kinds(ri);
        }
        assert(parts.len() <= 2);
        let title: Option<Seq<char>> = match r.title {
            Some(t) => if t@.len() > 0 { Some(t@) } else { None },
            None => None,
        };
        let quoted: Option<Seq<char>> = match quoted_text(*r) {
            Some(q) => if q.len() > 0 { Some(q) } else { None },
            None => None,
        };
        let media = r.message_item matches Some(ri) && is_media_kind(ri.item_type);
        if !media {
            if let Some(t) = title {
                if let Some(q) = quoted {
                    assert(parts =~= seq![t, q]);
                } else {
                    assert(parts =~= seq![t]);
                }
            } else {
                if let Some(q) = quoted {
                    assert(parts =~= seq![q]);
                } else {
                    assert(parts =~= Seq::<Seq<char>>::empty());
                }
            }
        }
    }
}

} // verus!
