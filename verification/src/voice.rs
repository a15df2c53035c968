//! Voice messages: which CDN object holds the audio, and wrapping decoded PCM
//! in a WAV container.
use vstd::prelude::*;

use crate::error::Error;
use crate::text::owned;
use crate::types::VoiceItem;

verus! {

/// Default sample rate for Weixin voice messages (Hz).
pub const DEFAULT_VOICE_SAMPLE_RATE: u32 = 24_000;

/// Built-in SILK decoder (the `silk-codec` crate); the decoding itself runs
/// outside the library.
pub struct DefaultSilkDecoder;

/// Result of voice download.
#[derive(Debug)]
pub struct VoiceData {
    pub data: Vec<u8>,
    pub format: VoiceFormat,
}

#[derive(Debug, Clone, Copy, PartialEq, Eq, Structural)]
pub enum VoiceFormat {
    Silk,
    Wav,
}

// ── WAV ─────────────────────────────────────────────────────────────────────

/// Little-endian bytes of a 32-bit value.
pub open spec fn le32(v: int) -> Seq<u8> {
    seq![(v % 256) as u8, ((v / 256) % 256) as u8, ((v / 65536) % 256) as u8, ((v / 16777216) % 256) as u8]
}

/// Little-endian bytes of a 16-bit value.
pub open spec fn le16(v: int) -> Seq<u8> {
    seq![(v % 256) as u8, ((v / 256) % 256) as u8]
}

/// Value of the four little-endian bytes of `b` at `at`.
pub open spec fn le32_at(b: Seq<u8>, at: int) -> int {
    b[at] + b[at + 1] * 256 + b[at + 2] * 65536 + b[at + 3] * 16777216
}

/// Value of the two little-endian bytes of `b` at `at`.
pub open spec fn le16_at(b: Seq<u8>, at: int) -> int {
    b[at] + b[at + 1] * 256
}

/// The 44-byte header of a mono, 16-bit PCM WAV file holding `len` bytes of
/// samples at `sample_rate`.
pub open spec fn wav_header(len: int, sample_rate: int) -> Seq<u8> {
    seq![82u8, 73, 70, 70] + le32(36 + len) + seq![87u8, 65, 86, 69] + seq![102u8, 109, 116, 32]
        + le32(16) + le16(1) + le16(1) + le32(sample_rate) + le32(sample_rate * 2) + le16(2) + le16(
        16,
    ) + seq![100u8, 97, 116, 97] + le32(len)
}

fn push_le32(buf: &mut Vec<u8>, v: u32)
    ensures
        final(buf)@ == old(buf)@ + le32(v as int),
{
    buf.push((v % 256) as u8);
    buf.push(((v / 256) % 256) as u8);
    buf.push(((v / 65536) % 256) as u8);
    buf.push(((v / 16777216) % 256) as u8);
    assert(final(buf)@ =~= old(buf)@ + le32(v as int));
}

fn push_le16(buf: &mut Vec<u8>, v: u16)
    ensures
        final(buf)@ == old(buf)@ + le16(v as int),
{
    buf.push((v % 256) as u8);
    buf.push(((v / 256) % 256) as u8);
    assert(final(buf)@ =~= old(buf)@ + le16(v as int));
}

fn push4(buf: &mut Vec<u8>, a: u8, b: u8, c: u8, d: u8)
    ensures
        final(buf)@ == old(buf)@ + seq![a, b, c, d],
{
    buf.push(a);
    buf.push(b);
    buf.push(c);
    buf.push(d);
    assert(final(buf)@ =~= old(buf)@ + seq![a, b, c, d]);
}

/// Append a slice to a byte vector.
pub fn append_bytes(buf: &mut Vec<u8>, src: &[u8])
    ensures
        final(buf)@ == old(buf)@ + src@,
{
    let n = src.len();
    let mut i: usize = 0;
    while i < n
        invariant
            n == src@.len(),
            0 <= i <= n,
            buf@ == old(buf)@ + src@.take(i as int),
        decreases n - i,
    {
        buf.push(src[i]);
        proof {
            assert(src@.take(i + 1) =~= src@.take(i as int).push(src@[i as int]));
        }
        i += 1;
    }
    proof {
        assert(src@.take(n as int) =~= src@);
    }
}

/// Wrap raw PCM (signed 16-bit LE, mono) in a WAV container.
pub fn build_wav(pcm: &[u8], sample_rate: u32) -> (r: Vec<u8>)
    requires
        pcm@.len() + 44 <= u32::MAX,
        sample_rate * 2 <= u32::MAX,
    ensures
        r@ == wav_header(pcm@.len() as int, sample_rate as int) + pcm@,
{
    let pcm_len = pcm.len() as u32;
    let total_size = 44 + pcm_len;
    let mut buf: Vec<u8> = Vec::with_capacity(total_size as usize);
    let ghost start = buf@;
    // RIFF header
    push4(&mut buf, 82, 73, 70, 70);
    push_le32(&mut buf, total_size - 8);
    push4(&mut buf, 87, 65, 86, 69);
    // fmt chunk
    push4(&mut buf, 102, 109, 116, 32);
    push_le32(&mut buf, 16);  // chunk size
    push_le16(&mut buf, 1);  // PCM format
    push_le16(&mut buf, 1);  // mono
    push_le32(&mut buf, sample_rate);
    push_le32(&mut buf, sample_rate * 2);  // byte rate
    push_le16(&mut buf, 2);  // block align
    push_le16(&mut buf, 16);  // bits per sample
    // data chunk
    push4(&mut buf, 100, 97, 116, 97);
    push_le32(&mut buf, pcm_len);
    append_bytes(&mut buf, pcm);
    assert(buf@ =~= wav_header(pcm@.len() as int, sample_rate as int) + pcm@);
    buf
}

/// Decoding the little-endian bytes of a 32-bit value gives the value back.
pub proof fn lemma_le32_roundtrip(v: int)
    requires
        0 <= v <= u32::MAX,
    ensures
        le32_at(le32(v), 0) == v,
{
    assert(le32_at(le32(v), 0) == v) by (nonlinear_arith)
        requires
            0 <= v <= u32::MAX,
            le32_at(le32(v), 0) == (v % 256) + ((v / 256) % 256) * 256 + ((v / 65536) % 256)
                * 65536 + ((v / 16777216) % 256) * 16777216,
    ;
}

/// A WAV file is its 44-byte header followed by the samples: it starts with
/// `RIFF`, holds `WAVE`, `fmt ` and `data` at 8, 12 and 36, records the RIFF
/// size at 4 and the sample byte count at 40, and is 44 bytes longer than the
/// samples.
pub proof fn lemma_wav_layout(pcm: Seq<u8>, sample_rate: int)
    requires
        pcm.len() + 44 <= u32::MAX,
        0 <= sample_rate,
        sample_rate * 2 <= u32::MAX,
    ensures
        ({
            let w = wav_header(pcm.len() as int, sample_rate) + pcm;
            &&& w.len() == 44 + pcm.len()
            &&& w.subrange(0, 4) == seq![82u8, 73, 70, 70]
            &&& w.subrange(8, 12) == seq![87u8, 65, 86, 69]
            &&& w.subrange(12, 16) == seq![102u8, 109, 116, 32]
            &&& w.subrange(36, 40) == seq![100u8, 97, 116, 97]
            &&& le32_at(w, 4) == 36 + pcm.len()
            &&& le32_at(w, 40) == pcm.len()
            &&& le32_at(w, 16) == 16
            &&& le16_at(w, 20) == 1
            &&& le16_at(w, 22) == 1
            &&& le32_at(w, 24) == sample_rate
            &&& le32_at(w, 28) == sample_rate * 2
            &&& le16_at(w, 32) == 2
            &&& le16_at(w, 34) == 16
            &&& w.skip(44) == pcm
        }),
{
    let len = pcm.len() as int;
    let w = wav_header(len, sample_rate) + pcm;
    lemma_le32_roundtrip(36 + len);
    lemma_le32_roundtrip(len);
    assert(w.subrange(0, 4) =~= seq![82u8, 73, 70, 70]);
    assert(w.subrange(8, 12) =~= seq![87u8, 65, 86, 69]);
    assert(w.subrange(12, 16) =~= seq![102u8, 109, 116, 32]);
    assert(w.subrange(36, 40) =~= seq![100u8, 97, 116, 97]);
    assert(w.skip(44) =~= pcm);
    assert(le32_at(w, 4) == le32_at(le32(36 + len), 0));
    assert(le32_at(w, 40) == le32_at(le32(len), 0));
    lemma_le32_roundtrip(16);
    lemma_le32_roundtrip(sample_rate);
    lemma_le32_roundtrip(sample_rate * 2);
    assert(le32_at(w, 16) == le32_at(le32(16), 0));
    assert(le32_at(w, 24) == le32_at(le32(sample_rate), 0));
    assert(le32_at(w, 28) == le32_at(le32(sample_rate * 2), 0));
    assert(le16_at(w, 20) == 1);
    assert(le16_at(w, 22) == 1);
    assert(le16_at(w, 32) == 2);
    assert(le16_at(w, 34) == 16);
}

// ── Voice download decisions ────────────────────────────────────────────────

/// The CDN object of a voice item: its download parameter and, where the
/// object is encrypted, its AES key. Fails where either the media or its
/// parameter is missing.
pub fn voice_source(voice: &VoiceItem) -> (r: Result<(String, Option<String>), Error>)
    ensures
        match r {
            Ok((param, key)) => voice.media matches Some(m) && m.encrypt_query_param matches Some(p)
                && param@ == p@ && key == m.aes_key,
            Err(e) => e is Other && (voice.media is None || voice.media->0.encrypt_query_param is None),
        },
{
    let media = match &voice.media {
        Some(m) => m,
        None => return Err(Error::Other(owned("voice has no media"))),
    };
    let param = match &media.encrypt_query_param {
        Some(p) => p,
        None => return Err(Error::Other(owned("voice has no encrypt_query_param"))),
    };
    Ok((param.clone(), media.aes_key.clone()))
}

/// The sample rate to decode a voice item at.
pub fn voice_sample_rate(voice: &VoiceItem) -> (r: u32)
    ensures
        r == (match voice.sample_rate {
            Some(s) => s,
            None => DEFAULT_VOICE_SAMPLE_RATE,
        }),
{
    match voice.sample_rate {
        Some(s) => s,
        None => DEFAULT_VOICE_SAMPLE_RATE,
    }
}

/// The downloaded voice: WAV around the decoded PCM where decoding
/// succeeded, else the raw SILK bytes.
pub fn voice_data(silk: Vec<u8>, decoded: Option<Vec<u8>>, sample_rate: u32) -> (r: VoiceData)
    requires
        decoded matches Some(pcm) ==> pcm@.len() + 44 <= u32::MAX && sample_rate * 2 <= u32::MAX,
    ensures
        match decoded {
            Some(pcm) => r.format == VoiceFormat::Wav && r.data@ == wav_header(
                pcm@.len() as int,
                sample_rate as int,
            ) + pcm@,
            None => r.format == VoiceFormat::Silk && r.data@ == silk@,
        },
{
    match decoded {
        Some(pcm) => VoiceData { data: build_wav(pcm.as_slice(), sample_rate), format: VoiceFormat::Wav },
        None => VoiceData { data: silk, format: VoiceFormat::Silk },
    }
}

} // verus!
