use weixin_ilink_sdk::types::{CdnMedia, VoiceItem};
use weixin_ilink_sdk::voice::{build_wav, voice_data, voice_sample_rate, voice_source, VoiceFormat};
use weixin_ilink_sdk::error::Error;

#[test]
fn wav_header_valid() {
    let pcm = vec![0u8; 100];
    let wav = build_wav(&pcm, 24000);
    assert_eq!(&wav[0..4], b"RIFF");
    assert_eq!(&wav[8..12], b"WAVE");
    assert_eq!(&wav[12..16], b"fmt ");
    assert_eq!(&wav[36..40], b"data");
    // data chunk size
    let data_size = u32::from_le_bytes([wav[40], wav[41], wav[42], wav[43]]);
    assert_eq!(data_size, 100);
    assert_eq!(wav.len(), 144);
}

#[test]
fn wav_fields() {
    let pcm: Vec<u8> = (0..10u8).collect();
    let wav = build_wav(&pcm, 16000);
    assert_eq!(u32::from_le_bytes([wav[4], wav[5], wav[6], wav[7]]), 36 + 10);
    assert_eq!(u32::from_le_bytes([wav[16], wav[17], wav[18], wav[19]]), 16);
    assert_eq!(u16::from_le_bytes([wav[20], wav[21]]), 1);
    assert_eq!(u16::from_le_bytes([wav[22], wav[23]]), 1);
    assert_eq!(u32::from_le_bytes([wav[24], wav[25], wav[26], wav[27]]), 16000);
    assert_eq!(u32::from_le_bytes([wav[28], wav[29], wav[30], wav[31]]), 32000);
    assert_eq!(u16::from_le_bytes([wav[32], wav[33]]), 2);
    assert_eq!(u16::from_le_bytes([wav[34], wav[35]]), 16);
    assert_eq!(&wav[44..], &pcm[..]);
    assert_eq!(build_wav(&[], 8000).len(), 44);
}

fn voice(media: Option<CdnMedia>, rate: Option<u32>) -> VoiceItem {
    VoiceItem { media, encode_type: None, bits_per_sample: None, sample_rate: rate, playtime: None, text: None }
}

#[test]
fn voice_source_and_rate() {
    assert!(matches!(voice_source(&voice(None, None)), Err(Error::Other(_))));
    let no_param = CdnMedia { encrypt_query_param: None, aes_key: None, encrypt_type: None };
    assert!(matches!(voice_source(&voice(Some(no_param), None)), Err(Error::Other(_))));
    let media = CdnMedia { encrypt_query_param: Some("p".into()), aes_key: Some("k".into()), encrypt_type: Some(1) };
    let (param, key) = voice_source(&voice(Some(media), Some(8000))).unwrap();
    assert_eq!(param, "p");
    assert_eq!(key.as_deref(), Some("k"));
    assert_eq!(voice_sample_rate(&voice(None, None)), 24000);
    assert_eq!(voice_sample_rate(&voice(None, Some(8000))), 8000);
}

#[test]
fn voice_data_wav_or_silk() {
    let silk = vec![1u8, 2, 3];
    let raw = voice_data(silk.clone(), None, 24000);
    assert_eq!(raw.format, VoiceFormat::Silk);
    assert_eq!(raw.data, silk);
    let wav = voice_data(silk, Some(vec![9u8; 4]), 24000);
    assert_eq!(wav.format, VoiceFormat::Wav);
    assert_eq!(wav.data, build_wav(&[9u8; 4], 24000));
}
