use weixin_ilink_sdk::media_type::{
    extension_from_content_type_or_url, extension_from_mime, extension_from_url_path,
    mime_from_extension, mime_from_path,
};

#[test]
fn test_mime_from_path() {
    assert_eq!(mime_from_path("photo.jpg"), "image/jpeg");
    assert_eq!(mime_from_path("video.MP4"), "video/mp4");
    assert_eq!(mime_from_path("doc.pdf"), "application/pdf");
    assert_eq!(mime_from_path("unknown.xyz"), "application/octet-stream");
}

#[test]
fn test_extension_from_mime() {
    assert_eq!(extension_from_mime("image/jpeg"), ".jpg");
    assert_eq!(extension_from_mime("video/mp4; charset=utf-8"), ".mp4");
    assert_eq!(extension_from_mime("application/unknown"), ".bin");
}

#[test]
fn mime_edge_cases() {
    assert_eq!(mime_from_path("/a/b/archive.tar.GZ"), "application/gzip");
    assert_eq!(mime_from_path("noext"), "application/octet-stream");
    assert_eq!(mime_from_path(".bashrc"), "application/octet-stream");
    assert_eq!(mime_from_extension(Some("JPEG")), "image/jpeg");
    assert_eq!(mime_from_extension(None), "application/octet-stream");
    assert_eq!(extension_from_mime("  IMAGE/PNG  ; q=1"), ".png");
    assert_eq!(extension_from_mime(""), ".bin");
}

#[test]
fn extension_from_header_or_url() {
    assert_eq!(extension_from_content_type_or_url(Some("image/gif"), "https://x/y.png"), ".gif");
    assert_eq!(extension_from_content_type_or_url(Some("application/x"), "https://x/y.PNG"), ".png");
    assert_eq!(extension_from_content_type_or_url(None, "https://x/a.b/file.Mp4?q=1"), ".mp4");
    assert_eq!(extension_from_content_type_or_url(None, "https://x/file"), ".bin");
    assert_eq!(extension_from_content_type_or_url(None, "not a url"), ".bin");
    assert_eq!(extension_from_url_path("/dir/x.jpeg"), ".jpeg");
}

#[test]
fn mime_extension_round_trip_and_case() {
    for m in [
        "image/jpeg", "image/png", "image/gif", "image/webp", "image/bmp", "video/mp4", "video/quicktime",
        "video/webm", "audio/mpeg", "audio/ogg", "audio/wav", "application/pdf", "application/zip", "text/plain",
    ] {
        assert_eq!(mime_from_path(&format!("f{}", extension_from_mime(m))), m);
    }
    assert_eq!(mime_from_path("A.PNG"), mime_from_path("a.png"));
    assert_eq!(extension_from_mime(" IMAGE/PNG ;q=1"), ".png");
    assert_eq!(extension_from_mime(" IMAGE/PNG ;q=1"), extension_from_mime("image/png"));
    assert!(extension_from_mime("x/unknown").starts_with('.'));
    assert_eq!(mime_from_path("no_extension"), "application/octet-stream");
}
