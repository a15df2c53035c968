use weixin_ilink_sdk::client::{
    check_api_response, cdn_download_outcome, cdn_upload_outcome, get_updates_outcome,
    is_api_error, is_session_expired, login_base_url, wechat_uin, ApiStatus, HttpMethod,
    ILinkClient, DEFAULT_BASE_URL,
};
use weixin_ilink_sdk::error::{Error, HttpError};
use weixin_ilink_sdk::types::{GetUpdatesResponse, SendMessageRequest, Message, BaseInfo, TypingStatus};

fn client() -> ILinkClient<()> {
    ILinkClient::<()>::builder().token("tok").route_tag("tag").http_client(()).build_with_http().unwrap()
}

fn updates(ret: Option<i32>, errcode: Option<i32>) -> GetUpdatesResponse {
    GetUpdatesResponse { ret, errcode, errmsg: None, msgs: None, get_updates_buf: None, longpolling_timeout_ms: None }
}

#[test]
fn defaults_and_url_parsing() {
    let c = ILinkClient::<()>::builder().build_or(());
    assert_eq!(c.base_url(), "https://ilinkai.weixin.qq.com/");
    assert_eq!(c.cdn_base_url(), "https://novac2c.cdn.weixin.qq.com/c2c");
    assert_eq!(c.channel_version(), "0.1.0");
    assert_eq!(c.token(), None);
    let bad = ILinkClient::<()>::builder().base_url("not a url").build_or(());
    assert_eq!(bad.base_url(), "https://ilinkai.weixin.qq.com/");
    let custom = ILinkClient::<()>::builder().base_url("https://example.com/api/").channel_version("9").build_or(());
    assert_eq!(custom.base_url(), "https://example.com/api/");
    assert_eq!(custom.base_url_str(), "https://example.com/api");
    assert_eq!(custom.channel_version(), "9");
    assert_eq!(DEFAULT_BASE_URL, "https://ilinkai.weixin.qq.com");
}

#[test]
fn build_with_http_requires_backend() {
    assert!(matches!(ILinkClient::<()>::builder().build_with_http(), Err(Error::Other(_))));
    let c: ILinkClient<u8> = ILinkClient::<u8>::builder().build_with();
    assert_eq!(*c.http(), 0);
}

#[test]
fn context_tokens_read_back_what_was_written() {
    let mut c = client();
    assert_eq!(c.get_context_token("u1"), None);
    assert!(matches!(c.push_context_token("u1"), Err(Error::MissingContextToken)));
    c.set_context_token("u1", "ctx1");
    c.set_context_token("u2", "ctx2");
    c.set_context_token("u1", "ctx3");
    assert_eq!(c.get_context_token("u1").as_deref(), Some("ctx3"));
    assert_eq!(c.get_context_token("u2").as_deref(), Some("ctx2"));
    assert_eq!(c.push_context_token("u2").unwrap(), "ctx2");
}

#[test]
fn api_request_url_and_headers() {
    let c = client();
    let req = c.build_request_with_uin("ilink/bot/getupdates", b"{}".to_vec(), "MTIz");
    assert_eq!(req.method, HttpMethod::Post);
    assert_eq!(req.url, "https://ilinkai.weixin.qq.com/ilink/bot/getupdates");
    let h: Vec<(&str, &str)> = req.headers.iter().map(|(a, b)| (a.as_str(), b.as_str())).collect();
    assert_eq!(h, vec![
        ("Content-Type", "application/json"),
        ("Content-Length", "2"),
        ("AuthorizationType", "ilink_bot_token"),
        ("X-WECHAT-UIN", "MTIz"),
        ("Authorization", "Bearer tok"),
        ("SKRouteTag", "tag"),
    ]);
    assert_eq!(req.body, b"{}".to_vec());
    let slash = c.build_request_with_uin("/x", Vec::new(), "u");
    assert_eq!(slash.url, "https://ilinkai.weixin.qq.com/x");
    let random = c.build_request("x", Vec::new());
    assert_eq!(random.headers[3].0, "X-WECHAT-UIN");
}

#[test]
fn wechat_uin_is_base64_of_decimal() {
    assert_eq!(wechat_uin(123), "MTIz");
    assert_eq!(wechat_uin(0), "MA==");
    assert_eq!(wechat_uin(4294967295), "NDI5NDk2NzI5NQ==");
}

#[test]
fn requests_carry_base_info() {
    let c = client();
    let r = c.get_updates_request("buf");
    assert_eq!(r.get_updates_buf, "buf");
    assert_eq!(r.base_info.channel_version.as_deref(), Some("0.1.0"));
    let send = c.with_base_info(SendMessageRequest { msg: Message::default(), base_info: None });
    assert_eq!(send.base_info.unwrap().channel_version.as_deref(), Some("0.1.0"));
    let kept = c.with_base_info(SendMessageRequest {
        msg: Message::default(),
        base_info: Some(BaseInfo { channel_version: Some("x".into()) }),
    });
    assert_eq!(kept.base_info.unwrap().channel_version.as_deref(), Some("x"));
    let cfg = c.get_config_request("u", Some("ctx"));
    assert_eq!(cfg.ilink_user_id, "u");
    assert_eq!(cfg.context_token.as_deref(), Some("ctx"));
    let typing = c.send_typing_request("u", "t", TypingStatus::Typing);
    assert_eq!(typing.typing_ticket, "t");
    assert_eq!(typing.status, TypingStatus::Typing);
}

#[test]
fn api_response_checks() {
    match check_api_response(500, b"oops", None) {
        Err(Error::Http(HttpError::Status { status, body })) => {
            assert_eq!(status, 500);
            assert_eq!(body, "oops");
        }
        other => panic!("{:?}", other),
    }
    let bad = ApiStatus { ret: Some(-1), errcode: Some(7), errmsg: Some("no".into()) };
    match check_api_response(200, b"{}", Some(bad)) {
        Err(Error::Api { ret, errcode, message }) => {
            assert_eq!((ret, errcode, message.as_str()), (-1, Some(7), "no"));
        }
        other => panic!("{:?}", other),
    }
    let silent = ApiStatus { ret: Some(3), errcode: None, errmsg: None };
    assert!(matches!(check_api_response(200, b"", Some(silent)), Err(Error::Api { message, .. }) if message.is_empty()));
    assert!(check_api_response(204, b"", Some(ApiStatus { ret: None, errcode: Some(5), errmsg: None })).is_ok());
    assert!(check_api_response(200, b"", None).is_ok());
}

#[test]
fn get_updates_timeout_is_empty_answer() {
    let r = get_updates_outcome(Err(Error::Http(HttpError::Timeout(35000))), "cursor").unwrap();
    assert_eq!(r.ret, Some(0));
    assert_eq!(r.msgs.map(|m| m.len()), Some(0));
    assert_eq!(r.get_updates_buf.as_deref(), Some("cursor"));
    assert!(matches!(get_updates_outcome(Err(Error::LoginTimeout), "c"), Err(Error::LoginTimeout)));
}

#[test]
fn session_and_api_error_flags() {
    assert!(is_session_expired(&updates(None, Some(-14))));
    assert!(is_session_expired(&updates(Some(-14), None)));
    assert!(!is_session_expired(&updates(Some(-1), Some(0))));
    assert!(is_api_error(&updates(Some(-1), None)));
    assert!(is_api_error(&updates(None, Some(2))));
    assert!(!is_api_error(&updates(Some(0), Some(0))));
    assert!(!is_api_error(&updates(None, None)));
}

#[test]
fn cdn_urls_and_outcomes() {
    let c = client();
    assert_eq!(
        c.cdn_upload_url("a b/c", "k&1"),
        "https://novac2c.cdn.weixin.qq.com/c2c/upload?encrypted_query_param=a%20b%2Fc&filekey=k%261"
    );
    assert_eq!(c.cdn_download_url("x~y"), "https://novac2c.cdn.weixin.qq.com/c2c/download?encrypted_query_param=x~y");
    let up = c.cdn_upload_request("p", "k", b"abc");
    assert_eq!(up.method, HttpMethod::Post);
    assert_eq!(up.body, b"abc".to_vec());
    assert_eq!(c.cdn_download_request("p").method, HttpMethod::Get);
    assert_eq!(c.qrcode_request("3").url, "https://ilinkai.weixin.qq.com/ilink/bot/get_bot_qrcode?bot_type=3");
    assert_eq!(
        c.qrcode_status_request("q=1").url,
        "https://ilinkai.weixin.qq.com/ilink/bot/get_qrcode_status?qrcode=q%3D1"
    );

    match cdn_upload_outcome(404, "404 Not Found", Some("gone"), None) {
        Err(Error::Cdn { message, status_code }) => {
            assert_eq!(message, "CDN upload failed 404 Not Found: gone");
            assert_eq!(status_code, Some(404));
        }
        other => panic!("{:?}", other),
    }
    match cdn_upload_outcome(500, "500 Internal Server Error", None, Some("p")) {
        Err(Error::Cdn { message, .. }) => assert!(message.ends_with(": unknown error")),
        other => panic!("{:?}", other),
    }
    assert_eq!(cdn_upload_outcome(200, "200 OK", None, Some("param")).unwrap(), "param");
    assert!(matches!(cdn_upload_outcome(200, "200 OK", None, None), Err(Error::Cdn { status_code: None, .. })));
    assert_eq!(cdn_download_outcome(200, "200 OK", vec![1, 2]).unwrap(), vec![1, 2]);
    match cdn_download_outcome(403, "403 Forbidden", b"denied".to_vec()) {
        Err(Error::Cdn { message, status_code }) => {
            assert_eq!(message, "CDN download 403 Forbidden: denied");
            assert_eq!(status_code, Some(403));
        }
        other => panic!("{:?}", other),
    }
}

#[test]
fn login_base_url_choice() {
    assert_eq!(login_base_url(Some("https://a"), Some("b".into())).as_deref(), Some("https://a"));
    assert_eq!(login_base_url(Some(""), Some("b".into())).as_deref(), Some("b"));
    assert_eq!(login_base_url(None, None), None);
}

#[test]
fn cdn_4xx_classification() {
    let e = Error::Cdn { message: String::new(), status_code: Some(404) };
    assert!(e.is_cdn_4xx_error());
    assert!(!Error::Cdn { message: String::new(), status_code: Some(500) }.is_cdn_4xx_error());
    assert!(!Error::Cdn { message: String::new(), status_code: None }.is_cdn_4xx_error());
    assert!(!Error::QrExpired.is_cdn_4xx_error());
}
