use weixin_ilink_sdk::client::ILinkClient;
use weixin_ilink_sdk::credential::normalize_account_id;
use weixin_ilink_sdk::error::{Error, HttpError};
use weixin_ilink_sdk::qr_login::{
    account_data_for, qr_terminal_text, LoginAction, LoginEvent, LoginPoll, QrLoginSession,
    DEFAULT_BOT_TYPE, QR_POLL_INTERVAL_MS,
};
use weixin_ilink_sdk::types::{QrCodeResponse, QrStatus, QrStatusResponse};

fn status(s: QrStatus, id: Option<&str>, token: Option<&str>) -> QrStatusResponse {
    QrStatusResponse {
        status: s,
        bot_token: token.map(|t| t.to_string()),
        ilink_bot_id: id.map(|t| t.to_string()),
        baseurl: Some("https://base".into()),
        ilink_user_id: Some("user".into()),
    }
}

#[test]
fn session_state() {
    let client = ILinkClient::<()>::builder().build_or(());
    let mut s = QrLoginSession::new(&client, DEFAULT_BOT_TYPE, QrCodeResponse { qrcode: "q1".into(), qrcode_img_content: "url1".into() });
    assert_eq!(s.qrcode_token(), "q1");
    assert_eq!(s.qrcode_url(), "url1");
    assert_eq!(s.bot_type(), "3");
    assert_eq!(s.timeout_ms(), 480_000);
    s.set_timeout(1000);
    assert_eq!(s.timeout_ms(), 1000);
    s.replace_qrcode(QrCodeResponse { qrcode: "q2".into(), qrcode_img_content: "url2".into() });
    assert_eq!(s.qrcode_token(), "q2");
    assert_eq!(s.qrcode_url(), "url2");
}

#[test]
fn waiting_and_scanning_poll_again() {
    let mut p = LoginPoll::new();
    assert!(matches!(p.on_event(LoginEvent::Status(status(QrStatus::Wait, None, None))), LoginAction::SleepThenPoll(QR_POLL_INTERVAL_MS)));
    assert!(matches!(p.on_event(LoginEvent::Status(status(QrStatus::Scaned, None, None))), LoginAction::SleepThenPoll(_)));
    assert!(matches!(p.on_event(LoginEvent::PollFailed(Error::Http(HttpError::Timeout(1)))), LoginAction::PollNow));
    assert!(matches!(p.on_event(LoginEvent::PollFailed(Error::Other("x".into()))), LoginAction::Fail(Error::Other(_))));
    assert!(matches!(p.on_event(LoginEvent::DeadlinePassed), LoginAction::Fail(Error::LoginTimeout)));
}

#[test]
fn up_to_three_qr_refreshes() {
    let mut p = LoginPoll::new();
    assert_eq!(p.refreshes(), 0);
    for n in 1..=3u32 {
        assert!(matches!(p.on_event(LoginEvent::Status(status(QrStatus::Expired, None, None))), LoginAction::RefreshQrThenPoll(_)));
        assert_eq!(p.refreshes(), n);
    }
    assert!(matches!(p.on_event(LoginEvent::Status(status(QrStatus::Expired, None, None))), LoginAction::Fail(Error::QrExpired)));
    assert_eq!(p.refreshes(), 3);
}

#[test]
fn confirmation_yields_normalized_account() {
    let mut p = LoginPoll::new();
    match p.on_event(LoginEvent::Status(status(QrStatus::Confirmed, Some("abc@im.bot"), Some("tok")))) {
        LoginAction::Finish(r) => {
            assert_eq!(r.bot_token, "tok");
            assert_eq!(r.raw_account_id, "abc@im.bot");
            assert_eq!(r.account_id, normalize_account_id("abc@im.bot"));
            assert_eq!(r.account_id, "abc-im-bot");
            assert_eq!(r.base_url.as_deref(), Some("https://base"));
            let data = account_data_for(&r, "2024-01-01T00:00:00Z".into());
            assert_eq!(data.token.as_deref(), Some("tok"));
            assert_eq!(data.user_id.as_deref(), Some("user"));
        }
        other => panic!("{:?}", other),
    }
    assert!(matches!(p.on_event(LoginEvent::Status(status(QrStatus::Confirmed, None, Some("t")))), LoginAction::Fail(Error::Other(_))));
    assert!(matches!(p.on_event(LoginEvent::Status(status(QrStatus::Confirmed, Some("i"), None))), LoginAction::Fail(Error::Other(_))));
}

#[test]
fn terminal_text_renders_or_falls_back() {
    let t = qr_terminal_text("https://example.com/q");
    assert!(!t.is_empty());
    assert!(!t.starts_with("QR Code URL: "));
    let huge = "x".repeat(8000);
    assert_eq!(qr_terminal_text(&huge), format!("QR Code URL: {}", huge));
}
