//! QR code login: the session's state, the decisions taken on each status
//! poll, and what a successful login saves.
use vstd::prelude::*;
use vstd::string::{StringExecFns, StringSliceAdditionalSpecFns};

use crate::client::{opt_view, ILinkClient};
use crate::credential::{normalize_account_id, spec_normalize_account_id, AccountData};
use crate::error::{Error, HttpError};
use crate::text::owned;
use crate::types::{QrCodeResponse, QrStatus, QrStatusResponse};

verus! {

/// Default `bot_type` for iLink QR login.
pub const DEFAULT_BOT_TYPE: &'static str = "3";

/// Pause between two status polls (ms).
pub const QR_POLL_INTERVAL_MS: u64 = 1000;

/// Default login timeout (ms).
pub const DEFAULT_LOGIN_TIMEOUT_MS: u64 = 480_000;

/// How many times a login refreshes an expired QR code at most.
pub const MAX_QR_REFRESH: u32 = 3;

/// Result of a successful QR login.
#[derive(Debug, Clone)]
pub struct LoginResult {
    /// The bot token for API authentication.
    pub bot_token: String,
    /// Normalized account ID (filesystem-safe).
    pub account_id: String,
    /// Raw account ID from server (e.g. `xxx@im.bot`).
    pub raw_account_id: String,
    /// Base URL for the API (may differ per account).
    pub base_url: Option<String>,
    /// The user ID of the person who scanned the QR code.
    pub user_id: Option<String>,
}

/// Manages a QR code login session.
pub struct QrLoginSession<'a, H> {
    client: &'a ILinkClient<H>,
    bot_type: String,
    qrcode: String,
    qrcode_url: String,
    timeout_ms: u64,
}

impl<'a, H> QrLoginSession<'a, H> {
    pub closed spec fn spec_client(&self) -> &'a ILinkClient<H> {
        self.client
    }

    pub closed spec fn spec_bot_type(&self) -> Seq<char> {
        self.bot_type@
    }

    pub closed spec fn spec_qrcode(&self) -> Seq<char> {
        self.qrcode@
    }

    pub closed spec fn spec_qrcode_url(&self) -> Seq<char> {
        self.qrcode_url@
    }

    pub closed spec fn spec_timeout_ms(&self) -> u64 {
        self.timeout_ms
    }

    /// A session for the QR code the server handed out.
    pub fn new(client: &'a ILinkClient<H>, bot_type: &str, resp: QrCodeResponse) -> (r: Self)
        ensures
            r.spec_client() == client,
            r.spec_bot_type() == bot_type@,
            r.spec_qrcode() == resp.qrcode@,
            r.spec_qrcode_url() == resp.qrcode_img_content@,
            r.spec_timeout_ms() == DEFAULT_LOGIN_TIMEOUT_MS,
    {
        QrLoginSession {
            client,
            bot_type: owned(bot_type),
            qrcode: resp.qrcode,
            qrcode_url: resp.qrcode_img_content,
            timeout_ms: DEFAULT_LOGIN_TIMEOUT_MS,
        }
    }

    pub fn client(&self) -> (r: &'a ILinkClient<H>)
        ensures
            r == self.spec_client(),
    {
        self.client
    }

    pub fn bot_type(&self) -> (r: &str)
        ensures
            r@ == self.spec_bot_type(),
    {
        self.bot_type.as_str()
    }

    /// The QR code URL (for rendering in terminal or displaying to user).
    pub fn qrcode_url(&self) -> (r: &str)
        ensures
            r@ == self.spec_qrcode_url(),
    {
        self.qrcode_url.as_str()
    }

    /// The raw qrcode token (used for status polling).
    pub fn qrcode_token(&self) -> (r: &str)
        ensures
            r@ == self.spec_qrcode(),
    {
        self.qrcode.as_str()
    }

    /// The login timeout (ms).
    pub fn timeout_ms(&self) -> (r: u64)
        ensures
            r == self.spec_timeout_ms(),
    {
        self.timeout_ms
    }

    /// Set the login timeout (ms; default: 480 seconds).
    pub fn set_timeout(&mut self, timeout_ms: u64)
        ensures
            final(self).spec_timeout_ms() == timeout_ms,
            final(self).spec_client() == old(self).spec_client(),
            final(self).spec_bot_type() == old(self).spec_bot_type(),
            final(self).spec_qrcode() == old(self).spec_qrcode(),
            final(self).spec_qrcode_url() == old(self).spec_qrcode_url(),
    {
        self.timeout_ms = timeout_ms;
    }

    /// Switch to a refreshed QR code.
    pub fn replace_qrcode(&mut self, resp: QrCodeResponse)
        ensures
            final(self).spec_qrcode() == resp.qrcode@,
            final(self).spec_qrcode_url() == resp.qrcode_img_content@,
            final(self).spec_timeout_ms() == old(self).spec_timeout_ms(),
            final(self).spec_client() == old(self).spec_client(),
            final(self).spec_bot_type() == old(self).spec_bot_type(),
    {
        self.qrcode = resp.qrcode;
        self.qrcode_url = resp.qrcode_img_content;
    }
}

// ── Polling the login status ────────────────────────────────────────────────

/// What happened since the last decision.
#[derive(Debug)]
pub enum LoginEvent {
    /// The login deadline has passed.
    DeadlinePassed,
    /// The status poll failed with this error.
    PollFailed(Error),
    /// The status poll answered.
    Status(QrStatusResponse),
}

/// What the login does next.
#[derive(Debug)]
pub enum LoginAction {
    /// Poll again at once (a long poll timed out).
    PollNow,
    /// Sleep this many milliseconds, then poll.
    SleepThenPoll(u64),
    /// Fetch a new QR code, show it, sleep this many milliseconds, then poll.
    RefreshQrThenPoll(u64),
    /// The login succeeded.
    Finish(LoginResult),
    /// The login failed.
    Fail(Error),
}

/// The login's bookkeeping across status polls: how many times the QR code
/// has been refreshed.
#[derive(Debug)]
pub struct LoginPoll {
    refreshes: u32,
}

/// `r` is the login result for a confirmed status with this bot id and
/// token.
pub open spec fn is_login_result(r: LoginResult, s: QrStatusResponse) -> bool {
    &&& s.ilink_bot_id matches Some(id) && r.raw_account_id@ == id@ && r.account_id@
        == spec_normalize_account_id(id@)
    &&& s.bot_token matches Some(t) && r.bot_token@ == t@
    &&& opt_view(r.base_url) == opt_view(s.baseurl)
    &&& opt_view(r.user_id) == opt_view(s.ilink_user_id)
}

impl LoginPoll {
    pub closed spec fn spec_refreshes(&self) -> nat {
        self.refreshes as nat
    }

    /// The QR code is never refreshed more than `MAX_QR_REFRESH` times.
    pub open spec fn wf(&self) -> bool {
        self.spec_refreshes() <= MAX_QR_REFRESH
    }

    /// The first QR code is shown; no refresh yet.
    pub fn new() -> (r: Self)
        ensures
            r.wf(),
            r.spec_refreshes() == 0,
    {
        LoginPoll { refreshes: 0 }
    }

    /// Refreshes made so far.
    pub fn refreshes(&self) -> (r: u32)
        ensures
            r == self.spec_refreshes(),
    {
        self.refreshes
    }

    /// Decide after an event: a passed deadline fails with `LoginTimeout`; a
    /// timed-out poll is retried at once; another poll error fails with it;
    /// `wait` and `scaned` poll again after the interval; `expired` refreshes
    /// the QR code unless it was refreshed `MAX_QR_REFRESH` times already
    /// (then it fails with `QrExpired`); `confirmed` finishes with the bot's id and token, or
    /// fails where the server left either out.
    pub fn on_event(&mut self, ev: LoginEvent) -> (r: LoginAction)
        requires
            old(self).wf(),
        ensures
            final(self).wf(),
            r is RefreshQrThenPoll ==> final(self).spec_refreshes() == old(self).spec_refreshes() + 1,
            !(r is RefreshQrThenPoll) ==> final(self).spec_refreshes() == old(self).spec_refreshes(),
            match ev {
                LoginEvent::DeadlinePassed => r matches LoginAction::Fail(e) && e is LoginTimeout,
                LoginEvent::PollFailed(e) => if e matches Error::Http(HttpError::Timeout(_)) {
                    r is PollNow
                } else {
                    r matches LoginAction::Fail(f) && f == e
                },
                LoginEvent::Status(s) => match s.status {
                    QrStatus::Wait => r == LoginAction::SleepThenPoll(QR_POLL_INTERVAL_MS),
                    QrStatus::Scaned => r == LoginAction::SleepThenPoll(QR_POLL_INTERVAL_MS),
                    QrStatus::Expired => if old(self).spec_refreshes() < MAX_QR_REFRESH {
                        r == LoginAction::RefreshQrThenPoll(QR_POLL_INTERVAL_MS)
                    } else {
                        r matches LoginAction::Fail(e) && e is QrExpired
                    },
                    QrStatus::Confirmed => if s.ilink_bot_id is Some && s.bot_token is Some {
                        r matches LoginAction::Finish(res) && is_login_result(res, s)
                    } else {
                        r matches LoginAction::Fail(e) && e is Other
                    },
                },
            },
    {
        match ev {
            LoginEvent::DeadlinePassed => LoginAction::Fail(Error::LoginTimeout),
            LoginEvent::PollFailed(e) => {
                if e.is_timeout() {
                    LoginAction::PollNow
                } else {
                    LoginAction::Fail(e)
                }
            },
            LoginEvent::Status(s) => match s.status {
                QrStatus::Wait => LoginAction::SleepThenPoll(QR_POLL_INTERVAL_MS),
                QrStatus::Scaned => LoginAction::SleepThenPoll(QR_POLL_INTERVAL_MS),
                QrStatus::Expired => {
                    if self.refreshes >= MAX_QR_REFRESH {
                        LoginAction::Fail(Error::QrExpired)
                    } else {
                        self.refreshes = self.refreshes + 1;
                        LoginAction::RefreshQrThenPoll(QR_POLL_INTERVAL_MS)
                    }
                },
                QrStatus::Confirmed => confirmed_result(s),
            },
        }
    }
}

fn confirmed_result(s: QrStatusResponse) -> (r: LoginAction)
    ensures
        if s.ilink_bot_id is Some && s.bot_token is Some {
            r matches LoginAction::Finish(res) && is_login_result(res, s)
        } else {
            r matches LoginAction::Fail(e) && e is Other
        },
{
    let bot_id = match s.ilink_bot_id {
        Some(id) => id,
        None => return LoginAction::Fail(Error::Other(owned("server did not return ilink_bot_id"))),
    };
    let bot_token = match s.bot_token {
        Some(t) => t,
        None => return LoginAction::Fail(Error::Other(owned("server did not return bot_token"))),
    };
    let account_id = normalize_account_id(bot_id.as_str());
    LoginAction::Finish(
        LoginResult {
            bot_token,
            account_id,
            raw_account_id: bot_id,
            base_url: s.baseurl,
            user_id: s.ilink_user_id,
        },
    )
}

// ── Saving and showing ──────────────────────────────────────────────────────

/// The credentials a login saves, stamped with `saved_at` (RFC 3339).
pub fn account_data_for(result: &LoginResult, saved_at: String) -> (r: AccountData)
    ensures
        opt_view(r.token) == Some(result.bot_token@),
        opt_view(r.saved_at) == Some(saved_at@),
        opt_view(r.base_url) == opt_view(result.base_url),
        opt_view(r.user_id) == opt_view(result.user_id),
{
    AccountData {
        token: Some(result.bot_token.clone()),
        saved_at: Some(saved_at),
        base_url: result.base_url.clone(),
        user_id: result.user_id.clone(),
    }
}

/// The text the `qrcode` crate renders for some data (`render::<char>()`
/// without quiet zone, modules two characters wide), or `None` where the
/// data does not fit in a QR code.
pub uninterp spec fn qr_rendered(data: Seq<u8>) -> Option<Seq<char>>;

/// `qrcode::QrCode::new(data)` rendered to characters.
#[verifier::external_body]
fn render_qr(data: &[u8]) -> (r: Option<String>)
    ensures
        match r {
            Some(t) => qr_rendered(data@) == Some(t@),
            None => qr_rendered(data@) is None,
        },
{
    match qrcode::QrCode::new(data) {
        Ok(code) => Some(code.render::<char>().quiet_zone(false).module_dimensions(2, 1).build()),
        Err(_) => None,
    }
}

/// What the terminal shows for a QR code URL: the rendered code, or the URL
/// itself where it cannot be rendered.
pub fn qr_terminal_text(qrcode_url: &str) -> (r: String)
    ensures
        r@ == (match qr_rendered(qrcode_url.spec_bytes()) {
            Some(t) => t,
            None => "QR Code URL: "@ + qrcode_url@,
        }),
{
    match render_qr(qrcode_url.as_bytes()) {
        Some(t) => t,
        None => {
            let mut s = owned("QR Code URL: ");
            s.append(qrcode_url);
            s
        },
    }
}

} // verus!
