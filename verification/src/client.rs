//! The iLink Bot API client: its configuration, the requests it sends and how
//! it reads the answers. The transport (a user-supplied HTTP backend) carries
//! out the requests this module describes.
use vstd::prelude::*;
use vstd::string::{StrSliceExecFns, StringExecFns, StringSliceAdditionalSpecFns};

use crate::context::ContextTokens;
use crate::crypto::random_u32;
use crate::encoding::{
    b64_encode_standard, base64_standard_encoded, parse_url, spec_pct_encode, url_encode,
    url_serialization, utf8_lossy, utf8_lossy_text,
};
use crate::error::{Error, HttpError, SESSION_EXPIRED_ERRCODE};
use crate::text::{decimal_string, owned, spec_decimal, spec_trim_end_char, starts_with, trim_end_char};
use crate::types::{
    BaseInfo, GetConfigRequest, GetUpdatesRequest, GetUpdatesResponse, Message, SendMessageRequest,
    SendTypingRequest, TypingStatus,
};

verus! {

pub const DEFAULT_BASE_URL: &'static str = "https://ilinkai.weixin.qq.com";

pub const DEFAULT_CDN_BASE_URL: &'static str = "https://novac2c.cdn.weixin.qq.com/c2c";

/// Channel version reported when none is configured: the SDK's version.
pub const DEFAULT_CHANNEL_VERSION: &'static str = "0.1.0";

/// Long-poll timeout of `getUpdates` (ms).
pub const DEFAULT_LONG_POLL_TIMEOUT_MS: u64 = 35_000;

/// Timeout of ordinary API calls (ms).
pub const DEFAULT_API_TIMEOUT_MS: u64 = 15_000;

/// Timeout of `getConfig` and `sendTyping` (ms).
pub const DEFAULT_CONFIG_TIMEOUT_MS: u64 = 10_000;

// ── Requests ────────────────────────────────────────────────────────────────

#[derive(Debug, Clone, Copy, PartialEq, Eq, Structural)]
pub enum HttpMethod {
    Get,
    Post,
}

/// An HTTP request for the transport to send.
#[derive(Debug)]
pub struct HttpRequest {
    pub method: HttpMethod,
    pub url: String,
    pub headers: Vec<(String, String)>,
    pub body: Vec<u8>,
}

/// Headers as text pairs.
pub open spec fn spec_headers(h: Seq<(String, String)>) -> Seq<(Seq<char>, Seq<char>)> {
    h.map_values(|p: (String, String)| (p.0@, p.1@))
}

fn header(name: &str, value: &str) -> (r: (String, String))
    ensures
        r.0@ == name@,
        r.1@ == value@,
{
    (String::from_str(name), String::from_str(value))
}

// ── Configuration ───────────────────────────────────────────────────────────

/// The serialization of a configured URL where it parses, else that of the
/// default (or the default's text where even that fails to parse).
pub open spec fn spec_resolved_url(input: Option<Seq<char>>, default: Seq<char>) -> Seq<char> {
    match input {
        Some(u) if url_serialization(u) is Some => url_serialization(u)->0,
        _ => match url_serialization(default) {
            Some(s) => s,
            None => default,
        },
    }
}

fn resolve_url(input: Option<String>, default: &str) -> (r: String)
    ensures
        r@ == spec_resolved_url(
            match input {
                Some(u) => Some(u@),
                None => None,
            },
            default@,
        ),
{
    if let Some(u) = input {
        if let Some(s) = parse_url(u.as_str()) {
            return s;
        }
    }
    match parse_url(default) {
        Some(s) => s,
        None => owned(default),
    }
}

pub open spec fn opt_view(o: Option<String>) -> Option<Seq<char>> {
    match o {
        Some(s) => Some(s@),
        None => None,
    }
}

/// Core client for the iLink Bot API over an HTTP backend `H`.
pub struct ILinkClient<H> {
    http: H,
    base_url: String,
    cdn_base_url: String,
    token: Option<String>,
    route_tag: Option<String>,
    channel_version: String,
    /// Per-user context token cache (user_id → context_token).
    context_tokens: ContextTokens,
}

/// Builder for `ILinkClient`.
pub struct ILinkClientBuilder<H> {
    http: Option<H>,
    base_url: Option<String>,
    cdn_base_url: Option<String>,
    token: Option<String>,
    route_tag: Option<String>,
    channel_version: Option<String>,
}

impl<H> ILinkClientBuilder<H> {
    pub closed spec fn spec_http(&self) -> Option<H> {
        self.http
    }

    pub closed spec fn spec_base_url(&self) -> Option<Seq<char>> {
        opt_view(self.base_url)
    }

    pub closed spec fn spec_cdn_base_url(&self) -> Option<Seq<char>> {
        opt_view(self.cdn_base_url)
    }

    pub closed spec fn spec_token(&self) -> Option<Seq<char>> {
        opt_view(self.token)
    }

    pub closed spec fn spec_route_tag(&self) -> Option<Seq<char>> {
        opt_view(self.route_tag)
    }

    pub closed spec fn spec_channel_version(&self) -> Option<Seq<char>> {
        opt_view(self.channel_version)
    }

    /// A builder with nothing set.
    pub fn new() -> (r: Self)
        ensures
            r.spec_http() is None,
            r.spec_base_url() is None,
            r.spec_cdn_base_url() is None,
            r.spec_token() is None,
            r.spec_route_tag() is None,
            r.spec_channel_version() is None,
    {
        ILinkClientBuilder {
            http: None,
            base_url: None,
            cdn_base_url: None,
            token: None,
            route_tag: None,
            channel_version: None,
        }
    }

    pub fn http_client(self, http: H) -> (r: Self)
        ensures
            r.spec_http() == Some(http),
            r.spec_base_url() == self.spec_base_url(),
            r.spec_cdn_base_url() == self.spec_cdn_base_url(),
            r.spec_token() == self.spec_token(),
            r.spec_route_tag() == self.spec_route_tag(),
            r.spec_channel_version() == self.spec_channel_version(),
    {
        ILinkClientBuilder { http: Some(http), ..self }
    }

    pub fn base_url(self, url: &str) -> (r: Self)
        ensures
            r.spec_http() == self.spec_http(),
            r.spec_base_url() == Some(url@),
            r.spec_cdn_base_url() == self.spec_cdn_base_url(),
            r.spec_token() == self.spec_token(),
            r.spec_route_tag() == self.spec_route_tag(),
            r.spec_channel_version() == self.spec_channel_version(),
    {
        ILinkClientBuilder { base_url: Some(String::from_str(url)), ..self }
    }

    pub fn cdn_base_url(self, url: &str) -> (r: Self)
        ensures
            r.spec_http() == self.spec_http(),
            r.spec_base_url() == self.spec_base_url(),
            r.spec_cdn_base_url() == Some(url@),
            r.spec_token() == self.spec_token(),
            r.spec_route_tag() == self.spec_route_tag(),
            r.spec_channel_version() == self.spec_channel_version(),
    {
        ILinkClientBuilder { cdn_base_url: Some(String::from_str(url)), ..self }
    }

    pub fn token(self, token: &str) -> (r: Self)
        ensures
            r.spec_http() == self.spec_http(),
            r.spec_base_url() == self.spec_base_url(),
            r.spec_cdn_base_url() == self.spec_cdn_base_url(),
            r.spec_token() == Some(token@),
            r.spec_route_tag() == self.spec_route_tag(),
            r.spec_channel_version() == self.spec_channel_version(),
    {
        ILinkClientBuilder { token: Some(String::from_str(token)), ..self }
    }

    pub fn route_tag(self, tag: &str) -> (r: Self)
        ensures
            r.spec_http() == self.spec_http(),
            r.spec_base_url() == self.spec_base_url(),
            r.spec_cdn_base_url() == self.spec_cdn_base_url(),
            r.spec_token() == self.spec_token(),
            r.spec_route_tag() == Some(tag@),
            r.spec_channel_version() == self.spec_channel_version(),
    {
        ILinkClientBuilder { route_tag: Some(String::from_str(tag)), ..self }
    }

    pub fn channel_version(self, version: &str) -> (r: Self)
        ensures
            r.spec_http() == self.spec_http(),
            r.spec_base_url() == self.spec_base_url(),
            r.spec_cdn_base_url() == self.spec_cdn_base_url(),
            r.spec_token() == self.spec_token(),
            r.spec_route_tag() == self.spec_route_tag(),
            r.spec_channel_version() == Some(version@),
    {
        ILinkClientBuilder { channel_version: Some(String::from_str(version)), ..self }
    }

    /// Whether an HTTP backend was set.
    pub fn has_http_client(&self) -> (r: bool)
        ensures
            r == (self.spec_http() is Some),
    {
        self.http.is_some()
    }

    /// Build with the HTTP backend that was set, or with `fallback` where none
    /// was.
    pub fn build_or(self, fallback: H) -> (r: ILinkClient<H>)
        ensures
            r.spec_http() == (match self.spec_http() {
                Some(h) => h,
                None => fallback,
            }),
            r.configured_from(
                self.spec_base_url(),
                self.spec_cdn_base_url(),
                self.spec_token(),
                self.spec_route_tag(),
                self.spec_channel_version(),
            ),
            r.spec_context_tokens() == Map::<Seq<char>, Seq<char>>::empty(),
    {
        let http = match self.http {
            Some(h) => h,
            None => fallback,
        };
        ILinkClient::from_parts(
            http,
            self.base_url,
            self.cdn_base_url,
            self.token,
            self.route_tag,
            self.channel_version,
        )
    }

    /// Build with the HTTP backend that was set, or with the one `make_http`
    /// makes where none was (called only then).
    pub fn build_or_else<F: FnOnce() -> H>(self, make_http: F) -> (r: ILinkClient<H>)
        requires
            self.spec_http() is None ==> make_http.requires(()),
        ensures
            self.spec_http() matches Some(h) ==> r.spec_http() == h,
            self.spec_http() is None ==> make_http.ensures((), r.spec_http()),
            r.configured_from(
                self.spec_base_url(),
                self.spec_cdn_base_url(),
                self.spec_token(),
                self.spec_route_tag(),
                self.spec_channel_version(),
            ),
            r.spec_context_tokens() == Map::<Seq<char>, Seq<char>>::empty(),
    {
        let http = match self.http {
            Some(h) => h,
            None => make_http(),
        };
        ILinkClient::from_parts(
            http,
            self.base_url,
            self.cdn_base_url,
            self.token,
            self.route_tag,
            self.channel_version,
        )
    }

    /// Build with a custom HTTP backend that has a default value: the one set,
    /// else `H::default()`.
    pub fn build_with(self) -> (r: ILinkClient<H>) where H: Default
        ensures
            self.spec_http() matches Some(h) ==> r.spec_http() == h,
            r.configured_from(
                self.spec_base_url(),
                self.spec_cdn_base_url(),
                self.spec_token(),
                self.spec_route_tag(),
                self.spec_channel_version(),
            ),
            r.spec_context_tokens() == Map::<Seq<char>, Seq<char>>::empty(),
    {
        let http = match self.http {
            Some(h) => h,
            None => H::default(),
        };
        ILinkClient::from_parts(
            http,
            self.base_url,
            self.cdn_base_url,
            self.token,
            self.route_tag,
            self.channel_version,
        )
    }

    /// Build with a custom HTTP backend (must have been set via `http_client`).
    pub fn build_with_http(self) -> (r: Result<ILinkClient<H>, Error>)
        ensures
            match r {
                Ok(c) => self.spec_http() == Some(c.spec_http()) && c.configured_from(
                    self.spec_base_url(),
                    self.spec_cdn_base_url(),
                    self.spec_token(),
                    self.spec_route_tag(),
                    self.spec_channel_version(),
                ) && c.spec_context_tokens() == Map::<Seq<char>, Seq<char>>::empty(),
                Err(e) => self.spec_http() is None && e is Other,
            },
    {
        match self.http {
            Some(h) => Ok(
                ILinkClient::from_parts(
                    h,
                    self.base_url,
                    self.cdn_base_url,
                    self.token,
                    self.route_tag,
                    self.channel_version,
                ),
            ),
            None => Err(Error::Other(owned("http_client is required for custom HttpClient"))),
        }
    }
}

/// The base URL a login ends with: the one the server returned where it is
/// non-empty, else the configured one.
pub open spec fn spec_login_base_url(returned: Option<Seq<char>>, configured: Option<Seq<char>>) -> Option<Seq<char>> {
    match returned {
        Some(u) if u.len() > 0 => Some(u),
        _ => configured,
    }
}

pub fn login_base_url(returned: Option<&str>, configured: Option<String>) -> (r: Option<String>)
    ensures
        opt_view(r) == spec_login_base_url(
            match returned {
                Some(u) => Some(u@),
                None => None,
            },
            opt_view(configured),
        ),
{
    if let Some(u) = returned {
        if u.unicode_len() > 0 {
            return Some(owned(u));
        }
    }
    configured
}

/// The UTF-8 bytes of the decimal digits of a number.
pub open spec fn decimal_string_bytes(n: u32) -> Seq<u8> {
    vstd::utf8::encode_utf8(spec_decimal(n as nat))
}

/// `X-WECHAT-UIN` for a number: base64 of its decimal digits.
pub open spec fn spec_wechat_uin(n: u32) -> Seq<char> {
    base64_standard_encoded(decimal_string_bytes(n))
}

/// The `X-WECHAT-UIN` header value for a number.
pub fn wechat_uin(n: u32) -> (r: String)
    ensures
        r@ == spec_wechat_uin(n),
{
    let digits = decimal_string(n as u64);
    b64_encode_standard(digits.as_str().as_bytes())
}

/// A random `X-WECHAT-UIN` header value.
pub fn random_wechat_uin() -> (r: String)
    ensures
        exists|n: u32| r@ == #[trigger] spec_wechat_uin(n),
{
    let n = random_u32();
    wechat_uin(n)
}

// ── The client ──────────────────────────────────────────────────────────────

impl<H> ILinkClient<H> {
    pub closed spec fn spec_http(&self) -> H {
        self.http
    }

    pub closed spec fn spec_base_url(&self) -> Seq<char> {
        self.base_url@
    }

    pub closed spec fn spec_cdn_base_url(&self) -> Seq<char> {
        self.cdn_base_url@
    }

    pub closed spec fn spec_token(&self) -> Option<Seq<char>> {
        opt_view(self.token)
    }

    pub closed spec fn spec_route_tag(&self) -> Option<Seq<char>> {
        opt_view(self.route_tag)
    }

    pub closed spec fn spec_channel_version(&self) -> Seq<char> {
        self.channel_version@
    }

    pub closed spec fn spec_context_tokens(&self) -> Map<Seq<char>, Seq<char>> {
        self.context_tokens@
    }

    /// The client's settings are those that the given options resolve to.
    pub open spec fn configured_from(
        &self,
        base_url: Option<Seq<char>>,
        cdn_base_url: Option<Seq<char>>,
        token: Option<Seq<char>>,
        route_tag: Option<Seq<char>>,
        channel_version: Option<Seq<char>>,
    ) -> bool {
        &&& self.spec_base_url() == spec_resolved_url(base_url, DEFAULT_BASE_URL@)
        &&& self.spec_cdn_base_url() == spec_resolved_url(cdn_base_url, DEFAULT_CDN_BASE_URL@)
        &&& self.spec_token() == token
        &&& self.spec_route_tag() == route_tag
        &&& self.spec_channel_version() == (match channel_version {
            Some(v) => v,
            None => DEFAULT_CHANNEL_VERSION@,
        })
    }

    /// A client from its parts: URLs that fail to parse fall back to the
    /// defaults, and the channel version defaults to the SDK's version.
    pub fn from_parts(
        http: H,
        base_url: Option<String>,
        cdn_base_url: Option<String>,
        token: Option<String>,
        route_tag: Option<String>,
        channel_version: Option<String>,
    ) -> (r: Self)
        ensures
            r.spec_http() == http,
            r.configured_from(
                opt_view(base_url),
                opt_view(cdn_base_url),
                opt_view(token),
                opt_view(route_tag),
                opt_view(channel_version),
            ),
            r.spec_context_tokens() == Map::<Seq<char>, Seq<char>>::empty(),
    {
        let base_url = resolve_url(base_url, DEFAULT_BASE_URL);
        let cdn_base_url = resolve_url(cdn_base_url, DEFAULT_CDN_BASE_URL);
        let channel_version = match channel_version {
            Some(v) => v,
            None => owned(DEFAULT_CHANNEL_VERSION),
        };
        ILinkClient {
            http,
            base_url,
            cdn_base_url,
            token,
            route_tag,
            channel_version,
            context_tokens: ContextTokens::new(),
        }
    }

    pub fn builder() -> (r: ILinkClientBuilder<H>)
        ensures
            r.spec_http() is None,
            r.spec_base_url() is None,
            r.spec_cdn_base_url() is None,
            r.spec_token() is None,
            r.spec_route_tag() is None,
            r.spec_channel_version() is None,
    {
        ILinkClientBuilder::new()
    }

    /// Give up the client, keeping its HTTP backend.
    pub fn into_http(self) -> (r: H)
        ensures
            r == self.spec_http(),
    {
        self.http
    }

    pub fn http(&self) -> (r: &H)
        ensures
            *r == self.spec_http(),
    {
        &self.http
    }

    /// The API base URL, as `url::Url` serializes it.
    pub fn base_url(&self) -> (r: &str)
        ensures
            r@ == self.spec_base_url(),
    {
        self.base_url.as_str()
    }

    /// The CDN base URL, as `url::Url` serializes it.
    pub fn cdn_base_url(&self) -> (r: &str)
        ensures
            r@ == self.spec_cdn_base_url(),
    {
        self.cdn_base_url.as_str()
    }

    pub fn token(&self) -> (r: Option<&str>)
        ensures
            match r {
                Some(t) => self.spec_token() == Some(t@),
                None => self.spec_token() is None,
            },
    {
        match &self.token {
            Some(t) => Some(t.as_str()),
            None => None,
        }
    }

    pub fn route_tag(&self) -> (r: Option<&str>)
        ensures
            match r {
                Some(t) => self.spec_route_tag() == Some(t@),
                None => self.spec_route_tag() is None,
            },
    {
        match &self.route_tag {
            Some(t) => Some(t.as_str()),
            None => None,
        }
    }

    pub fn channel_version(&self) -> (r: &str)
        ensures
            r@ == self.spec_channel_version(),
    {
        self.channel_version.as_str()
    }

    // ── Context token cache ─────────────────────────────────────────────

    /// Cache a context_token for a user.
    pub fn set_context_token(&mut self, user_id: &str, context_token: &str)
        ensures
            final(self).spec_context_tokens() == old(self).spec_context_tokens().insert(
                user_id@,
                context_token@,
            ),
            final(self).spec_http() == old(self).spec_http(),
            final(self).spec_base_url() == old(self).spec_base_url(),
            final(self).spec_cdn_base_url() == old(self).spec_cdn_base_url(),
            final(self).spec_token() == old(self).spec_token(),
            final(self).spec_route_tag() == old(self).spec_route_tag(),
            final(self).spec_channel_version() == old(self).spec_channel_version(),
    {
        self.context_tokens.set(user_id, context_token);
    }

    /// Get the cached context_token for a user.
    pub fn get_context_token(&self, user_id: &str) -> (r: Option<String>)
        ensures
            match r {
                Some(t) => self.spec_context_tokens().contains_key(user_id@)
                    && self.spec_context_tokens()[user_id@] == t@,
                None => !self.spec_context_tokens().contains_key(user_id@),
            },
    {
        self.context_tokens.get(user_id)
    }

    /// The context token a proactive message to `to` goes with.
    pub fn push_context_token(&self, to: &str) -> (r: Result<String, Error>)
        ensures
            match r {
                Ok(t) => self.spec_context_tokens().contains_key(to@) && self.spec_context_tokens()[to@]
                    == t@,
                Err(e) => !self.spec_context_tokens().contains_key(to@) && e is MissingContextToken,
            },
    {
        match self.get_context_token(to) {
            Some(t) => Ok(t),
            None => Err(Error::MissingContextToken),
        }
    }

    // ── Requests ────────────────────────────────────────────────────────

    pub fn base_info(&self) -> (r: BaseInfo)
        ensures
            opt_view(r.channel_version) == Some(self.spec_channel_version()),
    {
        BaseInfo { channel_version: Some(self.channel_version.clone()) }
    }

    pub open spec fn spec_base_url_str(&self) -> Seq<char> {
        spec_trim_end_char(self.spec_base_url(), '/')
    }

    /// The base URL without trailing slashes.
    pub fn base_url_str(&self) -> (r: &str)
        ensures
            r@ == self.spec_base_url_str(),
    {
        trim_end_char(self.base_url.as_str(), '/')
    }

    /// URL of an API endpoint.
    pub open spec fn spec_endpoint_url(&self, endpoint: Seq<char>) -> Seq<char> {
        if endpoint.len() > 0 && endpoint[0] == '/' {
            self.spec_base_url_str() + endpoint
        } else {
            self.spec_base_url_str() + "/"@ + endpoint
        }
    }

    /// Headers of an API request with a body of `body_len` bytes.
    pub open spec fn spec_api_headers(&self, body_len: nat, uin: Seq<char>) -> Seq<(Seq<char>, Seq<char>)> {
        seq![
            ("Content-Type"@, "application/json"@),
            ("Content-Length"@, spec_decimal(body_len)),
            ("AuthorizationType"@, "ilink_bot_token"@),
            ("X-WECHAT-UIN"@, uin),
        ] + (match self.spec_token() {
            Some(t) => seq![("Authorization"@, "Bearer "@ + t)],
            None => seq![],
        }) + (match self.spec_route_tag() {
            Some(tag) => seq![("SKRouteTag"@, tag)],
            None => seq![],
        })
    }

    /// The POST request for an API endpoint, with a given `X-WECHAT-UIN`.
    pub fn build_request_with_uin(&self, endpoint: &str, body: Vec<u8>, uin: &str) -> (r: HttpRequest)
        ensures
            r.method == HttpMethod::Post,
            r.url@ == self.spec_endpoint_url(endpoint@),
            spec_headers(r.headers@) == self.spec_api_headers(body@.len(), uin@),
            r.body@ == body@,
    {
        let base = self.base_url_str();
        let mut url = owned(base);
        proof {
            reveal_strlit("/");
        }
        let slash = starts_with(endpoint, "/");
        proof {
            if endpoint@.len() > 0 && endpoint@[0] == '/' {
                assert(endpoint@.take(1) =~= "/"@);
            }
            if slash {
                assert(endpoint@.take(1)[0] == '/');
            }
        }
        if !slash {
            url.append("/");
        }
        url.append(endpoint);
        let len_text = decimal_string(body.len() as u64);
        let mut headers: Vec<(String, String)> = Vec::new();
        headers.push(header("Content-Type", "application/json"));
        headers.push(header("Content-Length", len_text.as_str()));
        headers.push(header("AuthorizationType", "ilink_bot_token"));
        headers.push(header("X-WECHAT-UIN", uin));
        let ghost fixed = spec_headers(headers@);
        if let Some(token) = &self.token {
            let mut value = owned("Bearer ");
            value.append(token.as_str());
            headers.push(header("Authorization", value.as_str()));
        }
        let ghost with_token = spec_headers(headers@);
        if let Some(tag) = &self.route_tag {
            headers.push(header("SKRouteTag", tag.as_str()));
        }
        proof {
            assert(fixed =~= seq![
                ("Content-Type"@, "application/json"@),
                ("Content-Length"@, spec_decimal(body@.len())),
                ("AuthorizationType"@, "ilink_bot_token"@),
                ("X-WECHAT-UIN"@, uin@),
            ]);
            assert(with_token =~= fixed + (match self.spec_token() {
                Some(t) => seq![("Authorization"@, "Bearer "@ + t)],
                None => seq![],
            }));
            assert(spec_headers(headers@) =~= self.spec_api_headers(body@.len(), uin@));
        }
        HttpRequest { method: HttpMethod::Post, url, headers, body }
    }

    /// The POST request for an API endpoint, with a random `X-WECHAT-UIN`.
    pub fn build_request(&self, endpoint: &str, body: Vec<u8>) -> (r: HttpRequest)
        ensures
            r.method == HttpMethod::Post,
            r.url@ == self.spec_endpoint_url(endpoint@),
            exists|n: u32|
                spec_headers(r.headers@) == self.spec_api_headers(body@.len(), #[trigger] spec_wechat_uin(n)),
            r.body@ == body@,
    {
        let uin = random_wechat_uin();
        self.build_request_with_uin(endpoint, body, uin.as_str())
    }

    /// The `getUpdates` request for a sync cursor.
    pub fn get_updates_request(&self, get_updates_buf: &str) -> (r: GetUpdatesRequest)
        ensures
            r.get_updates_buf@ == get_updates_buf@,
            opt_view(r.base_info.channel_version) == Some(self.spec_channel_version()),
    {
        GetUpdatesRequest { get_updates_buf: owned(get_updates_buf), base_info: self.base_info() }
    }

    /// A message to send, with the client's base info where it has none.
    pub fn with_base_info(&self, req: SendMessageRequest) -> (r: SendMessageRequest)
        ensures
            r.msg == req.msg,
            match req.base_info {
                Some(b) => r.base_info == Some(b),
                None => r.base_info matches Some(b) && opt_view(b.channel_version) == Some(
                    self.spec_channel_version(),
                ),
            },
    {
        match req.base_info {
            Some(b) => SendMessageRequest { msg: req.msg, base_info: Some(b) },
            None => SendMessageRequest { msg: req.msg, base_info: Some(self.base_info()) },
        }
    }

    /// The `getConfig` request for a user.
    pub fn get_config_request(&self, user_id: &str, context_token: Option<&str>) -> (r: GetConfigRequest)
        ensures
            r.ilink_user_id@ == user_id@,
            opt_view(r.context_token) == (match context_token {
                Some(t) => Some(t@),
                None => None,
            }),
            r.base_info matches Some(b) && opt_view(b.channel_version) == Some(self.spec_channel_version()),
    {
        GetConfigRequest {
            ilink_user_id: owned(user_id),
            context_token: match context_token {
                Some(t) => Some(owned(t)),
                None => None,
            },
            base_info: Some(self.base_info()),
        }
    }

    /// The `sendTyping` request.
    pub fn send_typing_request(&self, user_id: &str, typing_ticket: &str, status: TypingStatus) -> (r:
        SendTypingRequest)
        ensures
            r.ilink_user_id@ == user_id@,
            r.typing_ticket@ == typing_ticket@,
            r.status == status,
            r.base_info matches Some(b) && opt_view(b.channel_version) == Some(self.spec_channel_version()),
    {
        SendTypingRequest {
            ilink_user_id: owned(user_id),
            typing_ticket: owned(typing_ticket),
            status,
            base_info: Some(self.base_info()),
        }
    }

    // ── QR login ────────────────────────────────────────────────────────

    pub open spec fn spec_qrcode_url(&self, bot_type: &str) -> Seq<char> {
        self.spec_base_url_str() + "/ilink/bot/get_bot_qrcode?bot_type="@ + spec_pct_encode(
            bot_type.spec_bytes(),
        )
    }

    pub open spec fn spec_qrcode_status_url(&self, qrcode: &str) -> Seq<char> {
        self.spec_base_url_str() + "/ilink/bot/get_qrcode_status?qrcode="@ + spec_pct_encode(
            qrcode.spec_bytes(),
        )
    }

    /// The GET that asks for a login QR code.
    pub fn qrcode_request(&self, bot_type: &str) -> (r: HttpRequest)
        ensures
            r.method == HttpMethod::Get,
            r.url@ == self.spec_qrcode_url(bot_type),
            r.headers@.len() == 0,
            r.body@.len() == 0,
    {
        let mut url = owned(self.base_url_str());
        url.append("/ilink/bot/get_bot_qrcode?bot_type=");
        let b = url_encode(bot_type);
        url.append(b.as_str());
        HttpRequest { method: HttpMethod::Get, url, headers: Vec::new(), body: Vec::new() }
    }

    /// The GET that long-polls the status of a login QR code.
    pub fn qrcode_status_request(&self, qrcode: &str) -> (r: HttpRequest)
        ensures
            r.method == HttpMethod::Get,
            r.url@ == self.spec_qrcode_status_url(qrcode),
            r.headers@.len() == 0,
            r.body@.len() == 0,
    {
        let mut url = owned(self.base_url_str());
        url.append("/ilink/bot/get_qrcode_status?qrcode=");
        let q = url_encode(qrcode);
        url.append(q.as_str());
        HttpRequest { method: HttpMethod::Get, url, headers: Vec::new(), body: Vec::new() }
    }

    // ── CDN ─────────────────────────────────────────────────────────────

    pub open spec fn spec_cdn_root(&self) -> Seq<char> {
        spec_trim_end_char(self.spec_cdn_base_url(), '/')
    }

    pub open spec fn spec_cdn_upload_url(&self, upload_param: &str, filekey: &str) -> Seq<char> {
        self.spec_cdn_root() + "/upload?encrypted_query_param="@ + spec_pct_encode(
            upload_param.spec_bytes(),
        ) + "&filekey="@ + spec_pct_encode(filekey.spec_bytes())
    }

    pub open spec fn spec_cdn_download_url(&self, param: &str) -> Seq<char> {
        self.spec_cdn_root() + "/download?encrypted_query_param="@ + spec_pct_encode(param.spec_bytes())
    }

    /// URL to upload an object to.
    pub fn cdn_upload_url(&self, upload_param: &str, filekey: &str) -> (r: String)
        ensures
            r@ == self.spec_cdn_upload_url(upload_param, filekey),
    {
        let mut url = owned(trim_end_char(self.cdn_base_url.as_str(), '/'));
        url.append("/upload?encrypted_query_param=");
        let p = url_encode(upload_param);
        url.append(p.as_str());
        url.append("&filekey=");
        let k = url_encode(filekey);
        url.append(k.as_str());
        url
    }

    /// The POST that uploads raw bytes to the CDN.
    pub fn cdn_upload_request(&self, upload_param: &str, filekey: &str, body: &[u8]) -> (r: HttpRequest)
        ensures
            r.method == HttpMethod::Post,
            r.url@ == self.spec_cdn_upload_url(upload_param, filekey),
            spec_headers(r.headers@) == seq![("Content-Type"@, "application/octet-stream"@)],
            r.body@ == body@,
    {
        let url = self.cdn_upload_url(upload_param, filekey);
        let mut headers: Vec<(String, String)> = Vec::new();
        headers.push(header("Content-Type", "application/octet-stream"));
        let mut b: Vec<u8> = Vec::new();
        crate::voice::append_bytes(&mut b, body);
        proof {
            assert(spec_headers(headers@) =~= seq![("Content-Type"@, "application/octet-stream"@)]);
            assert(b@ =~= body@);
        }
        HttpRequest { method: HttpMethod::Post, url, headers, body: b }
    }

    /// URL to download an object from.
    pub fn cdn_download_url(&self, encrypt_query_param: &str) -> (r: String)
        ensures
            r@ == self.spec_cdn_download_url(encrypt_query_param),
    {
        let mut url = owned(trim_end_char(self.cdn_base_url.as_str(), '/'));
        url.append("/download?encrypted_query_param=");
        let p = url_encode(encrypt_query_param);
        url.append(p.as_str());
        url
    }

    /// The GET that downloads raw bytes from the CDN.
    pub fn cdn_download_request(&self, encrypt_query_param: &str) -> (r: HttpRequest)
        ensures
            r.method == HttpMethod::Get,
            r.url@ == self.spec_cdn_download_url(encrypt_query_param),
            r.headers@.len() == 0,
            r.body@.len() == 0,
    {
        HttpRequest {
            method: HttpMethod::Get,
            url: self.cdn_download_url(encrypt_query_param),
            headers: Vec::new(),
            body: Vec::new(),
        }
    }
}

// ── Reading answers ─────────────────────────────────────────────────────────

/// The `ret`, `errcode` and `errmsg` an API answer carries, where its body
/// holds them.
#[derive(Debug)]
pub struct ApiStatus {
    pub ret: Option<i32>,
    pub errcode: Option<i32>,
    pub errmsg: Option<String>,
}

pub open spec fn is_success_status(status: u16) -> bool {
    200 <= status && status <= 299
}

/// How an API answer reads: a non-2xx status is an HTTP error carrying the
/// body as text; a 2xx answer whose body says `ret != 0` is an API error;
/// anything else goes on to be decoded.
pub fn check_api_response(status: u16, body: &[u8], check: Option<ApiStatus>) -> (r: Result<(), Error>)
    ensures
        !is_success_status(status) ==> (r matches Err(Error::Http(HttpError::Status { status: s, body: text }))
            && s == status && text@ == utf8_lossy(body@)),
        is_success_status(status) ==> match check {
            Some(c) if c.ret is Some && c.ret->0 != 0 => r matches Err(
                Error::Api { ret, errcode, message },
            ) && ret == c.ret->0 && errcode == c.errcode && message@ == (match c.errmsg {
                Some(m) => m@,
                None => Seq::<char>::empty(),
            }),
            _ => r is Ok,
        },
{
    if !(200 <= status && status <= 299) {
        let text = utf8_lossy_text(body);
        return Err(Error::Http(HttpError::Status { status, body: text }));
    }
    if let Some(c) = check {
        let ret = match c.ret {
            Some(r) => r,
            None => 0,
        };
        if ret != 0 {
            let message = match c.errmsg {
                Some(m) => m,
                None => String::new(),
            };
            return Err(Error::Api { ret, errcode: c.errcode, message });
        }
    }
    Ok(())
}

/// The empty answer `getUpdates` stands for when the long poll times out on
/// the client's side: no messages and the cursor unchanged.
pub open spec fn is_empty_updates(r: GetUpdatesResponse, buf: Seq<char>) -> bool {
    &&& r.ret == Some(0i32)
    &&& r.errcode is None
    &&& r.errmsg is None
    &&& r.msgs matches Some(m) && m@.len() == 0
    &&& opt_view(r.get_updates_buf) == Some(buf)
    &&& r.longpolling_timeout_ms is None
}

/// The outcome of `getUpdates`: a client-side timeout is an empty answer,
/// anything else is passed on.
pub fn get_updates_outcome(result: Result<GetUpdatesResponse, Error>, get_updates_buf: &str) -> (r: Result<
    GetUpdatesResponse,
    Error,
>)
    ensures
        (result matches Err(Error::Http(HttpError::Timeout(_)))) ==> (r matches Ok(resp)
            && is_empty_updates(resp, get_updates_buf@)),
        !(result matches Err(Error::Http(HttpError::Timeout(_)))) ==> r == result,
{
    match result {
        Err(Error::Http(HttpError::Timeout(_))) => {
            let msgs: Vec<Message> = Vec::new();
            Ok(
                GetUpdatesResponse {
                    ret: Some(0),
                    errcode: None,
                    errmsg: None,
                    msgs: Some(msgs),
                    get_updates_buf: Some(owned(get_updates_buf)),
                    longpolling_timeout_ms: None,
                },
            )
        },
        other => other,
    }
}

pub open spec fn spec_is_session_expired(resp: GetUpdatesResponse) -> bool {
    resp.errcode == Some(SESSION_EXPIRED_ERRCODE) || resp.ret == Some(SESSION_EXPIRED_ERRCODE)
}

pub open spec fn spec_is_api_error(resp: GetUpdatesResponse) -> bool {
    (resp.ret is Some && resp.ret != Some(0i32)) || (resp.errcode is Some && resp.errcode != Some(0i32))
}

/// Check if a `GetUpdatesResponse` indicates a session-expired error.
pub fn is_session_expired(resp: &GetUpdatesResponse) -> (r: bool)
    ensures
        r == spec_is_session_expired(*resp),
{
    let by_code = match resp.errcode {
        Some(c) => c == SESSION_EXPIRED_ERRCODE,
        None => false,
    };
    let by_ret = match resp.ret {
        Some(c) => c == SESSION_EXPIRED_ERRCODE,
        None => false,
    };
    by_code || by_ret
}

/// Check if a `GetUpdatesResponse` indicates an API error.
pub fn is_api_error(resp: &GetUpdatesResponse) -> (r: bool)
    ensures
        r == spec_is_api_error(*resp),
{
    let bad_ret = match resp.ret {
        Some(c) => c != 0,
        None => false,
    };
    let bad_code = match resp.errcode {
        Some(c) => c != 0,
        None => false,
    };
    bad_ret || bad_code
}

/// How `getUpdates` answers are classified: the session has expired exactly
/// when `errcode` or `ret` is -14, and an answer is an API error exactly when
/// `ret` or `errcode` is present and not 0.
pub proof fn lemma_answer_classes(resp: GetUpdatesResponse)
    ensures
        spec_is_session_expired(resp) <==> (resp.errcode == Some(-14i32) || resp.ret == Some(-14i32)),
        spec_is_api_error(resp) <==> ((resp.ret is Some && resp.ret->0 != 0) || (resp.errcode is Some
            && resp.errcode->0 != 0)),
        resp.ret == Some(0i32) && resp.errcode is None ==> !spec_is_api_error(resp) && !spec_is_session_expired(
            resp,
        ),
{
}

/// A session-expired answer is also an API error.
pub proof fn lemma_session_expired_is_api_error(resp: GetUpdatesResponse)
    requires
        spec_is_session_expired(resp),
    ensures
        spec_is_api_error(resp),
{
}

/// How a CDN upload answer reads: a status of 400 or above is a CDN error
/// carrying the status and the server's message; otherwise the answer must
/// carry the download parameter.
pub fn cdn_upload_outcome(
    status: u16,
    status_text: &str,
    error_message: Option<&str>,
    encrypted_param: Option<&str>,
) -> (r: Result<String, Error>)
    ensures
        status >= 400 ==> (r matches Err(Error::Cdn { message, status_code })
            && status_code == Some(status) && message@ == "CDN upload failed "@ + status_text@ + ": "@
            + (match error_message {
            Some(m) => m@,
            None => "unknown error"@,
        })),
        status < 400 ==> match encrypted_param {
            Some(p) => r matches Ok(s) && s@ == p@,
            None => r matches Err(Error::Cdn { status_code, .. }) && status_code is None,
        },
{
    if status >= 400 {
        let mut message = owned("CDN upload failed ");
        message.append(status_text);
        message.append(": ");
        match error_message {
            Some(m) => message.append(m),
            None => message.append("unknown error"),
        }
        return Err(Error::Cdn { message, status_code: Some(status) });
    }
    match encrypted_param {
        Some(p) => Ok(owned(p)),
        None => Err(
            Error::Cdn {
                message: owned("missing x-encrypted-param in CDN response"),
                status_code: None,
            },
        ),
    }
}

/// How a CDN download answer reads: a non-2xx status is a CDN error carrying
/// the status and the body as text; otherwise the body is the object.
pub fn cdn_download_outcome(status: u16, status_text: &str, body: Vec<u8>) -> (r: Result<Vec<u8>, Error>)
    ensures
        is_success_status(status) ==> (r matches Ok(b) && b@ == body@),
        !is_success_status(status) ==> (r matches Err(Error::Cdn { message, status_code })
            && status_code == Some(status) && message@ == "CDN download "@ + status_text@ + ": "@
            + utf8_lossy(body@)),
{
    if !(200 <= status && status <= 299) {
        let text = utf8_lossy_text(body.as_slice());
        let mut message = owned("CDN download ");
        message.append(status_text);
        message.append(": ");
        message.append(text.as_str());
        return Err(Error::Cdn { message, status_code: Some(status) });
    }
    Ok(body)
}

} // verus!
