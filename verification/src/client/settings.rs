//! Connection settings of the provider clients: API endpoints, the
//! connect timeout, and the default request headers that carry the
//! credentials.
//!
//! A client is built from these settings; a credential that cannot be
//! sent as an HTTP header value is refused before any client is
//! built.

use vstd::prelude::*;
use crate::json::text;

verus! {

/// Whether `c` may stand in an HTTP header value: a tab, or a
/// character whose UTF-8 bytes are all visible (at least 32 and not
/// 127). Characters beyond ASCII are encoded by bytes of at least 128,
/// so they are all accepted.
pub open spec fn header_char_ok(c: char) -> bool {
    let n = c as u32;
    (n >= 32 && n != 127) || n == 9
}

/// Whether every character of `s` may stand in an HTTP header value.
pub open spec fn header_value_ok(s: Seq<char>) -> bool {
    forall|i: int| 0 <= i < s.len() ==> header_char_ok(#[trigger] s[i])
}

/// `reqwest::header::HeaderValue::from_str`: it succeeds exactly when
/// every byte of the string is a tab or a byte of at least 32 other
/// than 127.
#[verifier::external_body]
fn header_value_accepts(s: &str) -> (r: bool)
    ensures
        r == header_value_ok(s@),
{
    reqwest::header::HeaderValue::from_str(s).is_ok()
}

/// The characters of `a` followed by those of `b`.
fn concat(a: &str, b: &str) -> (r: String)
    ensures
        r@ == a@ + b@,
{
    let mut r = text(a);
    r.append(b);
    r
}

/// Whether `s` can be sent as an HTTP header value.
pub fn is_valid_header_value(s: &str) -> (r: bool)
    ensures
        r == header_value_ok(s@),
{
    header_value_accepts(s)
}

/// The URL of `path` under the API endpoint `endpoint`.
pub fn endpoint_url(endpoint: &str, path: &str) -> (r: String)
    ensures
        r@ == endpoint@ + path@,
{
    concat(endpoint, path)
}

/// The credentials of a bearer token: `Bearer ` and the token.
pub fn bearer(token: &str) -> (r: String)
    ensures
        r@ == "Bearer "@ + token@,
{
    concat("Bearer ", token)
}

/// A default request header.
#[derive(Debug, Clone, PartialEq, Eq)]
pub struct Header {
    /// Header name, in lower case.
    pub name: String,
    /// Header value.
    pub value: String,
    /// Whether the value is a secret, to be kept out of logs.
    pub sensitive: bool,
}

/// Connection settings of an HTTP client.
#[derive(Debug, Clone)]
pub struct Settings {
    /// API endpoint, without a trailing slash.
    pub endpoint: String,
    /// Connect timeout, in seconds.
    pub connect_timeout_secs: u64,
    /// Default request headers, in the order they are set.
    pub headers: Vec<Header>,
}

/// The connect timeout of the Anthropic, Gemini, OpenAI and Ollama
/// clients, in seconds.
pub const CONNECT_TIMEOUT_SECS: u64 = 20;

/// The connect timeout of the OpenRouter client, in seconds.
pub const OPENROUTER_CONNECT_TIMEOUT_SECS: u64 = 30;

/// Whether `h` is the header `name` with value `value`.
pub open spec fn is_header(h: Header, name: Seq<char>, value: Seq<char>, sensitive: bool) -> bool {
    h.name@ == name && h.value@ == value && h.sensitive == sensitive
}

fn header(name: &str, value: String, sensitive: bool) -> (r: Header)
    ensures
        is_header(r, name@, value@, sensitive),
{
    Header { name: text(name), value, sensitive }
}

proof fn lemma_bearer_ok(token: Seq<char>)
    requires
        header_value_ok(token),
    ensures
        header_value_ok("Bearer "@ + token),
{
    reveal_strlit("Bearer ");
    let s = "Bearer "@ + token;
    assert forall|i: int| 0 <= i < s.len() implies header_char_ok(#[trigger] s[i]) by {
        if i >= 7 {
            assert(s[i] == token[i - 7]);
        }
    }
}

impl Settings {
    /// Settings of an Anthropic client: the API token goes in the
    /// sensitive `x-api-key` header, beside the API version and the
    /// beta flag that enables the web fetch tool.
    pub fn anthropic(api_token: &str) -> (r: Self)
        requires
            header_value_ok(api_token@),
        ensures
            r.endpoint@ == "https://api.anthropic.com/v1"@,
            r.connect_timeout_secs == CONNECT_TIMEOUT_SECS,
            r.headers@.len() == 3,
            is_header(r.headers@[0], "x-api-key"@, api_token@, true),
            is_header(r.headers@[1], "anthropic-version"@, "2023-06-01"@, false),
            is_header(r.headers@[2], "anthropic-beta"@, "web-fetch-2025-09-10"@, false),
            forall|i: int| 0 <= i < r.headers@.len() ==> header_value_ok(#[trigger] r.headers@[i].value@),
    {
        proof {
            reveal_strlit("2023-06-01");
            reveal_strlit("web-fetch-2025-09-10");
        }
        let headers = vec![
            header("x-api-key", text(api_token), true),
            header("anthropic-version", text("2023-06-01"), false),
            header("anthropic-beta", text("web-fetch-2025-09-10"), false),
        ];
        Settings {
            endpoint: text("https://api.anthropic.com/v1"),
            connect_timeout_secs: CONNECT_TIMEOUT_SECS,
            headers,
        }
    }

    /// Settings of a Google Gemini client: the API token goes in the
    /// sensitive `x-goog-api-key` header.
    pub fn gemini(api_token: &str) -> (r: Self)
        requires
            header_value_ok(api_token@),
        ensures
            r.endpoint@ == "https://generativelanguage.googleapis.com/v1beta"@,
            r.connect_timeout_secs == CONNECT_TIMEOUT_SECS,
            r.headers@.len() == 1,
            is_header(r.headers@[0], "x-goog-api-key"@, api_token@, true),
            header_value_ok(r.headers@[0].value@),
    {
        Settings {
            endpoint: text("https://generativelanguage.googleapis.com/v1beta"),
            connect_timeout_secs: CONNECT_TIMEOUT_SECS,
            headers: vec![header("x-goog-api-key", text(api_token), true)],
        }
    }

    /// Settings of an OpenAI client: the API token is sent as a bearer
    /// token in the sensitive `authorization` header.
    pub fn openai(api_token: &str) -> (r: Self)
        requires
            header_value_ok(api_token@),
        ensures
            r.endpoint@ == "https://api.openai.com/v1"@,
            r.connect_timeout_secs == CONNECT_TIMEOUT_SECS,
            r.headers@.len() == 1,
            is_header(r.headers@[0], "authorization"@, "Bearer "@ + api_token@, true),
            header_value_ok(r.headers@[0].value@),
    {
        proof {
            lemma_bearer_ok(api_token@);
        }
        Settings {
            endpoint: text("https://api.openai.com/v1"),
            connect_timeout_secs: CONNECT_TIMEOUT_SECS,
            headers: vec![header("authorization", bearer(api_token), true)],
        }
    }

    /// Settings of an OpenRouter client: the API token is sent as a
    /// bearer token in the sensitive `authorization` header.
    pub fn openrouter(api_token: &str) -> (r: Self)
        requires
            header_value_ok(api_token@),
        ensures
            r.endpoint@ == "https://openrouter.ai/api/v1"@,
            r.connect_timeout_secs == OPENROUTER_CONNECT_TIMEOUT_SECS,
            r.headers@.len() == 1,
            is_header(r.headers@[0], "authorization"@, "Bearer "@ + api_token@, true),
            header_value_ok(r.headers@[0].value@),
    {
        proof {
            lemma_bearer_ok(api_token@);
        }
        Settings {
            endpoint: text("https://openrouter.ai/api/v1"),
            connect_timeout_secs: OPENROUTER_CONNECT_TIMEOUT_SECS,
            headers: vec![header("authorization", bearer(api_token), true)],
        }
    }

    /// Settings of an Ollama client for the default local endpoint,
    /// without credentials.
    pub fn ollama() -> (r: Self)
        ensures
            r.endpoint@ == "http://localhost:11434"@,
            r.connect_timeout_secs == CONNECT_TIMEOUT_SECS,
            r.headers@.len() == 0,
    {
        Settings {
            endpoint: text("http://localhost:11434"),
            connect_timeout_secs: CONNECT_TIMEOUT_SECS,
            headers: Vec::new(),
        }
    }

    /// Settings of an Ollama client for a remote endpoint; an API key,
    /// where there is one, is sent as a bearer token in the sensitive
    /// `authorization` header.
    pub fn ollama_remote(endpoint: &str, api_key: Option<&str>) -> (r: Self)
        requires
            api_key matches Some(k) ==> header_value_ok(k@),
        ensures
            r.endpoint@ == endpoint@,
            r.connect_timeout_secs == CONNECT_TIMEOUT_SECS,
            api_key is None ==> r.headers@.len() == 0,
            api_key matches Some(k) ==> r.headers@.len() == 1 && is_header(
                r.headers@[0],
                "authorization"@,
                "Bearer "@ + k@,
                true,
            ) && header_value_ok(r.headers@[0].value@),
    {
        let mut headers: Vec<Header> = Vec::new();
        if let Some(k) = api_key {
            proof {
                lemma_bearer_ok(k@);
            }
            headers.push(header("authorization", bearer(k), true));
        }
        Settings { endpoint: text(endpoint), connect_timeout_secs: CONNECT_TIMEOUT_SECS, headers }
    }
}

} // verus!
