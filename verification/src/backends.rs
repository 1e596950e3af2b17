//! The remote hosting backend: request construction, response
//! judgement, and the OAuth device-authorization flow.
//!
//! Every function here is a decision or a construction on plain
//! values. The caller performs the HTTP requests and hands the decoded
//! responses back; nothing here touches the network.

use vstd::prelude::*;
use vstd::string::{StrSliceExecFns, StringExecFns, StringSliceAdditionalSpecFns};

use crate::cli::common::{contains_str, views};
use crate::cli::get::{opt_view, RemoteRepo};
use crate::text::{hex_char, hex_digit, is_ws_char, push_char, str_trim, trimmed};

verus! {

/// A byte the form encoding passes through unchanged: the ASCII
/// alphanumerics and `*`, `-`, `.`, `_`.
pub open spec fn is_url_safe_byte(b: u8) -> bool {
    (65 <= b && b <= 90) || (97 <= b && b <= 122) || (48 <= b && b <= 57) || b == 42 || b == 45
        || b == 46 || b == 95
}

/// The form encoding of one byte: safe bytes stand for themselves, a
/// space becomes `+`, everything else a `%XX` escape with upper-case
/// hexadecimal digits.
pub open spec fn urlencode_byte(b: u8) -> Seq<char> {
    if is_url_safe_byte(b) {
        seq![b as char]
    } else if b == 32 {
        seq!['+']
    } else {
        seq!['%', hex_digit(b / 16), hex_digit(b % 16)]
    }
}

/// The form encoding of a byte string, byte by byte.
pub open spec fn urlencoded(s: Seq<u8>) -> Seq<char>
    decreases s.len(),
{
    if s.len() == 0 {
        Seq::empty()
    } else {
        urlencode_byte(s[0]) + urlencoded(s.drop_first())
    }
}

proof fn lemma_urlencoded_snoc(s: Seq<u8>)
    requires
        s.len() > 0,
    ensures
        urlencoded(s) == urlencoded(s.drop_last()) + urlencode_byte(s.last()),
    decreases s.len(),
{
    if s.len() == 1 {
        assert(s.drop_first() =~= Seq::<u8>::empty());
        assert(s.drop_last() =~= Seq::<u8>::empty());
        assert(urlencoded(Seq::<u8>::empty()) == Seq::<char>::empty());
        assert(urlencode_byte(s[0]) + Seq::<char>::empty() =~= Seq::<char>::empty()
            + urlencode_byte(s.last()));
    } else {
        let df = s.drop_first();
        lemma_urlencoded_snoc(df);
        assert(df.drop_last() =~= s.drop_last().drop_first());
        assert(s.drop_last().len() > 0);
        assert(s.drop_last()[0] == s[0]);
        assert(urlencode_byte(s[0]) + (urlencoded(df.drop_last()) + urlencode_byte(s.last()))
            =~= (urlencode_byte(s[0]) + urlencoded(s.drop_last().drop_first())) + urlencode_byte(
            s.last(),
        ));
    }
}

/// Encode a string for use as one query-parameter value.
pub fn urlencode(s: &str) -> (r: String)
    ensures
        r@ == urlencoded(s.spec_bytes()),
{
    let bytes = s.as_bytes_vec();
    let mut out = String::new();
    let n = bytes.len();
    let mut i: usize = 0;
    while i < n
        invariant
            n == bytes@.len(),
            i <= n,
            out@ == urlencoded(bytes@.take(i as int)),
        decreases n - i,
    {
        let b = bytes[i];
        proof {
            assert(bytes@.take(i + 1).drop_last() =~= bytes@.take(i as int));
            lemma_urlencoded_snoc(bytes@.take(i + 1));
        }
        if (65 <= b && b <= 90) || (97 <= b && b <= 122) || (48 <= b && b <= 57) || b == 42
            || b == 45 || b == 46 || b == 95 {
            push_char(&mut out, b as char);
        } else if b == 32 {
            push_char(&mut out, '+');
        } else {
            push_char(&mut out, '%');
            push_char(&mut out, hex_char(b / 16));
            push_char(&mut out, hex_char(b % 16));
            proof {
                assert(out@ =~= urlencoded(bytes@.take(i as int)) + urlencode_byte(
                    bytes@[i as int],
                ));
            }
        }
        i += 1;
    }
    proof {
        assert(bytes@.take(n as int) =~= bytes@);
    }
    out
}

/// The escape of one character inside a JSON string literal: quote and
/// backslash get a backslash escape, control characters a `\u00XX`
/// escape, everything else stands for itself.
pub open spec fn json_esc_char(c: char) -> Seq<char> {
    if c == '"' {
        seq!['\\', '"']
    } else if c == '\\' {
        seq!['\\', '\\']
    } else if (c as u32) < 32 {
        seq!['\\', 'u', '0', '0', hex_digit((c as u8) / 16), hex_digit((c as u8) % 16)]
    } else {
        seq![c]
    }
}

/// The body of a JSON string literal holding `s`.
pub open spec fn json_escaped(s: Seq<char>) -> Seq<char>
    decreases s.len(),
{
    if s.len() == 0 {
        Seq::empty()
    } else {
        json_esc_char(s[0]) + json_escaped(s.drop_first())
    }
}

proof fn lemma_json_escaped_snoc(s: Seq<char>)
    requires
        s.len() > 0,
    ensures
        json_escaped(s) == json_escaped(s.drop_last()) + json_esc_char(s.last()),
    decreases s.len(),
{
    if s.len() == 1 {
        assert(s.drop_first() =~= Seq::<char>::empty());
        assert(s.drop_last() =~= Seq::<char>::empty());
        assert(json_escaped(Seq::<char>::empty()) == Seq::<char>::empty());
        assert(json_esc_char(s[0]) + Seq::<char>::empty() =~= Seq::<char>::empty() + json_esc_char(
            s.last(),
        ));
    } else {
        let df = s.drop_first();
        lemma_json_escaped_snoc(df);
        assert(df.drop_last() =~= s.drop_last().drop_first());
        assert(s.drop_last().len() > 0);
        assert(s.drop_last()[0] == s[0]);
        assert(json_esc_char(s[0]) + (json_escaped(df.drop_last()) + json_esc_char(s.last()))
            =~= (json_esc_char(s[0]) + json_escaped(s.drop_last().drop_first())) + json_esc_char(
            s.last(),
        ));
    }
}

/// Escape a string for embedding in a JSON string literal.
pub fn json_escape(s: &str) -> (r: String)
    ensures
        r@ == json_escaped(s@),
{
    let n = s.unicode_len();
    let mut out = String::new();
    let mut i: usize = 0;
    while i < n
        invariant
            n == s@.len(),
            i <= n,
            out@ == json_escaped(s@.take(i as int)),
        decreases n - i,
    {
        let c = s.get_char(i);
        proof {
            assert(s@.take(i + 1).drop_last() =~= s@.take(i as int));
            lemma_json_escaped_snoc(s@.take(i + 1));
        }
        if c == '"' {
            push_char(&mut out, '\\');
            push_char(&mut out, '"');
            proof {
                assert(out@ =~= json_escaped(s@.take(i as int)) + json_esc_char(s@[i as int]));
            }
        } else if c == '\\' {
            push_char(&mut out, '\\');
            push_char(&mut out, '\\');
            proof {
                assert(out@ =~= json_escaped(s@.take(i as int)) + json_esc_char(s@[i as int]));
            }
        } else if (c as u32) < 32 {
            let code = c as u8;
            push_char(&mut out, '\\');
            push_char(&mut out, 'u');
            push_char(&mut out, '0');
            push_char(&mut out, '0');
            push_char(&mut out, hex_char(code / 16));
            push_char(&mut out, hex_char(code % 16));
            proof {
                assert(out@ =~= json_escaped(s@.take(i as int)) + json_esc_char(s@[i as int]));
            }
        } else {
            push_char(&mut out, c);
        }
        i += 1;
    }
    proof {
        assert(s@.take(n as int) =~= s@);
    }
    out
}

/// The four headers of an authenticated API request: the provider's
/// media type, the API-version pin, the bearer token (surrounding
/// whitespace stripped, as the cache file is newline-terminated), and
/// the fixed user agent naming this tool.
pub fn make_authenticated_request_headers(token: &str) -> (r: Vec<(String, String)>)
    ensures
        r@.len() == 4,
        r@[0].0@ == "Accept"@ && r@[0].1@ == "application/vnd.github+json"@,
        r@[1].0@ == "X-GitHub-Api-Version"@ && r@[1].1@ == "2022-11-28"@,
        r@[2].0@ == "Authorization"@ && r@[2].1@ == "Bearer "@ + trimmed(token@),
        r@[3].0@ == "User-Agent"@ && r@[3].1@ == "araki"@,
{
    let mut out: Vec<(String, String)> = Vec::new();
    out.push(
        (String::from_str("Accept"), String::from_str("application/vnd.github+json")),
    );
    out.push((String::from_str("X-GitHub-Api-Version"), String::from_str("2022-11-28")));
    let mut bearer = String::from_str("Bearer ");
    let clean = str_trim(token);
    bearer.append(clean.as_str());
    out.push((String::from_str("Authorization"), bearer));
    out.push((String::from_str("User-Agent"), String::from_str("araki")));
    out
}

/// A persisted token reads back exactly: the newline-terminated file
/// content, trimmed again on use, is the original token, for any token
/// that neither starts nor ends with whitespace.
pub proof fn lemma_token_cache_round_trip(token: Seq<char>)
    requires
        token.len() > 0,
        !is_ws_char(token[0]),
        !is_ws_char(token[token.len() - 1]),
    ensures
        trimmed(token + "\n"@) == token,
{
    reveal_strlit("\n");
    let s = token + "\n"@;
    crate::text::lemma_trim_front_at(s, 0);
    assert(s.subrange(0, s.len() as int) =~= s);
    crate::text::lemma_trim_back_at(s, token.len() as int);
    assert(s.subrange(0, token.len() as int) =~= token);
}

/// Path of the cached-token file inside the tool's configuration
/// directory: one token per installation.
pub fn token_cache_path(config_dir: &str) -> (r: String)
    ensures
        r@ == config_dir@ + "/araki-token"@,
{
    let mut out = String::from_str(config_dir);
    out.append("/araki-token");
    out
}

/// The file content a token is persisted as: the raw token, newline
/// terminated, replacing whatever the file held before.
pub fn token_file_content(token: &str) -> (r: String)
    ensures
        r@ == token@ + "\n"@,
{
    let mut out = String::from_str(token);
    out.append("\n");
    out
}

/// API path of the repository-metadata endpoint for one repository.
pub fn repo_metadata_path(org: &str, name: &str) -> (r: String)
    ensures
        r@ == "/repos/"@ + org@ + "/"@ + name@,
{
    let mut out = String::from_str("/repos/");
    out.append(org);
    out.append("/");
    out.append(name);
    out
}

/// API path of the repository-creation endpoint of one organization.
pub fn repo_create_path(org: &str) -> (r: String)
    ensures
        r@ == "/orgs/"@ + org@ + "/repos"@,
{
    let mut out = String::from_str("/orgs/");
    out.append(org);
    out.append("/repos");
    out
}

/// The join of an API base URL and an absolute request path: a
/// trailing slash of the base gives way to the leading slash of the
/// path.
pub open spec fn api_joined(base: Seq<char>, path: Seq<char>) -> Seq<char> {
    if base.len() > 0 && base[base.len() - 1] == '/' && path.len() > 0 && path[0] == '/' {
        base.take(base.len() - 1) + path
    } else {
        base + path
    }
}

/// Whether a repository-metadata response shows an existing
/// repository: a `name` field is present among the decoded fields.
pub fn response_has_name_field(keys: &Vec<String>) -> (r: bool)
    ensures
        r == views(keys@).contains("name"@),
{
    contains_str(keys, "name")
}

/// The creation request body: the repository name, escaped for JSON,
/// and the private flag required by policy.
pub fn create_repository_body(name: &str) -> (r: String)
    ensures
        r@ == "{\"name\":\""@ + json_escaped(name@) + "\",\"private\":true}"@,
{
    let mut out = String::from_str("{\"name\":\"");
    let esc = json_escape(name);
    out.append(esc.as_str());
    out.append("\",\"private\":true}");
    out
}

/// Judge a creation response: an HTTP success status means the
/// repository was provisioned; anything else surfaces the response
/// body text verbatim, a second creation of the same name included.
pub fn create_repository_result(status: u16, body: &str) -> (r: Result<(), String>)
    ensures
        (200 <= status < 300) <==> r is Ok,
        r is Err ==> r->Err_0@ == body@,
{
    if 200 <= status && status < 300 {
        Ok(())
    } else {
        Err(String::from_str(body))
    }
}

/// The device-code endpoint URL with its query: the fixed client
/// identifier of this tool and the requested scopes.
pub fn device_code_url() -> (r: String)
    ensures
        r@ == "https://github.com/login/device/code?client_id=Ov23linBvMCnaKWY4CBz&scope="@
            + urlencoded("repo admin:org".spec_bytes()),
{
    let mut out = String::from_str(
        "https://github.com/login/device/code?client_id=Ov23linBvMCnaKWY4CBz&scope=",
    );
    let scope = urlencode("repo admin:org");
    out.append(scope.as_str());
    out
}

/// The token endpoint URL with its query: client identifier, the
/// session's device code, and the device-code grant type.
pub fn token_request_url(device_code: &str) -> (r: String)
    ensures
        r@ == "https://github.com/login/oauth/access_token?client_id=Ov23linBvMCnaKWY4CBz&device_code="@
            + urlencoded(device_code.spec_bytes()) + "&grant_type="@ + urlencoded(
            "urn:ietf:params:oauth:grant-type:device_code".spec_bytes(),
        ),
{
    let mut out = String::from_str(
        "https://github.com/login/oauth/access_token?client_id=Ov23linBvMCnaKWY4CBz&device_code=",
    );
    let code = urlencode(device_code);
    out.append(code.as_str());
    out.append("&grant_type=");
    let grant = urlencode("urn:ietf:params:oauth:grant-type:device_code");
    out.append(grant.as_str());
    out
}

/// One device-authorization session, held only for the duration of a
/// login attempt: where the operator must go, the code to enter there,
/// the code this client polls with, and the poll interval in seconds.
#[derive(Debug, Clone)]
pub struct DeviceAuthSession {
    pub verification_uri: String,
    pub user_code: String,
    pub device_code: String,
    pub poll_interval: u64,
}

/// The two operator prompt lines of a login: where to go and the code
/// to enter there. Printing them is a required observable side effect;
/// the human acts on another device.
pub fn login_prompt_lines(verification_uri: &str, user_code: &str) -> (r: (String, String))
    ensures
        r.0@ == "Please visit: "@ + verification_uri@,
        r.1@ == "and enter code: "@ + user_code@,
{
    let mut first = String::from_str("Please visit: ");
    first.append(verification_uri);
    let mut second = String::from_str("and enter code: ");
    second.append(user_code);
    (first, second)
}

/// One decoded response of the provider's token endpoint: its error
/// code, if any, and the access token, if any. The caller decodes the
/// free-form key/value response into this.
#[derive(Debug, Clone)]
pub struct TokenResponse {
    pub error: Option<String>,
    pub access_token: Option<String>,
}

/// What the poll loop does after one token response: sleep this many
/// seconds and poll again, persist the token and stop, or give the
/// login up for good.
#[derive(Debug)]
pub enum PollStep {
    Wait(u64),
    Success(String),
    Failure(String),
}

/// The contract-level picture of a poll step.
pub enum PollStepModel {
    Wait(u64),
    Success(Seq<char>),
    Failure(Seq<char>),
}

pub open spec fn poll_step_view(s: PollStep) -> PollStepModel {
    match s {
        PollStep::Wait(n) => PollStepModel::Wait(n),
        PollStep::Success(t) => PollStepModel::Success(t@),
        PollStep::Failure(m) => PollStepModel::Failure(m@),
    }
}

pub open spec fn expired_token_message() -> Seq<char> {
    "The GitHub token araki uses has expired. Please run `login` again."@
}

pub open spec fn access_denied_message() -> Seq<char> {
    "Login cancelled by user."@
}

pub open spec fn missing_token_message() -> Seq<char> {
    "Unexpected response while getting a GitHub user access token"@
}

pub open spec fn provider_error_message(e: Seq<char>) -> Seq<char> {
    "Error getting araki github app token: "@ + e
}

/// The decision the poll loop takes on one token response. No error
/// field means success, and then the access token must be present or
/// the response is a protocol error. A pending authorization waits the
/// interval; a provider-mandated slowdown waits five seconds longer;
/// an expired code, an operator denial, and any unrecognized error
/// code end the login.
pub open spec fn poll_decision(
    error: Option<Seq<char>>,
    token: Option<Seq<char>>,
    interval: u64,
) -> PollStepModel {
    match error {
        None => match token {
            Some(t) => PollStepModel::Success(t),
            None => PollStepModel::Failure(missing_token_message()),
        },
        Some(e) => if e == "authorization_pending"@ {
            PollStepModel::Wait(interval)
        } else if e == "slow_down"@ {
            PollStepModel::Wait((interval + 5) as u64)
        } else if e == "expired_token"@ {
            PollStepModel::Failure(expired_token_message())
        } else if e == "access_denied"@ {
            PollStepModel::Failure(access_denied_message())
        } else {
            PollStepModel::Failure(provider_error_message(e))
        },
    }
}

/// Decide what one token response means for the poll loop.
pub fn poll_step(resp: &TokenResponse, interval: u64) -> (r: PollStep)
    requires
        interval <= u64::MAX - 5,
    ensures
        poll_step_view(r) == poll_decision(
            opt_view(resp.error),
            opt_view(resp.access_token),
            interval,
        ),
{
    match &resp.error {
        None => match &resp.access_token {
            Some(t) => PollStep::Success(t.clone()),
            None => PollStep::Failure(
                String::from_str("Unexpected response while getting a GitHub user access token"),
            ),
        },
        Some(e) => {
            if crate::text::str_eq(e.as_str(), "authorization_pending") {
                PollStep::Wait(interval)
            } else if crate::text::str_eq(e.as_str(), "slow_down") {
                PollStep::Wait(interval + 5)
            } else if crate::text::str_eq(e.as_str(), "expired_token") {
                PollStep::Failure(
                    String::from_str(
                        "The GitHub token araki uses has expired. Please run `login` again.",
                    ),
                )
            } else if crate::text::str_eq(e.as_str(), "access_denied") {
                PollStep::Failure(String::from_str("Login cancelled by user."))
            } else {
                let mut msg = String::from_str("Error getting araki github app token: ");
                msg.append(e.as_str());
                PollStep::Failure(msg)
            }
        },
    }
}

/// The views of a script of token responses.
pub open spec fn resp_views(s: Seq<TokenResponse>) -> Seq<(Option<Seq<char>>, Option<Seq<char>>)> {
    s.map_values(|r: TokenResponse| (opt_view(r.error), opt_view(r.access_token)))
}

/// The trace of the poll loop over a script of responses: the sleeps
/// it performs in order, and the terminal outcome if one is reached
/// before the script runs out. The loop is strictly sequential: each
/// wait happens before the next response is considered.
pub open spec fn poll_trace(
    script: Seq<(Option<Seq<char>>, Option<Seq<char>>)>,
    interval: u64,
) -> (Seq<u64>, Option<Result<Seq<char>, Seq<char>>>)
    decreases script.len(),
{
    if script.len() == 0 {
        (Seq::empty(), None)
    } else {
        match poll_decision(script[0].0, script[0].1, interval) {
            PollStepModel::Wait(n) => {
                let rest = poll_trace(script.drop_first(), interval);
                (seq![n] + rest.0, rest.1)
            },
            PollStepModel::Success(t) => (Seq::empty(), Some(Ok(t))),
            PollStepModel::Failure(m) => (Seq::empty(), Some(Err(m))),
        }
    }
}

/// An expired device code ends the login at once, whatever would have
/// followed: the loop takes no sleep, its outcome is the expiry
/// failure, and no token is produced for the cache.
pub proof fn lemma_expired_token_terminates_immediately(
    script: Seq<(Option<Seq<char>>, Option<Seq<char>>)>,
    interval: u64,
)
    requires
        script.len() > 0,
        script[0].0 == Some("expired_token"@),
    ensures
        poll_trace(script, interval).0 == Seq::<u64>::empty(),
        poll_trace(script, interval).1 == Some(Err::<Seq<char>, Seq<char>>(expired_token_message())),
{
    reveal_strlit("expired_token");
    reveal_strlit("authorization_pending");
    reveal_strlit("slow_down");
    assert("expired_token"@.len() != "authorization_pending"@.len());
    assert("expired_token"@.len() != "slow_down"@.len());
}

pub open spec fn outcome_view(o: Option<Result<String, String>>) -> Option<
    Result<Seq<char>, Seq<char>>,
> {
    match o {
        None => None,
        Some(Ok(t)) => Some(Ok(t@)),
        Some(Err(m)) => Some(Err(m@)),
    }
}

/// One run of the poll loop over a script of responses: the sleeps it
/// performed, and its outcome. No outcome means the script ran out
/// while the authorization was still pending; the token of a
/// successful outcome is what the caller persists, and a failed run
/// persists nothing.
pub struct PollRun {
    pub sleeps: Vec<u64>,
    pub outcome: Option<Result<String, String>>,
}

/// Walk a script of token responses exactly as the live poll loop
/// walks the provider's responses, recording each sleep instead of
/// performing it.
pub fn poll_for_token(script: &Vec<TokenResponse>, interval: u64) -> (r: PollRun)
    requires
        interval <= u64::MAX - 5,
    ensures
        r.sleeps@ == poll_trace(resp_views(script@), interval).0,
        outcome_view(r.outcome) == poll_trace(resp_views(script@), interval).1,
{
    let mut sleeps: Vec<u64> = Vec::new();
    let n = script.len();
    let mut i: usize = 0;
    proof {
        let rv = resp_views(script@);
        assert(rv.skip(0) =~= rv);
        assert(Seq::<u64>::empty() + poll_trace(rv, interval).0 =~= poll_trace(rv, interval).0);
    }
    while i < n
        invariant
            n == script@.len(),
            i <= n,
            interval <= u64::MAX - 5,
            poll_trace(resp_views(script@), interval).0 == sleeps@ + poll_trace(
                resp_views(script@).skip(i as int),
                interval,
            ).0,
            poll_trace(resp_views(script@), interval).1 == poll_trace(
                resp_views(script@).skip(i as int),
                interval,
            ).1,
        decreases n - i,
    {
        proof {
            let rv = resp_views(script@);
            assert(rv.skip(i as int)[0] == rv[i as int]);
            assert(rv.skip(i as int).drop_first() =~= rv.skip(i + 1));
        }
        let step = poll_step(&script[i], interval);
        match step {
            PollStep::Wait(secs) => {
                sleeps.push(secs);
                proof {
                    let rv = resp_views(script@);
                    assert(sleeps@ + poll_trace(rv.skip(i + 1), interval).0 =~= (
                    sleeps@.drop_last() + (seq![secs] + poll_trace(rv.skip(i + 1), interval).0)));
                }
                i += 1;
            },
            PollStep::Success(t) => {
                proof {
                    let rv = resp_views(script@);
                    assert(sleeps@ + Seq::<u64>::empty() =~= sleeps@);
                }
                return PollRun { sleeps, outcome: Some(Ok(t)) };
            },
            PollStep::Failure(m) => {
                proof {
                    let rv = resp_views(script@);
                    assert(sleeps@ + Seq::<u64>::empty() =~= sleeps@);
                }
                return PollRun { sleeps, outcome: Some(Err(m)) };
            },
        }
    }
    proof {
        let rv = resp_views(script@);
        assert(rv.skip(n as int) =~= Seq::<(Option<Seq<char>>, Option<Seq<char>>)>::empty());
        assert(sleeps@ + Seq::<u64>::empty() =~= sleeps@);
    }
    PollRun { sleeps, outcome: None }
}

/// The one specified hosting backend. It is constructible without a
/// cached token, but then every authenticated request fails fast with
/// guidance rather than a transport error.
pub struct GitHubBackend {
    pub api_url: String,
    pub authenticated: bool,
}

impl GitHubBackend {
    /// A backend over the provider's fixed API base, authenticated
    /// exactly when a cached token was found and an HTTP client was
    /// prepared from it.
    pub fn new(has_cached_token: bool) -> (r: GitHubBackend)
        ensures
            r.api_url@ == "https://api.github.com/"@,
            r.authenticated == has_cached_token,
    {
        GitHubBackend {
            api_url: String::from_str("https://api.github.com/"),
            authenticated: has_cached_token,
        }
    }

    /// The full URL of one authenticated request, or the fixed
    /// guidance error when no authenticated client exists.
    pub fn request_url(&self, path: &str) -> (r: Result<String, String>)
        ensures
            (r is Ok) <==> self.authenticated,
            r is Ok ==> r->Ok_0@ == api_joined(self.api_url@, path@),
            r is Err ==> r->Err_0@
                == "Please authenticate with `araki auth login` before continuing."@,
    {
        if !self.authenticated {
            return Err(
                String::from_str("Please authenticate with `araki auth login` before continuing."),
            );
        }
        let base = self.api_url.as_str();
        let bn = base.unicode_len();
        let pn = path.unicode_len();
        if bn > 0 && pn > 0 && base.get_char(bn - 1) == '/' && path.get_char(0) == '/' {
            let stem = base.substring_char(0, bn - 1);
            proof {
                assert(stem@ =~= self.api_url@.take(self.api_url@.len() - 1));
            }
            let mut out = String::from_str(stem);
            out.append(path);
            Ok(out)
        } else {
            let mut out = String::from_str(base);
            out.append(path);
            Ok(out)
        }
    }

    /// A reference to a repository of this provider: the given
    /// coordinates under the provider's fixed domain and protocol; a
    /// purely local construction, no network call.
    pub fn get_repo_info(&self, org: &str, repo: &str) -> (r: RemoteRepo)
        ensures
            opt_view(r.org) == Some(org@),
            r.repo@ == repo@,
            opt_view(r.domain) == Some("github.com"@),
            opt_view(r.protocol) == Some("https://"@),
    {
        RemoteRepo {
            org: Some(String::from_str(org)),
            repo: String::from_str(repo),
            domain: Some(String::from_str("github.com")),
            protocol: Some(String::from_str("https://")),
        }
    }
}

/// The backend this installation talks to. One provider is specified;
/// it is returned with its authentication state.
pub fn get_current_backend(has_cached_token: bool) -> (r: GitHubBackend)
    ensures
        r.api_url@ == "https://api.github.com/"@,
        r.authenticated == has_cached_token,
{
    GitHubBackend::new(has_cached_token)
}

} // verus!
