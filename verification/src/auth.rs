//! GitHub OAuth Device Flow: the requests to send and how the replies are read.
use vstd::prelude::*;
use vstd::string::StringExecFns;
use crate::config::opt_view;
use crate::text::{concat, str_eq};

verus! {

pub const DEVICE_CODE_URL: &'static str = "https://github.com/login/device/code";
pub const TOKEN_URL: &'static str = "https://github.com/login/oauth/access_token";
pub const SCOPE: &'static str = "read:user";
pub const DEVICE_GRANT_TYPE: &'static str = "urn:ietf:params:oauth:grant-type:device_code";

/// What GitHub answers to a device code request.
pub struct DeviceCodeResponse {
    pub device_code: String,
    pub user_code: String,
    pub verification_uri: String,
    pub expires_in: u64,
    pub interval: u64,
}

/// The error object that GitHub may return instead of a success payload.
pub struct ApiError {
    pub error: Option<String>,
    pub error_description: Option<String>,
}

/// What GitHub answers to a token poll.
pub struct TokenResponse {
    pub access_token: Option<String>,
    pub error: Option<String>,
    pub error_description: Option<String>,
}

/// The state of the authorisation after one poll.
pub enum PollResult {
    Pending,
    SlowDown,
    Token(String),
}

pub enum PollResultView {
    Pending,
    SlowDown,
    Token(Seq<char>),
}

impl View for PollResult {
    type V = PollResultView;

    open spec fn view(&self) -> PollResultView {
        match self {
            PollResult::Pending => PollResultView::Pending,
            PollResult::SlowDown => PollResultView::SlowDown,
            PollResult::Token(t) => PollResultView::Token(t@),
        }
    }
}

/// One field of a URL-encoded form.
pub struct FormField {
    pub name: String,
    pub value: String,
}

pub open spec fn form_view(fields: Seq<FormField>) -> Seq<(Seq<char>, Seq<char>)> {
    fields.map_values(|f: FormField| (f.name@, f.value@))
}

fn field(name: &str, value: &str) -> (f: FormField)
    ensures
        f.name@ == name@,
        f.value@ == value@,
{
    FormField { name: name.to_owned(), value: value.to_owned() }
}

/// The form that asks GitHub for a device code.
pub fn device_code_form(client_id: &str) -> (form: Vec<FormField>)
    ensures
        form_view(form@) == seq![("client_id"@, client_id@), ("scope"@, SCOPE@)],
{
    let mut form = Vec::new();
    form.push(field("client_id", client_id));
    form.push(field("scope", SCOPE));
    assert(form_view(form@) =~= seq![("client_id"@, client_id@), ("scope"@, SCOPE@)]);
    form
}

/// The form that polls GitHub for the access token of a device code.
pub fn token_form(client_id: &str, device_code: &str) -> (form: Vec<FormField>)
    ensures
        form_view(form@) == seq![
            ("client_id"@, client_id@),
            ("device_code"@, device_code@),
            ("grant_type"@, DEVICE_GRANT_TYPE@),
        ],
{
    let mut form = Vec::new();
    form.push(field("client_id", client_id));
    form.push(field("device_code", device_code));
    form.push(field("grant_type", DEVICE_GRANT_TYPE));
    assert(form_view(form@) =~= seq![
        ("client_id"@, client_id@),
        ("device_code"@, device_code@),
        ("grant_type"@, DEVICE_GRANT_TYPE@),
    ]);
    form
}

/// The message for a device code request that GitHub refused with HTTP status `status`.
pub open spec fn device_code_failure_spec(status: Seq<char>, body: Option<(Option<Seq<char>>, Option<Seq<char>>)>) -> Seq<char> {
    match body {
        Some((_, Some(desc))) => "GitHub OAuth error: "@ + desc,
        Some((Some(err), None)) => "GitHub OAuth error: "@ + err,
        _ => "GitHub returned HTTP "@ + status + " — check your OAuth App Client ID in config."@,
    }
}

pub open spec fn api_error_view(e: ApiError) -> (Option<Seq<char>>, Option<Seq<char>>) {
    (opt_view(e.error), opt_view(e.error_description))
}

/// Why a device code request failed, given the HTTP status text and the error
/// object GitHub sent, if the body was one.
pub fn device_code_failure(status: &str, body: Option<ApiError>) -> (msg: String)
    ensures
        msg@ == device_code_failure_spec(
            status@,
            match body {
                Some(e) => Some(api_error_view(e)),
                None => None,
            },
        ),
{
    match body {
        Some(e) => {
            match e.error_description {
                Some(desc) => return concat("GitHub OAuth error: ", desc.as_str()),
                None => {},
            }
            match e.error {
                Some(err) => return concat("GitHub OAuth error: ", err.as_str()),
                None => {},
            }
        },
        None => {},
    }
    let mut msg = concat("GitHub returned HTTP ", status);
    msg.append(" — check your OAuth App Client ID in config.");
    msg
}

/// The message for a successful HTTP reply whose body is not a device code response.
pub open spec fn device_code_unreadable_spec(body: Seq<char>) -> Seq<char> {
    "Failed to parse GitHub device code response.\nRaw response: "@ + body
        + "\nHint: Ensure your OAuth App has 'Device Flow' enabled and the Client ID is correct."@
}

pub fn device_code_unreadable(body: &str) -> (msg: String)
    ensures
        msg@ == device_code_unreadable_spec(body@),
{
    let mut msg = concat("Failed to parse GitHub device code response.\nRaw response: ", body);
    msg.append("\nHint: Ensure your OAuth App has 'Device Flow' enabled and the Client ID is correct.");
    msg
}

/// How a token poll reply is read: a non-empty token wins; otherwise the error code decides.
pub open spec fn poll_outcome_spec(
    access_token: Option<Seq<char>>,
    error: Option<Seq<char>>,
    description: Option<Seq<char>>,
) -> Result<PollResultView, Seq<char>> {
    if access_token is Some && access_token->0.len() > 0 {
        Ok(PollResultView::Token(access_token->0))
    } else {
        match error {
            None => Ok(PollResultView::Pending),
            Some(e) => if e == "authorization_pending"@ {
                Ok(PollResultView::Pending)
            } else if e == "slow_down"@ {
                Ok(PollResultView::SlowDown)
            } else if e == "expired_token"@ {
                Err("Device code expired. Please restart authentication."@)
            } else if e == "access_denied"@ {
                Err("Access denied by user."@)
            } else {
                Err("OAuth error: "@ + e + " — "@ + match description {
                    Some(d) => d,
                    None => Seq::empty(),
                })
            },
        }
    }
}

pub open spec fn poll_outcome_view(r: Result<PollResult, String>) -> Result<PollResultView, Seq<char>> {
    match r {
        Ok(p) => Ok(p@),
        Err(e) => Err(e@),
    }
}

/// The outcome of one token poll: the token, a request to wait (longer), or a fatal error.
pub fn poll_outcome(body: TokenResponse) -> (r: Result<PollResult, String>)
    ensures
        poll_outcome_view(r) == poll_outcome_spec(
            opt_view(body.access_token),
            opt_view(body.error),
            opt_view(body.error_description),
        ),
{
    let TokenResponse { access_token, error, error_description } = body;
    match access_token {
        Some(token) => {
            if !token.as_str().is_empty() {
                return Ok(PollResult::Token(token));
            }
        },
        None => {},
    }
    match error {
        None => Ok(PollResult::Pending),
        Some(e) => {
            if str_eq(e.as_str(), "authorization_pending") {
                Ok(PollResult::Pending)
            } else if str_eq(e.as_str(), "slow_down") {
                Ok(PollResult::SlowDown)
            } else if str_eq(e.as_str(), "expired_token") {
                Err(String::from_str("Device code expired. Please restart authentication."))
            } else if str_eq(e.as_str(), "access_denied") {
                Err(String::from_str("Access denied by user."))
            } else {
                let mut msg = concat("OAuth error: ", e.as_str());
                msg.append(" — ");
                match error_description {
                    Some(d) => msg.append(d.as_str()),
                    None => {
                        assert(msg@ + Seq::<char>::empty() =~= msg@);
                    },
                }
                Err(msg)
            }
        },
    }
}

} // verus!
