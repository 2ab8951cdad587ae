//! The captive portal: what is posted to it and what its reply means.

use vstd::prelude::*;

use crate::text;

verus! {

/// Seconds that a login request may take.
pub const LOGIN_TIMEOUT_SECS: u64 = 15;

/// Seconds that a connectivity check may take.
pub const CHECK_TIMEOUT_SECS: u64 = 5;

/// The most bytes of a portal response that are kept.
pub const MAX_RESPONSE_BODY: usize = 1024 * 1024;

/// VIT's Pronto Networks login endpoint.
pub const PORTAL_URL: &'static str = "http://phc.prontonetworks.com/cgi-bin/authlogin?URI=";

/// Requested once after login to verify that the portal released access.
pub const CONNECTIVITY_URL: &'static str = "http://clients3.google.com/generate_204";

/// What a submitted login came to.
#[derive(Debug, Clone, Copy, PartialEq, Eq, Structural)]
pub enum Outcome {
    Granted,
    BadCredentials,
    Uncertain,
    HttpError,
}

impl Outcome {
    /// The outcome in words.
    pub open spec fn text(self) -> Seq<char> {
        match self {
            Self::Granted => "granted"@,
            Self::BadCredentials => "bad credentials"@,
            Self::Uncertain => "uncertain"@,
            Self::HttpError => "http error"@,
        }
    }

    /// The outcome in words.
    pub fn name(&self) -> (s: &'static str)
        ensures
            s@ == self.text(),
    {
        match self {
            Self::Granted => "granted",
            Self::BadCredentials => "bad credentials",
            Self::Uncertain => "uncertain",
            Self::HttpError => "http error",
        }
    }
}

/// The portal's answer to a login request.
#[derive(Debug, Clone, Copy, PartialEq, Eq, Structural)]
pub struct LoginResult {
    pub outcome: Outcome,
    pub http_status: u16,
}

/// The page confirms access.
pub open spec fn confirms_access(body: Seq<char>) -> bool {
    text::has_substring(body, "WiFi Access Granted"@) || text::has_substring(
        body,
        "Access Granted"@,
    )
}

/// The page asks for credentials again.
pub open spec fn asks_again(body: Seq<char>) -> bool {
    text::has_substring(body, "WiFi Login Portal"@) || text::has_substring(
        body,
        "Sorry, please check your username and password"@,
    )
}

/// What a response page says. A confirmation outweighs everything else on it.
pub open spec fn page_outcome(body: Seq<char>) -> Outcome {
    if confirms_access(body) {
        Outcome::Granted
    } else if asks_again(body) {
        Outcome::BadCredentials
    } else {
        Outcome::Uncertain
    }
}

/// What a response with this status and page comes to: an error status
/// decides only where the page leaves the outcome open.
pub open spec fn reply_result(status: u16, body: Seq<char>) -> LoginResult {
    let outcome = page_outcome(body);
    LoginResult {
        outcome: if status >= 400 && outcome == Outcome::Uncertain {
            Outcome::HttpError
        } else {
            outcome
        },
        http_status: status,
    }
}

/// Reads the outcome off a response page.
pub fn classify(body: &str) -> (outcome: Outcome)
    ensures
        outcome == page_outcome(body@),
{
    if text::contains(body, "WiFi Access Granted") || text::contains(body, "Access Granted") {
        return Outcome::Granted;
    }
    if text::contains(body, "WiFi Login Portal") || text::contains(
        body,
        "Sorry, please check your username and password",
    ) {
        return Outcome::BadCredentials;
    }
    Outcome::Uncertain
}

/// What a response with this status and page text comes to.
pub fn judge(status: u16, body: &str) -> (result: LoginResult)
    ensures
        result == reply_result(status, body@),
{
    let mut outcome = classify(body);
    if status >= 400 && outcome == Outcome::Uncertain {
        outcome = Outcome::HttpError;
    }
    LoginResult { outcome, http_status: status }
}

/// What a response with this status and body comes to.
pub fn read_reply(status: u16, body: &ResponseBody) -> (result: LoginResult)
    ensures
        result == reply_result(status, text::lossy_text(body@)),
{
    judge(status, text::utf8_lossy(body.bytes.as_slice()).as_str())
}

/// Whether a status answers the connectivity check. A captive portal
/// intercepts the request, so anything but 204 calls for a login.
pub fn is_online_status(status: u16) -> (r: bool)
    ensures
        r == (status == 204),
{
    status == 204
}

/// A response body as it arrives, never longer than [`MAX_RESPONSE_BODY`].
pub struct ResponseBody {
    bytes: Vec<u8>,
}

impl View for ResponseBody {
    type V = Seq<u8>;

    closed spec fn view(&self) -> Seq<u8> {
        self.bytes@
    }
}

impl ResponseBody {
    /// No more bytes are held than the limit allows.
    pub open spec fn wf(&self) -> bool {
        self@.len() <= MAX_RESPONSE_BODY
    }

    /// An empty body.
    pub fn new() -> (body: Self)
        ensures
            body.wf(),
            body@ == Seq::<u8>::empty(),
    {
        ResponseBody { bytes: Vec::new() }
    }

    /// Takes one more chunk, or rejects it and keeps what is there when the
    /// body would grow over the limit.
    pub fn push_chunk(&mut self, chunk: &[u8]) -> (r: Result<(), PortalError>)
        requires
            old(self).wf(),
        ensures
            final(self).wf(),
            r is Ok <==> old(self)@.len() + chunk@.len() <= MAX_RESPONSE_BODY,
            r is Ok ==> final(self)@ == old(self)@ + chunk@,
            r matches Err(error) ==> error is TooLarge && final(self)@ == old(self)@,
    {
        if chunk.len() > MAX_RESPONSE_BODY - self.bytes.len() {
            return Err(PortalError::TooLarge);
        }
        self.bytes.extend_from_slice(chunk);
        Ok(())
    }
}

/// Why a portal request gave no answer.
#[derive(Debug)]
pub enum PortalError {
    /// The connectivity check was not answered.
    Check(String),
    /// The login form could not be posted.
    Post(String),
    /// The response broke off.
    Read(String),
    /// The response is longer than [`MAX_RESPONSE_BODY`].
    TooLarge,
}

impl PortalError {
    /// The failure in words.
    pub open spec fn text(self) -> Seq<char> {
        match self {
            Self::Check(error) => "connectivity check: "@ + error@,
            Self::Post(error) => "post login form: "@ + error@,
            Self::Read(error) => "read portal response: "@ + error@,
            Self::TooLarge => "portal response exceeds 1048576 bytes"@,
        }
    }

    /// The failure in words.
    pub fn message(&self) -> (s: String)
        ensures
            s@ == self.text(),
    {
        match self {
            Self::Check(error) => text::concat2("connectivity check: ", error.as_str()),
            Self::Post(error) => text::concat2("post login form: ", error.as_str()),
            Self::Read(error) => text::concat2("read portal response: ", error.as_str()),
            Self::TooLarge => "portal response exceeds 1048576 bytes".to_string(),
        }
    }
}

/// What a list of form fields holds.
pub open spec fn form_fields(form: Seq<(String, String)>) -> Seq<(Seq<char>, Seq<char>)> {
    form.map_values(|field: (String, String)| (field.0@, field.1@))
}

/// The fields of the Pronto login form, in the order in which they are posted.
pub fn login_form(username: &str, password: &str) -> (form: Vec<(String, String)>)
    ensures
        form_fields(form@) == seq![
            ("userId"@, username@),
            ("password"@, password@),
            ("serviceName"@, "ProntoAuthentication"@),
            ("Submit22"@, "Login"@),
        ],
{
    let mut form: Vec<(String, String)> = Vec::new();
    form.push(("userId".to_string(), username.to_string()));
    form.push(("password".to_string(), password.to_string()));
    form.push(("serviceName".to_string(), "ProntoAuthentication".to_string()));
    form.push(("Submit22".to_string(), "Login".to_string()));
    form
}

/// How this program names itself to the portal.
pub fn user_agent(version: &str) -> (s: String)
    ensures
        s@ == "wifilogin/"@ + version@,
{
    text::concat2("wifilogin/", version)
}

/// A page is taken as granted exactly when it says "Access Granted", whatever
/// else it says.
pub proof fn granted_means_access_granted(body: Seq<char>)
    ensures
        page_outcome(body) == Outcome::Granted <==> text::has_substring(body, "Access Granted"@),
{
    if text::has_substring(body, "WiFi Access Granted"@) {
        lemma_confirmation(body);
    }
}

proof fn lemma_confirmation(body: Seq<char>)
    requires
        text::has_substring(body, "WiFi Access Granted"@),
    ensures
        text::has_substring(body, "Access Granted"@),
{
    reveal_strlit("WiFi Access Granted");
    reveal_strlit("Access Granted");
    reveal_strlit("WiFi ");
    text::substring_is_a_middle(body, "WiFi Access Granted"@);
    let (before, behind) = choose|before: Seq<char>, behind: Seq<char>|
        body == #[trigger] (before + "WiFi Access Granted"@ + behind);
    assert("WiFi Access Granted"@ == "WiFi "@ + "Access Granted"@);
    assert(body == (before + "WiFi "@) + "Access Granted"@ + behind);
    text::substring_is_a_middle(body, "Access Granted"@);
}

/// Credentials are taken as rejected exactly when the page does not say "Access
/// Granted" and either has the login page's title or asks to check username
/// and password, or both. A page that says none of this is uncertain.
pub proof fn rejected_means_asked_again(body: Seq<char>)
    ensures
        page_outcome(body) == Outcome::BadCredentials <==> {
            &&& !text::has_substring(body, "Access Granted"@)
            &&& {
                ||| text::has_substring(body, "WiFi Login Portal"@)
                ||| text::has_substring(body, "Sorry, please check your username and password"@)
            }
        },
        page_outcome(body) == Outcome::Uncertain <==> {
            &&& !text::has_substring(body, "Access Granted"@)
            &&& !text::has_substring(body, "WiFi Login Portal"@)
            &&& !text::has_substring(body, "Sorry, please check your username and password"@)
        },
{
    granted_means_access_granted(body);
}

/// More text around a page takes no confirmation back, and does not clear a
/// rejection unless it brings a confirmation.
pub proof fn more_text_keeps_the_outcome(before: Seq<char>, body: Seq<char>, behind: Seq<char>)
    ensures
        page_outcome(body) == Outcome::Granted ==> page_outcome(before + body + behind)
            == Outcome::Granted,
        page_outcome(body) == Outcome::BadCredentials && !text::has_substring(
            before + body + behind,
            "Access Granted"@,
        ) ==> page_outcome(before + body + behind) == Outcome::BadCredentials,
{
    let whole = before + body + behind;
    granted_means_access_granted(body);
    granted_means_access_granted(whole);
    rejected_means_asked_again(body);
    rejected_means_asked_again(whole);
    if text::has_substring(body, "Access Granted"@) {
        text::substring_stays(before, body, behind, "Access Granted"@);
    }
    if text::has_substring(body, "WiFi Login Portal"@) {
        text::substring_stays(before, body, behind, "WiFi Login Portal"@);
    }
    if text::has_substring(body, "Sorry, please check your username and password"@) {
        text::substring_stays(
            before,
            body,
            behind,
            "Sorry, please check your username and password"@,
        );
    }
}

/// The status is handed on as it is. It never changes a confirmation or a
/// rejection; of the pages that say neither, those with a status of 400 or more
/// are errors, and the others stay uncertain.
pub proof fn status_decides_only_open_outcomes(status: u16, other: u16, body: Seq<char>)
    ensures
        reply_result(status, body).http_status == status,
        reply_result(status, body).outcome == Outcome::Granted <==> reply_result(
            other,
            body,
        ).outcome == Outcome::Granted,
        reply_result(status, body).outcome == Outcome::BadCredentials <==> reply_result(
            other,
            body,
        ).outcome == Outcome::BadCredentials,
        reply_result(status, body).outcome == Outcome::Granted <==> text::has_substring(
            body,
            "Access Granted"@,
        ),
        reply_result(status, body).outcome == Outcome::BadCredentials <==> {
            &&& !text::has_substring(body, "Access Granted"@)
            &&& {
                ||| text::has_substring(body, "WiFi Login Portal"@)
                ||| text::has_substring(body, "Sorry, please check your username and password"@)
            }
        },
        reply_result(status, body).outcome == Outcome::HttpError <==> {
            &&& status >= 400
            &&& !text::has_substring(body, "Access Granted"@)
            &&& !text::has_substring(body, "WiFi Login Portal"@)
            &&& !text::has_substring(body, "Sorry, please check your username and password"@)
        },
{
    granted_means_access_granted(body);
    rejected_means_asked_again(body);
}

/// Requests are bounded: fifteen seconds for a login, five for a check, and one
/// mebibyte of response. They go to the portal and to the page that answers
/// without content.
pub proof fn requests_are_bounded()
    ensures
        LOGIN_TIMEOUT_SECS == 15,
        CHECK_TIMEOUT_SECS == 5,
        MAX_RESPONSE_BODY == 1_048_576,
        PORTAL_URL@ == "http://phc.prontonetworks.com/cgi-bin/authlogin?URI="@,
        CONNECTIVITY_URL@ == "http://clients3.google.com/generate_204"@,
{
}

} // verus!
