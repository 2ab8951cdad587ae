//! Portal credentials: a username from the configuration, a password from the
//! system keyring.

use vstd::prelude::*;

use crate::failure::{Failure, FailureView};
use crate::text;

verus! {

/// The service under which the password is filed.
pub const SERVICE: &'static str = "wifilogin";

/// The key under which the password is filed.
pub const PASS_KEY: &'static str = "password";

/// There are no credentials.
#[derive(Debug, Clone, Copy, PartialEq, Eq, Structural)]
pub struct NotFound;

impl NotFound {
    /// The failure in words.
    pub fn message(&self) -> (s: &'static str)
        ensures
            s@ == "credentials not found in keyring"@,
    {
        "credentials not found in keyring"
    }
}

/// Why credentials could not be loaded.
#[derive(Debug)]
pub enum CredsError {
    /// There are none.
    Missing(NotFound),
    /// The keyring could not be read.
    Unreadable(Failure),
}

/// What a [`CredsError`] says.
pub enum CredsErrorView {
    Missing,
    Unreadable(FailureView),
}

impl View for CredsError {
    type V = CredsErrorView;

    open spec fn view(&self) -> CredsErrorView {
        match *self {
            CredsError::Missing(_) => CredsErrorView::Missing,
            CredsError::Unreadable(error) => CredsErrorView::Unreadable(error@),
        }
    }
}

impl CredsErrorView {
    /// The failure in words.
    pub open spec fn text(self) -> Seq<char> {
        match self {
            Self::Missing => "credentials not found in keyring"@,
            Self::Unreadable(error) => error.message,
        }
    }

    /// The failure with its causes.
    pub open spec fn failure(self) -> FailureView {
        match self {
            Self::Missing => FailureView::plain("credentials not found in keyring"@),
            Self::Unreadable(error) => error,
        }
    }
}

impl CredsError {
    /// The failure in words.
    pub fn message(&self) -> (s: String)
        ensures
            s@ == self@.text(),
    {
        match self {
            Self::Missing(not_found) => not_found.message().to_string(),
            Self::Unreadable(error) => error.message.clone(),
        }
    }

    /// The failure with its causes.
    pub fn failure(&self) -> (failure: Failure)
        ensures
            failure@ == self@.failure(),
    {
        match self {
            Self::Missing(not_found) => Failure::plain(not_found.message().to_string()),
            Self::Unreadable(error) => error.clone(),
        }
    }
}

/// Whether the credentials are absent rather than out of reach.
pub fn is_not_found(err: &CredsError) -> (r: bool)
    ensures
        r == (err@ is Missing),
{
    match err {
        CredsError::Missing(_) => true,
        CredsError::Unreadable(_) => false,
    }
}

/// What the keyring answers when it does not hand out a password.
#[derive(Debug)]
pub enum KeyringFailure {
    /// The credential store does not answer.
    StoreUnavailable(Failure),
    /// The store does not open the entry.
    EntryUnavailable(Failure),
    /// The entry does not exist.
    NoEntry,
    /// The store reports something else.
    Other(Failure),
}

impl KeyringFailure {
    /// What the failure means for the credentials.
    pub open spec fn meaning(self) -> CredsErrorView {
        match self {
            Self::StoreUnavailable(cause) => CredsErrorView::Unreadable(
                cause@.context("system credential store unavailable (Secret Service)"@),
            ),
            Self::EntryUnavailable(cause) => CredsErrorView::Unreadable(
                cause@.context("open keyring entry for service 'wifilogin'"@),
            ),
            Self::NoEntry => CredsErrorView::Missing,
            Self::Other(error) => CredsErrorView::Unreadable(error@),
        }
    }
}

/// Tells a missing entry from every other failure.
pub fn map_not_found(failure: KeyringFailure) -> (error: CredsError)
    ensures
        error@ == failure.meaning(),
{
    match failure {
        KeyringFailure::StoreUnavailable(cause) => CredsError::Unreadable(
            cause.context("system credential store unavailable (Secret Service)"),
        ),
        KeyringFailure::EntryUnavailable(cause) => CredsError::Unreadable(
            cause.context("open keyring entry for service 'wifilogin'"),
        ),
        KeyringFailure::NoEntry => CredsError::Missing(NotFound),
        KeyringFailure::Other(error) => CredsError::Unreadable(error),
    }
}

/// Refuses to store an empty password.
pub fn check_password(password: &str) -> (r: Result<(), String>)
    ensures
        r is Ok <==> password@.len() > 0,
        r matches Err(error) ==> error@ == "password is required"@,
{
    if password.is_empty() {
        return Err("password is required".to_string());
    }
    Ok(())
}

/// What an attempt to load credentials says.
pub enum LoadView {
    Loaded { username: Seq<char>, password: Seq<char> },
    Failed(CredsErrorView),
}

/// What an attempt to load credentials says.
pub open spec fn load_view(loaded: Result<(String, String), CredsError>) -> LoadView {
    match loaded {
        Ok((username, password)) => LoadView::Loaded { username: username@, password: password@ },
        Err(error) => LoadView::Failed(error@),
    }
}

/// What an attempt to load the password says.
pub open spec fn password_view(password: Result<String, CredsError>) -> Result<
    Seq<char>,
    CredsErrorView,
> {
    match password {
        Ok(password) => Ok(password@),
        Err(error) => Err(error@),
    }
}

/// The username with the password that the keyring gave. Without a username
/// the credentials are missing, whatever the keyring says.
pub open spec fn combined(
    username: Option<Seq<char>>,
    password: Result<Seq<char>, CredsErrorView>,
) -> LoadView {
    match (username, password) {
        (None, _) => LoadView::Failed(CredsErrorView::Missing),
        (Some(username), Ok(password)) => LoadView::Loaded { username, password },
        (Some(_), Err(error)) => LoadView::Failed(error),
    }
}

/// Puts the configured username and the keyring's password together.
pub fn credentials(username: Option<&str>, password: Result<String, CredsError>) -> (loaded: Result<
    (String, String),
    CredsError,
>)
    ensures
        load_view(loaded) == combined(text::opt_str(username), password_view(password)),
{
    match username {
        None => Err(CredsError::Missing(NotFound)),
        Some(username) => match password {
            Ok(password) => Ok((username.to_string(), password)),
            Err(error) => Err(error),
        },
    }
}

/// There are credentials exactly when a username is configured and the keyring
/// gives a password, and they are those two.
pub proof fn credentials_need_username_and_password(
    username: Option<Seq<char>>,
    password: Result<Seq<char>, CredsErrorView>,
)
    ensures
        combined(username, password) is Loaded <==> username is Some && password is Ok,
        combined(username, password) is Loaded ==> combined(username, password)
            == (LoadView::Loaded { username: username->0, password: password->Ok_0 }),
{
}

/// Without a username the credentials are missing, whatever the keyring says;
/// with one, what the keyring reports is what comes back.
pub proof fn missing_halves_are_told(
    username: Seq<char>,
    password: Result<Seq<char>, CredsErrorView>,
    error: CredsErrorView,
)
    ensures
        combined(None, password) == LoadView::Failed(CredsErrorView::Missing),
        combined(Some(username), Err(error)) == LoadView::Failed(error),
{
}

/// Only an entry that does not exist means that there are no credentials; every
/// other failure keeps its causes, down to what the store reported.
pub proof fn only_no_entry_means_missing(failure: KeyringFailure)
    ensures
        failure.meaning() is Missing <==> failure is NoEntry,
        failure matches KeyringFailure::Other(cause) ==> failure.meaning()
            == CredsErrorView::Unreadable(cause@),
        failure matches KeyringFailure::StoreUnavailable(cause) ==> (
        failure.meaning() matches CredsErrorView::Unreadable(told) && told.causes == seq![
            cause@.message,
        ] + cause@.causes),
        failure matches KeyringFailure::EntryUnavailable(cause) ==> (
        failure.meaning() matches CredsErrorView::Unreadable(told) && told.causes == seq![
            cause@.message,
        ] + cause@.causes),
        SERVICE@ == "wifilogin"@,
        PASS_KEY@ == "password"@,
{
}

} // verus!
