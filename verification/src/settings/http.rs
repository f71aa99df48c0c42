//! Access rules and error answers of the settings API.

use vstd::prelude::*;
use vstd::string::*;
use crate::settings::enums::{AppKind, Role};
use crate::settings::errors::ApplicationError;
use crate::settings::auth::{AuthContext, AuthError};

verus! {

/// The role that grants access to an application's settings.
pub open spec fn role_for(app_kind: AppKind) -> Role {
    match app_kind {
        AppKind::Client => Role::Client,
        AppKind::Employee => Role::Employee,
    }
}

fn has_role(roles: &Vec<Role>, wanted: Role) -> (r: bool)
    ensures
        r == roles@.contains(wanted),
{
    let n = roles.len();
    let mut i: usize = 0;
    while i < n
        invariant
            n == roles@.len(),
            i <= n,
            forall|k: int| 0 <= k < i ==> roles@[k] != wanted,
        decreases n - i,
    {
        if roles[i] == wanted {
            return true;
        }
        i = i + 1;
    }
    false
}

/// Admits a request to an application's settings only when the caller holds
/// that application's role.
pub fn ensure_role_for_app_kind(auth: &AuthContext, app_kind: AppKind) -> (r: Result<
    (),
    ApplicationError,
>)
    ensures
        r is Ok <==> auth.roles@.contains(role_for(app_kind)),
        r matches Err(e) ==> e is Forbidden,
{
    let allowed = match app_kind {
        AppKind::Client => has_role(&auth.roles, Role::Client),
        AppKind::Employee => has_role(&auth.roles, Role::Employee),
    };
    if allowed {
        Ok(())
    } else {
        Err(ApplicationError::Forbidden)
    }
}

/// Why a settings request failed, as the API reports it.
#[derive(Clone, Debug)]
pub enum HttpError {
    Auth(AuthError),
    Application(ApplicationError),
    Internal,
}

impl From<AuthError> for HttpError {
    fn from(value: AuthError) -> HttpError {
        HttpError::Auth(value)
    }
}

impl vstd::std_specs::convert::FromSpecImpl<AuthError> for HttpError {
    open spec fn obeys_from_spec() -> bool {
        true
    }

    open spec fn from_spec(v: AuthError) -> HttpError {
        HttpError::Auth(v)
    }
}

impl From<ApplicationError> for HttpError {
    fn from(value: ApplicationError) -> HttpError {
        HttpError::Application(value)
    }
}

impl vstd::std_specs::convert::FromSpecImpl<ApplicationError> for HttpError {
    open spec fn obeys_from_spec() -> bool {
        true
    }

    open spec fn from_spec(v: ApplicationError) -> HttpError {
        HttpError::Application(v)
    }
}

/// The status and message of an error answer.
#[derive(Clone, Debug)]
pub struct HttpErrorAnswer {
    pub status: u16,
    pub message: String,
}

/// The status an error is answered with.
pub open spec fn http_error_status(e: HttpError) -> u16 {
    match e {
        HttpError::Auth(_) => 401,
        HttpError::Application(ApplicationError::Forbidden) => 403,
        HttpError::Application(ApplicationError::InvalidLocale) => 400,
        HttpError::Application(ApplicationError::InvalidAccountId) => 400,
        HttpError::Application(ApplicationError::Persistence(_)) => 500,
        HttpError::Internal => 500,
    }
}

/// The message an error is answered with; failures of the server's side are
/// not detailed.
pub open spec fn http_error_message(e: HttpError) -> Seq<char> {
    match e {
        HttpError::Auth(_) => "Unauthorized"@,
        HttpError::Application(ApplicationError::Forbidden) => "Forbidden"@,
        HttpError::Application(ApplicationError::InvalidLocale) => "Invalid locale"@,
        HttpError::Application(ApplicationError::InvalidAccountId) => "Invalid account id"@,
        HttpError::Application(ApplicationError::Persistence(_)) => "Internal server error"@,
        HttpError::Internal => "Internal server error"@,
    }
}

impl HttpError {
    /// The answer to a request that failed with this error.
    pub fn into_answer(self) -> (r: HttpErrorAnswer)
        ensures
            r.status == http_error_status(self),
            r.message@ == http_error_message(self),
    {
        let (status, message) = match self {
            HttpError::Auth(_) => (401u16, "Unauthorized"),
            HttpError::Application(ApplicationError::Forbidden) => (403u16, "Forbidden"),
            HttpError::Application(ApplicationError::InvalidLocale) => (400u16, "Invalid locale"),
            HttpError::Application(ApplicationError::InvalidAccountId) => (
                400u16,
                "Invalid account id",
            ),
            HttpError::Application(ApplicationError::Persistence(_)) => (
                500u16,
                "Internal server error",
            ),
            HttpError::Internal => (500u16, "Internal server error"),
        };
        HttpErrorAnswer { status, message: String::from_str(message) }
    }
}

} // verus!
