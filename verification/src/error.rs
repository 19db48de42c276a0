use vstd::prelude::*;

verus! {

/// Why a token was refused by the token service.
#[derive(Debug, Clone, Copy, PartialEq, Eq, Structural)]
pub enum InvalidTokenReason {
    /// The token is not a well-formed token authenticated by the key of its
    /// domain, or it does not carry a complete identity claim.
    InvalidSignature,
    /// The stated expiry lies before the time of verification.
    Expired,
    /// The token was issued more than the validity ceiling ago.
    MaxValidityExceeded,
}

/// Everything the authentication core can answer instead of an identity or a
/// token pair.
#[derive(Debug)]
pub enum AuthError {
    MalformedHeader,
    InvalidToken { reason: InvalidTokenReason },
    IdentityNotFound,
    Forbidden,
    InvalidPassword,
    AccountNotFound,
    SigningError,
    StoreError { message: String },
}

/// Mathematical value of an [`AuthError`].
pub enum AuthErrorView {
    MalformedHeader,
    InvalidToken { reason: InvalidTokenReason },
    IdentityNotFound,
    Forbidden,
    InvalidPassword,
    AccountNotFound,
    SigningError,
    StoreError { message: Seq<char> },
}

impl View for AuthError {
    type V = AuthErrorView;

    open spec fn view(&self) -> AuthErrorView {
        match self {
            AuthError::MalformedHeader => AuthErrorView::MalformedHeader,
            AuthError::InvalidToken { reason } => AuthErrorView::InvalidToken { reason: *reason },
            AuthError::IdentityNotFound => AuthErrorView::IdentityNotFound,
            AuthError::Forbidden => AuthErrorView::Forbidden,
            AuthError::InvalidPassword => AuthErrorView::InvalidPassword,
            AuthError::AccountNotFound => AuthErrorView::AccountNotFound,
            AuthError::SigningError => AuthErrorView::SigningError,
            AuthError::StoreError { message } => AuthErrorView::StoreError { message: message@ },
        }
    }
}

/// The HTTP status that goes with each error.
pub open spec fn status_of(error: AuthErrorView) -> u16 {
    match error {
        AuthErrorView::MalformedHeader => 400,
        AuthErrorView::InvalidToken { .. } => 400,
        AuthErrorView::IdentityNotFound => 404,
        AuthErrorView::Forbidden => 403,
        AuthErrorView::InvalidPassword => 400,
        AuthErrorView::AccountNotFound => 404,
        AuthErrorView::SigningError => 500,
        AuthErrorView::StoreError { .. } => 500,
    }
}

/// Faults of the caller, as opposed to faults of this service or its store.
pub open spec fn is_client_fault(error: AuthErrorView) -> bool {
    !(error is SigningError || error is StoreError)
}

/// The text that goes with each error.
pub open spec fn message_of(error: AuthErrorView) -> Seq<char> {
    match error {
        AuthErrorView::MalformedHeader => "Invalid Header"@,
        AuthErrorView::InvalidToken { .. } => "Invalid Token"@,
        AuthErrorView::IdentityNotFound => "User not found"@,
        AuthErrorView::Forbidden => "Forbidden"@,
        AuthErrorView::InvalidPassword => "Invalid Password!"@,
        AuthErrorView::AccountNotFound => "User not found."@,
        AuthErrorView::SigningError => "Token could not be signed"@,
        AuthErrorView::StoreError { message } => message,
    }
}

impl AuthError {
    /// The HTTP status with which the error reaches the client.
    pub fn status_code(&self) -> (code: u16)
        ensures
            code == status_of(self@),
            is_client_fault(self@) <==> 400 <= code < 500,
            !is_client_fault(self@) <==> 500 <= code < 600,
    {
        match self {
            AuthError::MalformedHeader => 400,
            AuthError::InvalidToken { .. } => 400,
            AuthError::IdentityNotFound => 404,
            AuthError::Forbidden => 403,
            AuthError::InvalidPassword => 400,
            AuthError::AccountNotFound => 404,
            AuthError::SigningError => 500,
            AuthError::StoreError { .. } => 500,
        }
    }

    /// The text with which the error reaches the client.
    pub fn message(&self) -> (text: String)
        ensures
            text@ == message_of(self@),
    {
        match self {
            AuthError::MalformedHeader => "Invalid Header".to_string(),
            AuthError::InvalidToken { .. } => "Invalid Token".to_string(),
            AuthError::IdentityNotFound => "User not found".to_string(),
            AuthError::Forbidden => "Forbidden".to_string(),
            AuthError::InvalidPassword => "Invalid Password!".to_string(),
            AuthError::AccountNotFound => "User not found.".to_string(),
            AuthError::SigningError => "Token could not be signed".to_string(),
            AuthError::StoreError { message } => message.clone(),
        }
    }
}

impl Clone for AuthError {
    fn clone(&self) -> (copy: Self)
        ensures
            copy@ == self@,
    {
        match self {
            AuthError::MalformedHeader => AuthError::MalformedHeader,
            AuthError::InvalidToken { reason } => AuthError::InvalidToken { reason: *reason },
            AuthError::IdentityNotFound => AuthError::IdentityNotFound,
            AuthError::Forbidden => AuthError::Forbidden,
            AuthError::InvalidPassword => AuthError::InvalidPassword,
            AuthError::AccountNotFound => AuthError::AccountNotFound,
            AuthError::SigningError => AuthError::SigningError,
            AuthError::StoreError { message } => AuthError::StoreError { message: message.clone() },
        }
    }
}

impl PartialEq for AuthError {
    fn eq(&self, other: &Self) -> (same: bool) {
        match (self, other) {
            (AuthError::MalformedHeader, AuthError::MalformedHeader) => true,
            (AuthError::InvalidToken { reason: a }, AuthError::InvalidToken { reason: b }) => *a
                == *b,
            (AuthError::IdentityNotFound, AuthError::IdentityNotFound) => true,
            (AuthError::Forbidden, AuthError::Forbidden) => true,
            (AuthError::InvalidPassword, AuthError::InvalidPassword) => true,
            (AuthError::AccountNotFound, AuthError::AccountNotFound) => true,
            (AuthError::SigningError, AuthError::SigningError) => true,
            (AuthError::StoreError { message: a }, AuthError::StoreError { message: b }) => *a
                == *b,
            _ => false,
        }
    }
}

impl vstd::std_specs::cmp::PartialEqSpecImpl for AuthError {
    open spec fn obeys_eq_spec() -> bool {
        true
    }

    open spec fn eq_spec(&self, other: &Self) -> bool {
        self@ == other@
    }
}

} // verus!
