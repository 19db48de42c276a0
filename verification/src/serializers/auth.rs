use vstd::prelude::*;

verus! {

/// Credentials submitted to the login endpoint.
#[derive(Debug)]
pub struct LoginSerializer {
    pub email: String,
    pub password: String,
}

/// The token pair handed out by login and refresh.
#[derive(Debug)]
pub struct LoginResponseSerializer {
    pub access_token: String,
    pub refresh_token: String,
}

/// The identity payload carried inside a signed token.
#[derive(Debug)]
pub struct TokenClaim {
    pub user_id: i64,
    pub email: String,
    pub name: String,
}

/// Body of a refresh request.
#[derive(Debug)]
pub struct RefreshSerializer {
    pub refresh_token: String,
}

/// Mathematical value of a [`TokenClaim`].
pub struct TokenClaimView {
    pub user_id: i64,
    pub email: Seq<char>,
    pub name: Seq<char>,
}

impl View for TokenClaim {
    type V = TokenClaimView;

    open spec fn view(&self) -> TokenClaimView {
        TokenClaimView { user_id: self.user_id, email: self.email@, name: self.name@ }
    }
}

impl Clone for TokenClaim {
    fn clone(&self) -> (copy: Self)
        ensures
            copy@ == self@,
    {
        TokenClaim {
            user_id: self.user_id,
            email: self.email.clone(),
            name: self.name.clone(),
        }
    }
}

impl PartialEq for TokenClaim {
    fn eq(&self, other: &Self) -> (same: bool) {
        self.user_id == other.user_id && self.email == other.email && self.name == other.name
    }
}

impl vstd::std_specs::cmp::PartialEqSpecImpl for TokenClaim {
    open spec fn obeys_eq_spec() -> bool {
        true
    }

    open spec fn eq_spec(&self, other: &Self) -> bool {
        self.user_id == other.user_id && self.email@ == other.email@ && self.name@ == other.name@
    }
}

} // verus!
