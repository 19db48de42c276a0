use vstd::prelude::*;

use crate::entities_helper::{UserModel, UserModelView};
use crate::error::{AuthError, AuthErrorView};
use crate::serializers::auth::{TokenClaim, TokenClaimView};
use crate::utils::jwt::{verdict, TokenService};
use crate::utils::text::chars_of;

verus! {

/// The verified identity of a caller: the credential record as the store
/// holds it now.
#[derive(Debug)]
pub struct AuthUser(pub UserModel);

/// A verified identity that carries the administrative flag.
#[derive(Debug)]
pub struct AuthAdmin(pub UserModel);

/// `header` has its one and only space at `at`.
pub open spec fn splits_at(header: Seq<char>, at: int) -> bool {
    &&& 0 <= at < header.len()
    &&& header[at] == ' '
    &&& forall|other: int| 0 <= other < header.len() && other != at ==> header[other] != ' '
}

/// The token part of a header of the form `<scheme> <token>`: what follows
/// the space, where the header holds exactly one.
pub open spec fn bearer_token(header: Seq<char>) -> Option<Seq<char>> {
    if exists|at: int| splits_at(header, at) {
        let at = choose|at: int| splits_at(header, at);
        Some(header.subrange(at + 1, header.len() as int))
    } else {
        None
    }
}

/// The token part of a header that may be absent.
pub open spec fn presented_token(authorization: Option<Seq<char>>) -> Option<Seq<char>> {
    match authorization {
        Some(header) => bearer_token(header),
        None => None,
    }
}

/// A header splits in at most one place.
pub proof fn split_is_unique(header: Seq<char>, first: int, second: int)
    requires
        splits_at(header, first),
        splits_at(header, second),
    ensures
        first == second,
{
}

/// A header with its only space at `at` presents what follows that space.
pub proof fn token_follows_the_space(header: Seq<char>, at: int)
    requires
        splits_at(header, at),
    ensures
        bearer_token(header) == Some(header.subrange(at + 1, header.len() as int)),
{
    let chosen = choose|at: int| splits_at(header, at);
    split_is_unique(header, at, chosen);
}

/// The record agrees with the claim in identifier, e-mail address and name
/// at once.
pub open spec fn record_matches(user: UserModelView, claim: TokenClaimView) -> bool {
    user.user_id == claim.user_id && user.email == claim.email && user.name == claim.name
}

/// The claim that a credential record gives rise to.
pub open spec fn claim_for(user: UserModelView) -> TokenClaimView {
    TokenClaimView { user_id: user.user_id, email: user.email, name: user.name }
}

/// What the store answered to a lookup: a record, none, or the text of its
/// failure.
pub open spec fn lookup_view(found: Result<Option<UserModel>, String>) -> Result<
    Option<UserModelView>,
    Seq<char>,
> {
    match found {
        Ok(Some(user)) => Ok(Some(user@)),
        Ok(None) => Ok(None),
        Err(message) => Err(message@),
    }
}

/// The first half of the extraction: from the header to the claim by which
/// the store is asked.
pub open spec fn claimed_identity(key: Seq<u8>, authorization: Option<Seq<char>>, now: u64)
    -> Result<TokenClaimView, AuthErrorView> {
    match presented_token(authorization) {
        None => Err(AuthErrorView::MalformedHeader),
        Some(token) => match verdict(key, token, now) {
            Ok(claim) => Ok(claim),
            Err(reason) => Err(AuthErrorView::InvalidToken { reason }),
        },
    }
}

/// The second half of the extraction: from the store's answer to the
/// identity.
pub open spec fn resolved_identity(
    claim: TokenClaimView,
    found: Result<Option<UserModelView>, Seq<char>>,
) -> Result<UserModelView, AuthErrorView> {
    match found {
        Err(message) => Err(AuthErrorView::StoreError { message }),
        Ok(None) => Err(AuthErrorView::IdentityNotFound),
        Ok(Some(user)) => if record_matches(user, claim) {
            Ok(user)
        } else {
            Err(AuthErrorView::IdentityNotFound)
        },
    }
}

/// The whole extraction, for a store that answers `found` to the claim's
/// query.
pub open spec fn extracted_identity(
    key: Seq<u8>,
    authorization: Option<Seq<char>>,
    now: u64,
    found: Result<Option<UserModelView>, Seq<char>>,
) -> Result<UserModelView, AuthErrorView> {
    match claimed_identity(key, authorization, now) {
        Ok(claim) => resolved_identity(claim, found),
        Err(error) => Err(error),
    }
}

/// What an administrative route makes of an identity that is already
/// established.
pub open spec fn admin_only(user: UserModelView) -> Result<UserModelView, AuthErrorView> {
    if user.is_admin {
        Ok(user)
    } else {
        Err(AuthErrorView::Forbidden)
    }
}

/// Splits a header of the form `<scheme> <token>` and hands out the token
/// part. The scheme is not looked at.
pub fn parse_authorization(header: &str) -> (token: Option<String>)
    ensures
        match token {
            Some(t) => bearer_token(header@) == Some(t@),
            None => bearer_token(header@) is None,
        },
{
    let chars = chars_of(header);
    let mut first: usize = 0;
    let mut spaces: usize = 0;
    let mut i: usize = 0;
    while i < chars.len()
        invariant
            i <= chars.len(),
            chars@ == header@,
            spaces <= i,
            spaces == 0 ==> forall|j: int| 0 <= j < i ==> chars[j] != ' ',
            spaces >= 1 ==> first < i && chars[first as int] == ' ',
            spaces == 1 ==> forall|j: int| 0 <= j < i && j != first ==> chars[j] != ' ',
            spaces >= 2 ==> exists|j: int| 0 <= j < i && j != first && chars[j] == ' ',
        decreases chars.len() - i,
    {
        if chars[i] == ' ' {
            if spaces == 0 {
                first = i;
            }
            spaces = spaces + 1;
        }
        i = i + 1;
    }
    if spaces == 1 {
        proof {
            assert(splits_at(header@, first as int));
            token_follows_the_space(header@, first as int);
        }
        Some(header.substring_char(first + 1, chars.len()).to_string())
    } else {
        proof {
            assert forall|at: int| !splits_at(header@, at) by {
                if splits_at(header@, at) {
                    if spaces >= 2 {
                        let j = choose|j: int| 0 <= j < i && j != first && chars[j] == ' ';
                        assert(header@[first as int] == ' ');
                        assert(header@[j] == ' ');
                    }
                }
            }
        }
        None
    }
}

impl UserModel {
    /// Whether the record agrees with `claim` in identifier, e-mail address
    /// and name at once.
    pub fn matches_claim(&self, claim: &TokenClaim) -> (agrees: bool)
        ensures
            agrees == record_matches(self@, claim@),
    {
        self.user_id == claim.user_id && self.email == claim.email && self.name == claim.name
    }

    /// The claim under which tokens are issued for this record.
    pub fn to_claim(&self) -> (claim: TokenClaim)
        ensures
            claim@ == claim_for(self@),
    {
        TokenClaim { user_id: self.user_id, email: self.email.clone(), name: self.name.clone() }
    }
}

impl AuthUser {
    /// First half of the extraction: takes the token from the header,
    /// verifies it in the access domain at the second `now`, and hands out
    /// the claim by whose three fields the store is to be asked.
    pub fn claim_from_header(service: &TokenService, authorization: Option<&str>, now: u64) -> (claim:
        Result<TokenClaim, AuthError>)
        ensures
            match claim {
                Ok(c) => claimed_identity(
                    service.access_key(),
                    header_view(authorization),
                    now,
                ) == Ok::<TokenClaimView, AuthErrorView>(c@),
                Err(error) => claimed_identity(
                    service.access_key(),
                    header_view(authorization),
                    now,
                ) == Err::<TokenClaimView, AuthErrorView>(error@),
            },
    {
        let header = match authorization {
            Some(header) => header,
            None => {
                return Err(AuthError::MalformedHeader);
            },
        };
        let token = match parse_authorization(header) {
            Some(token) => token,
            None => {
                return Err(AuthError::MalformedHeader);
            },
        };
        match service.verify_access(token.as_str(), now) {
            Ok(claim) => Ok(claim),
            Err(reason) => Err(AuthError::InvalidToken { reason }),
        }
    }

    /// Second half of the extraction: judges what the store answered to the
    /// query for `claim`. A record that does not agree with the claim in all
    /// three fields counts as none.
    pub fn from_lookup(claim: &TokenClaim, found: Result<Option<UserModel>, String>) -> (identity:
        Result<AuthUser, AuthError>)
        ensures
            match identity {
                Ok(user) => resolved_identity(claim@, lookup_view(found)) == Ok::<
                    UserModelView,
                    AuthErrorView,
                >(user.0@) && found == Ok::<Option<UserModel>, String>(Some(user.0)),
                Err(error) => resolved_identity(claim@, lookup_view(found)) == Err::<
                    UserModelView,
                    AuthErrorView,
                >(error@),
            },
    {
        match found {
            Err(message) => Err(AuthError::StoreError { message }),
            Ok(None) => Err(AuthError::IdentityNotFound),
            Ok(Some(user)) => if user.matches_claim(claim) {
                Ok(AuthUser(user))
            } else {
                Err(AuthError::IdentityNotFound)
            },
        }
    }
}

impl AuthAdmin {
    /// Lets an identity pass to an administrative route if it carries the
    /// administrative flag, and forbids the route to any other.
    pub fn from_auth_user(user: AuthUser) -> (admin: Result<AuthAdmin, AuthError>)
        ensures
            match admin {
                Ok(a) => a.0 == user.0 && admin_only(user.0@) == Ok::<
                    UserModelView,
                    AuthErrorView,
                >(a.0@),
                Err(error) => admin_only(user.0@) == Err::<UserModelView, AuthErrorView>(error@),
            },
    {
        if user.0.is_admin {
            Ok(AuthAdmin(user.0))
        } else {
            Err(AuthError::Forbidden)
        }
    }
}

/// The mathematical value of a header that may be absent.
pub open spec fn header_view(authorization: Option<&str>) -> Option<Seq<char>> {
    match authorization {
        Some(header) => Some(header@),
        None => None,
    }
}

/// An identity is established only from a record that the store holds and
/// that agrees, in all three fields, with the claim of a token that
/// verifies.
pub proof fn identity_agrees_with_claim(
    key: Seq<u8>,
    authorization: Option<Seq<char>>,
    now: u64,
    found: Result<Option<UserModelView>, Seq<char>>,
    user: UserModelView,
)
    requires
        extracted_identity(key, authorization, now, found) == Ok::<UserModelView, AuthErrorView>(
            user,
        ),
    ensures
        found == Ok::<Option<UserModelView>, Seq<char>>(Some(user)),
        claimed_identity(key, authorization, now) == Ok::<TokenClaimView, AuthErrorView>(
            claim_for(user),
        ),
{
}

/// A token that verifies is still turned away once no record agrees with
/// its claim: whether the store then answers with nothing or with a record
/// that differs from the claim, the identity is not found.
pub proof fn changed_account_is_not_found(
    key: Seq<u8>,
    authorization: Option<Seq<char>>,
    now: u64,
    claim: TokenClaimView,
    user: UserModelView,
)
    requires
        claimed_identity(key, authorization, now) == Ok::<TokenClaimView, AuthErrorView>(claim),
        !record_matches(user, claim),
    ensures
        extracted_identity(key, authorization, now, Ok(Some(user))) == Err::<
            UserModelView,
            AuthErrorView,
        >(AuthErrorView::IdentityNotFound),
        extracted_identity(key, authorization, now, Ok(None)) == Err::<
            UserModelView,
            AuthErrorView,
        >(AuthErrorView::IdentityNotFound),
{
}

/// A token issued for an account is turned away once the account has been
/// renamed, though the token itself still verifies.
pub proof fn renamed_account_is_not_found(
    key: Seq<u8>,
    authorization: Option<Seq<char>>,
    now: u64,
    user: UserModelView,
    new_name: Seq<char>,
)
    requires
        claimed_identity(key, authorization, now) == Ok::<TokenClaimView, AuthErrorView>(
            claim_for(user),
        ),
        new_name != user.name,
    ensures
        extracted_identity(
            key,
            authorization,
            now,
            Ok(Some(UserModelView { name: new_name, ..user })),
        ) == Err::<UserModelView, AuthErrorView>(AuthErrorView::IdentityNotFound),
{
}

/// A header made of a scheme without a space, one space and a token
/// without a space presents that token.
pub proof fn header_presents_its_token(scheme: Seq<char>, token: Seq<char>)
    requires
        !scheme.contains(' '),
        !token.contains(' '),
    ensures
        bearer_token(scheme + seq![' '] + token) == Some(token),
{
    let header = scheme + seq![' '] + token;
    let at = scheme.len() as int;
    assert(header[at] == ' ');
    assert forall|other: int| 0 <= other < header.len() && other != at implies header[other]
        != ' ' by {
        if other < at {
            assert(header[other] == scheme[other]);
            assert(scheme.contains(scheme[other]));
        } else {
            assert(header[other] == token[other - at - 1]);
            assert(token.contains(token[other - at - 1]));
        }
    }
    assert(splits_at(header, at));
    token_follows_the_space(header, at);
    assert(header.subrange(at + 1, header.len() as int) =~= token);
}

} // verus!
