use vstd::prelude::*;

use crate::entities_helper::{UserModel, UserModelView};
use crate::error::{AuthError, AuthErrorView, InvalidTokenReason};
use crate::serializers::auth::{
    LoginResponseSerializer, RefreshSerializer, TokenClaim, TokenClaimView,
};
use crate::utils::extractors::auth::{claim_for, lookup_view, resolved_identity, AuthUser};
use crate::utils::jwt::{expiry, issued, verdict, TokenService, MAX_TIMESTAMP};

verus! {

/// What the hasher answered: whether the password fits the stored hash, or
/// the text of its failure.
pub open spec fn check_view(checked: Result<bool, String>) -> Result<bool, Seq<char>> {
    match checked {
        Ok(matched) => Ok(matched),
        Err(message) => Err(message@),
    }
}

/// The account that a login goes on with, for what the store answered to
/// the lookup by e-mail address.
pub open spec fn account_found(found: Result<Option<UserModelView>, Seq<char>>) -> Result<
    UserModelView,
    AuthErrorView,
> {
    match found {
        Err(message) => Err(AuthErrorView::StoreError { message }),
        Ok(None) => Err(AuthErrorView::AccountNotFound),
        Ok(Some(user)) => Ok(user),
    }
}

/// `pair` holds an access and a refresh token issued at `now` for `claim`,
/// each in its own domain and with its own lifetime.
pub open spec fn pair_issued(
    service: &TokenService,
    pair: LoginResponseSerializer,
    claim: TokenClaimView,
    now: u64,
) -> bool {
    &&& issued(
        service.access_key(),
        service.access_lifetime(),
        pair.access_token@,
        claim,
        now,
    )
    &&& issued(
        service.refresh_key(),
        service.refresh_lifetime(),
        pair.refresh_token@,
        claim,
        now,
    )
}

/// Both tokens of a pair issued at `now` can be dated: neither expiry lies
/// beyond the last timestamp.
pub open spec fn pair_can_be_dated(service: &TokenService, now: u64) -> bool {
    &&& expiry(now, service.access_lifetime()) <= MAX_TIMESTAMP
    &&& expiry(now, service.refresh_lifetime()) <= MAX_TIMESTAMP
}

/// Login, after the lookup by e-mail address: the account to go on with.
pub fn login_account(found: Result<Option<UserModel>, String>) -> (account: Result<
    UserModel,
    AuthError,
>)
    ensures
        match account {
            Ok(user) => found == Ok::<Option<UserModel>, String>(Some(user)),
            Err(error) => account_found(lookup_view(found)) == Err::<UserModelView, AuthErrorView>(
                error@,
            ),
        },
{
    match found {
        Err(message) => Err(AuthError::StoreError { message }),
        Ok(None) => Err(AuthError::AccountNotFound),
        Ok(Some(user)) => Ok(user),
    }
}

/// The pair made of two issued tokens, or the first failure among them.
pub fn token_pair(access: Result<String, AuthError>, refresh: Result<String, AuthError>) -> (pair:
    Result<LoginResponseSerializer, AuthError>)
    ensures
        match pair {
            Ok(p) => access == Ok::<String, AuthError>(p.access_token) && refresh == Ok::<
                String,
                AuthError,
            >(p.refresh_token),
            Err(error) => match access {
                Err(first) => error == first,
                Ok(_) => refresh == Err::<String, AuthError>(error),
            },
        },
{
    match access {
        Err(error) => Err(error),
        Ok(access_token) => match refresh {
            Err(error) => Err(error),
            Ok(refresh_token) => Ok(LoginResponseSerializer { access_token, refresh_token }),
        },
    }
}

/// Issues an access and a refresh token for `claim` at the second `now`.
/// Fails, with a signing error, where one of the two expiries cannot be
/// written down, and nowhere else.
pub fn issue_pair(service: &TokenService, claim: &TokenClaim, now: u64) -> (pair: Result<
    LoginResponseSerializer,
    AuthError,
>)
    ensures
        match pair {
            Ok(p) => pair_issued(service, p, claim@, now),
            Err(error) => error@ == AuthErrorView::SigningError,
        },
        pair is Ok <==> pair_can_be_dated(service, now),
{
    match service.issue_access(claim, now) {
        Err(error) => Err(error),
        Ok(access_token) => token_pair(Ok(access_token), service.issue_refresh(claim, now)),
    }
}

/// Login, after the password check: a mismatch, or a hasher that could not
/// tell, ends the login as an invalid password; a match is answered with a
/// pair of tokens for the account, issued at the second `now`, and fails
/// with a signing error only where the pair cannot be dated.
pub fn login_tokens(
    service: &TokenService,
    account: &UserModel,
    checked: Result<bool, String>,
    now: u64,
) -> (pair: Result<LoginResponseSerializer, AuthError>)
    ensures
        match pair {
            Ok(p) => check_view(checked) == Ok::<bool, Seq<char>>(true) && pair_issued(
                service,
                p,
                claim_for(account@),
                now,
            ),
            Err(error) => if check_view(checked) == Ok::<bool, Seq<char>>(true) {
                error@ == AuthErrorView::SigningError
            } else {
                error@ == AuthErrorView::InvalidPassword
            },
        },
        pair is Ok <==> check_view(checked) == Ok::<bool, Seq<char>>(true) && pair_can_be_dated(
            service,
            now,
        ),
{
    match checked {
        Ok(true) => {
            let claim = account.to_claim();
            issue_pair(service, &claim, now)
        },
        _ => Err(AuthError::InvalidPassword),
    }
}

/// Refresh, first half: verifies the submitted token in the refresh domain
/// at the second `now` and hands out the claim by which the store is asked.
pub fn refresh_claim(service: &TokenService, payload: &RefreshSerializer, now: u64) -> (claim:
    Result<TokenClaim, AuthError>)
    ensures
        match claim {
            Ok(c) => verdict(service.refresh_key(), payload.refresh_token@, now) == Ok::<
                TokenClaimView,
                InvalidTokenReason,
            >(c@),
            Err(error) => exists|reason: InvalidTokenReason|
                verdict(service.refresh_key(), payload.refresh_token@, now) == Err::<
                    TokenClaimView,
                    InvalidTokenReason,
                >(reason) && error@ == (AuthErrorView::InvalidToken { reason }),
        },
{
    match service.verify_refresh(payload.refresh_token.as_str(), now) {
        Ok(claim) => Ok(claim),
        Err(reason) => Err(AuthError::InvalidToken { reason }),
    }
}

/// Refresh, second half: as long as the store still holds a record that
/// agrees with the claim in all three fields, a new pair of tokens is issued
/// for the claim at the second `now`; it fails with a signing error only
/// where the pair cannot be dated.
pub fn refresh_tokens(
    service: &TokenService,
    claim: &TokenClaim,
    found: Result<Option<UserModel>, String>,
    now: u64,
) -> (pair: Result<LoginResponseSerializer, AuthError>)
    ensures
        match pair {
            Ok(p) => resolved_identity(claim@, lookup_view(found)) is Ok && pair_issued(
                service,
                p,
                claim@,
                now,
            ),
            Err(error) => match resolved_identity(claim@, lookup_view(found)) {
                Ok(_) => error@ == AuthErrorView::SigningError,
                Err(refusal) => error@ == refusal,
            },
        },
        pair is Ok <==> resolved_identity(claim@, lookup_view(found)) is Ok && pair_can_be_dated(
            service,
            now,
        ),
{
    match AuthUser::from_lookup(claim, found) {
        Err(error) => Err(error),
        Ok(_) => issue_pair(service, claim, now),
    }
}

} // verus!
