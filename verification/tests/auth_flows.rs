use my_retreat_nest::entities_helper::UserModel;
use my_retreat_nest::env::Env;
use my_retreat_nest::error::{AuthError, InvalidTokenReason};
use my_retreat_nest::routes::auth::{
    issue_pair, login_account, login_tokens, refresh_claim, refresh_tokens, token_pair,
};
use my_retreat_nest::serializers::auth::{LoginSerializer, RefreshSerializer, TokenClaim};
use my_retreat_nest::utils::jwt::TokenService;

const T0: u64 = 1_700_000_000;

fn token_service() -> TokenService {
    TokenService::new(&Env {
        server_host: "127.0.0.1".to_string(),
        server_port: "8080".to_string(),
        database_url: "postgres://localhost/retreats".to_string(),
        password_salt: "pepper-and-salt".to_string(),
        jwt_access_key: "a1".repeat(32),
        jwt_access_lifetime_in_min: 15,
        jwt_refresh_key: "b2".repeat(32),
        jwt_refresh_lifetime_in_min: 120,
        upload_dir: "/tmp/uploads".to_string(),
    })
    .unwrap()
}

fn ann() -> UserModel {
    UserModel {
        user_id: 1,
        name: "Ann".to_string(),
        email: "a@b.com".to_string(),
        password: "hash-of-correct-horse".to_string(),
        phone: Some("0123456789".to_string()),
        is_admin: false,
    }
}

fn ann_claim() -> TokenClaim {
    TokenClaim { user_id: 1, email: "a@b.com".to_string(), name: "Ann".to_string() }
}

/// A store of one account, asked by e-mail address.
fn find_by_email(store: &[UserModel], email: &str) -> Result<Option<UserModel>, String> {
    Ok(store.iter().find(|u| u.email == email).cloned())
}

/// The same store, asked by all three fields of a claim.
fn find_identity(store: &[UserModel], claim: &TokenClaim) -> Result<Option<UserModel>, String> {
    Ok(store.iter().find(|u| u.matches_claim(claim)).cloned())
}

/// A hasher that knows one password for the stored hash.
fn check_password(password: &str, hashed: &str) -> Result<bool, String> {
    Ok(hashed == "hash-of-correct-horse" && password == "correct horse")
}

fn login(
    service: &TokenService,
    store: &[UserModel],
    payload: &LoginSerializer,
    now: u64,
) -> Result<(String, String), AuthError> {
    let account = login_account(find_by_email(store, &payload.email))?;
    let checked = check_password(&payload.password, &account.password);
    let pair = login_tokens(service, &account, checked, now)?;
    Ok((pair.access_token, pair.refresh_token))
}

fn refresh(
    service: &TokenService,
    store: &[UserModel],
    refresh_token: &str,
    now: u64,
) -> Result<(String, String), AuthError> {
    let payload = RefreshSerializer { refresh_token: refresh_token.to_string() };
    let claim = refresh_claim(service, &payload, now)?;
    let pair = refresh_tokens(service, &claim, find_identity(store, &claim), now)?;
    Ok((pair.access_token, pair.refresh_token))
}

#[test]
fn login_with_correct_credentials_gives_both_tokens() {
    let service = token_service();
    let payload =
        LoginSerializer { email: "a@b.com".to_string(), password: "correct horse".to_string() };
    let (access, refresh) = login(&service, &[ann()], &payload, T0).unwrap();
    assert_eq!(service.verify_access(&access, T0), Ok(ann_claim()));
    assert_eq!(service.verify_refresh(&refresh, T0), Ok(ann_claim()));
    assert_ne!(access, refresh);
    assert_eq!(service.verify_access(&access, T0 + 901), Err(InvalidTokenReason::Expired));
    assert_eq!(service.verify_refresh(&refresh, T0 + 901), Ok(ann_claim()));
}

#[test]
fn login_with_wrong_password_is_an_invalid_password() {
    let service = token_service();
    let payload =
        LoginSerializer { email: "a@b.com".to_string(), password: "wrong horse".to_string() };
    let answer = login(&service, &[ann()], &payload, T0);
    assert_eq!(answer, Err(AuthError::InvalidPassword));
    let error = answer.unwrap_err();
    assert_eq!(error.status_code(), 400);
    assert_eq!(error.message(), "Invalid Password!");
}

#[test]
fn login_for_unknown_address_is_account_not_found() {
    let service = token_service();
    let payload =
        LoginSerializer { email: "nobody@b.com".to_string(), password: "correct horse".to_string() };
    let answer = login(&service, &[ann()], &payload, T0);
    assert_eq!(answer, Err(AuthError::AccountNotFound));
    assert_eq!(answer.unwrap_err().status_code(), 404);
}

#[test]
fn login_account_judges_the_lookup() {
    assert_eq!(login_account(Ok(Some(ann()))), Ok(ann()));
    assert_eq!(login_account(Ok(None)), Err(AuthError::AccountNotFound));
    assert_eq!(
        login_account(Err("pool timed out".to_string())),
        Err(AuthError::StoreError { message: "pool timed out".to_string() })
    );
}

#[test]
fn hasher_that_cannot_tell_ends_the_login_as_invalid_password() {
    let service = token_service();
    let answer = login_tokens(&service, &ann(), Err("malformed hash".to_string()), T0);
    assert_eq!(answer.err(), Some(AuthError::InvalidPassword));
    let answer = login_tokens(&service, &ann(), Ok(false), T0);
    assert_eq!(answer.err(), Some(AuthError::InvalidPassword));
}

#[test]
fn login_that_cannot_sign_is_a_signing_error() {
    let service = token_service();
    let answer = login_tokens(&service, &ann(), Ok(true), u64::MAX);
    assert_eq!(answer.err(), Some(AuthError::SigningError));
    assert_eq!(issue_pair(&service, &ann_claim(), u64::MAX).err(), Some(AuthError::SigningError));
    // The access token can still be dated, the refresh token no longer.
    let late = 0xFFFF_FFFF - 16 * 60;
    assert!(service.issue_access(&ann_claim(), late).is_ok());
    assert_eq!(issue_pair(&service, &ann_claim(), late).err(), Some(AuthError::SigningError));
}

#[test]
fn pair_is_made_of_two_tokens_or_fails_with_the_first_failure() {
    let pair = token_pair(Ok("a".to_string()), Ok("r".to_string())).unwrap();
    assert_eq!(pair.access_token, "a");
    assert_eq!(pair.refresh_token, "r");
    let store = AuthError::StoreError { message: "x".to_string() };
    assert_eq!(
        token_pair(Err(AuthError::SigningError), Err(store.clone())).err(),
        Some(AuthError::SigningError)
    );
    assert_eq!(token_pair(Ok("a".to_string()), Err(store.clone())).err(), Some(store));
    assert_eq!(
        token_pair(Err(AuthError::Forbidden), Ok("r".to_string())).err(),
        Some(AuthError::Forbidden)
    );
}

#[test]
fn refresh_round_trip_rotates_the_pair_and_keeps_the_old_token_valid() {
    let service = token_service();
    let store = [ann()];
    let payload =
        LoginSerializer { email: "a@b.com".to_string(), password: "correct horse".to_string() };
    let (_, old_refresh) = login(&service, &store, &payload, T0).unwrap();
    let (new_access, new_refresh) = refresh(&service, &store, &old_refresh, T0 + 600).unwrap();
    assert_ne!(new_refresh, old_refresh);
    assert_eq!(service.verify_access(&new_access, T0 + 600), Ok(ann_claim()));
    assert_eq!(service.verify_refresh(&new_refresh, T0 + 600), Ok(ann_claim()));
    // The superseded token is not revoked.
    assert_eq!(service.verify_refresh(&old_refresh, T0 + 601), Ok(ann_claim()));
    assert!(refresh(&service, &store, &old_refresh, T0 + 3600).is_ok());
    // It ends at the ceiling, while the new one lives on.
    assert_eq!(
        refresh(&service, &store, &old_refresh, T0 + 3601),
        Err(AuthError::InvalidToken { reason: InvalidTokenReason::MaxValidityExceeded })
    );
    assert!(refresh(&service, &store, &new_refresh, T0 + 3601).is_ok());
}

#[test]
fn refresh_is_refused_for_an_access_token() {
    let service = token_service();
    let access = service.issue_access(&ann_claim(), T0).unwrap();
    assert_eq!(
        refresh(&service, &[ann()], &access, T0),
        Err(AuthError::InvalidToken { reason: InvalidTokenReason::InvalidSignature })
    );
}

#[test]
fn refresh_is_refused_once_the_account_has_changed() {
    let service = token_service();
    let token = service.issue_refresh(&ann_claim(), T0).unwrap();
    let mut renamed = ann();
    renamed.name = "Anne".to_string();
    assert_eq!(refresh(&service, &[renamed.clone()], &token, T0), Err(AuthError::IdentityNotFound));
    assert_eq!(refresh(&service, &[], &token, T0), Err(AuthError::IdentityNotFound));
    assert_eq!(
        refresh_tokens(&service, &ann_claim(), Ok(Some(renamed)), T0).err(),
        Some(AuthError::IdentityNotFound)
    );
    assert_eq!(
        refresh_tokens(&service, &ann_claim(), Err("down".to_string()), T0).err(),
        Some(AuthError::StoreError { message: "down".to_string() })
    );
}

#[test]
fn refresh_is_refused_for_an_expired_token() {
    let service = TokenService::new(&Env {
        server_host: "h".to_string(),
        server_port: "1".to_string(),
        database_url: "d".to_string(),
        password_salt: "s".to_string(),
        jwt_access_key: "a1".repeat(32),
        jwt_access_lifetime_in_min: 15,
        jwt_refresh_key: "b2".repeat(32),
        jwt_refresh_lifetime_in_min: 30,
        upload_dir: "u".to_string(),
    })
    .unwrap();
    let token = service.issue_refresh(&ann_claim(), T0).unwrap();
    assert_eq!(
        refresh(&service, &[ann()], &token, T0 + 1801),
        Err(AuthError::InvalidToken { reason: InvalidTokenReason::Expired })
    );
}

#[test]
fn pair_is_owed_whenever_both_tokens_can_be_dated() {
    let service = token_service();
    let last = 0xFFFF_FFFF - 120 * 60;
    for now in [0, T0, last] {
        assert!(issue_pair(&service, &ann_claim(), now).is_ok());
        assert!(login_tokens(&service, &ann(), Ok(true), now).is_ok());
        assert!(refresh_tokens(&service, &ann_claim(), Ok(Some(ann())), now).is_ok());
    }
    assert_eq!(issue_pair(&service, &ann_claim(), last + 1).err(), Some(AuthError::SigningError));
    assert_eq!(
        refresh_tokens(&service, &ann_claim(), Ok(Some(ann())), last + 1).err(),
        Some(AuthError::SigningError)
    );
}

#[test]
fn second_refresh_with_the_same_token_gives_a_pair_too() {
    let service = token_service();
    let store = [ann()];
    let token = service.issue_refresh(&ann_claim(), T0).unwrap();
    let first = refresh(&service, &store, &token, T0 + 10).unwrap();
    let second = refresh(&service, &store, &token, T0 + 20).unwrap();
    assert_ne!(first, second);
    assert_eq!(service.verify_refresh(&second.1, T0 + 20), Ok(ann_claim()));
    assert_eq!(service.verify_refresh(&first.1, T0 + 20), Ok(ann_claim()));
}
