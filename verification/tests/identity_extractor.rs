use my_retreat_nest::entities_helper::UserModel;
use my_retreat_nest::env::Env;
use my_retreat_nest::error::{AuthError, InvalidTokenReason};
use my_retreat_nest::serializers::auth::TokenClaim;
use my_retreat_nest::utils::extractors::auth::{parse_authorization, AuthAdmin, AuthUser};
use my_retreat_nest::utils::jwt::TokenService;

const T0: u64 = 1_700_000_000;

fn token_service() -> TokenService {
    TokenService::new(&Env {
        server_host: "127.0.0.1".to_string(),
        server_port: "8080".to_string(),
        database_url: "postgres://localhost/retreats".to_string(),
        password_salt: "pepper-and-salt".to_string(),
        jwt_access_key: "11".repeat(32),
        jwt_access_lifetime_in_min: 15,
        jwt_refresh_key: "22".repeat(32),
        jwt_refresh_lifetime_in_min: 120,
        upload_dir: "/tmp/uploads".to_string(),
    })
    .unwrap()
}

fn account(user_id: i64, name: &str, email: &str, is_admin: bool) -> UserModel {
    UserModel {
        user_id,
        name: name.to_string(),
        email: email.to_string(),
        password: "$argon2id$stored-hash".to_string(),
        phone: None,
        is_admin,
    }
}

/// What a credential store does with the query for a claim: it hands out the
/// one record that agrees with the claim in all three fields.
fn find_identity(store: &[UserModel], claim: &TokenClaim) -> Result<Option<UserModel>, String> {
    Ok(store
        .iter()
        .find(|u| u.user_id == claim.user_id && u.email == claim.email && u.name == claim.name)
        .cloned())
}

fn extract(
    service: &TokenService,
    store: &[UserModel],
    header: Option<&str>,
    now: u64,
) -> Result<AuthUser, AuthError> {
    let claim = AuthUser::claim_from_header(service, header, now)?;
    AuthUser::from_lookup(&claim, find_identity(store, &claim))
}

#[test]
fn header_with_one_space_presents_its_token() {
    assert_eq!(parse_authorization("Bearer abc.def.ghi"), Some("abc.def.ghi".to_string()));
    assert_eq!(parse_authorization("Token xyz"), Some("xyz".to_string()));
    assert_eq!(parse_authorization("Bearer "), Some("".to_string()));
    assert_eq!(parse_authorization(" abc"), Some("abc".to_string()));
    assert_eq!(parse_authorization(" "), Some("".to_string()));
    assert_eq!(parse_authorization("Bärer tökén"), Some("tökén".to_string()));
}

#[test]
fn header_without_token_part_is_malformed() {
    assert_eq!(parse_authorization("Bearer"), None);
    assert_eq!(parse_authorization(""), None);
    let service = token_service();
    let answer = AuthUser::claim_from_header(&service, Some("Bearer"), T0);
    assert_eq!(answer, Err(AuthError::MalformedHeader));
}

#[test]
fn header_with_more_than_two_parts_is_malformed() {
    assert_eq!(parse_authorization("Bearer abc def"), None);
    assert_eq!(parse_authorization("Bearer  abc"), None);
    assert_eq!(parse_authorization("  "), None);
    assert_eq!(parse_authorization("a b "), None);
    let service = token_service();
    let token = service.issue_access(&account(1, "Ann", "a@b.com", false).to_claim(), T0).unwrap();
    let header = format!("Bearer {} trailing", token);
    assert_eq!(
        AuthUser::claim_from_header(&service, Some(&header), T0),
        Err(AuthError::MalformedHeader)
    );
}

#[test]
fn absent_header_is_malformed() {
    let service = token_service();
    assert_eq!(AuthUser::claim_from_header(&service, None, T0), Err(AuthError::MalformedHeader));
}

#[test]
fn valid_token_of_a_live_account_gives_the_full_record() {
    let service = token_service();
    let ann = account(1, "Ann", "a@b.com", false);
    let store = vec![account(2, "Bob", "bob@b.com", true), ann.clone()];
    let token = service.issue_access(&ann.to_claim(), T0).unwrap();
    let header = format!("Bearer {}", token);
    let identity = extract(&service, &store, Some(&header), T0 + 30).unwrap();
    assert_eq!(identity.0, ann);
}

#[test]
fn scheme_is_not_looked_at() {
    let service = token_service();
    let ann = account(1, "Ann", "a@b.com", false);
    let token = service.issue_access(&ann.to_claim(), T0).unwrap();
    for scheme in ["Bearer", "bearer", "Basic", "", "anything-at-all"] {
        let header = format!("{} {}", scheme, token);
        assert_eq!(
            AuthUser::claim_from_header(&service, Some(&header), T0),
            Ok(ann.to_claim())
        );
    }
}

#[test]
fn token_failures_are_invalid_tokens_with_their_reason() {
    let service = token_service();
    let ann = account(1, "Ann", "a@b.com", false);
    let access = service.issue_access(&ann.to_claim(), T0).unwrap();
    let refresh = service.issue_refresh(&ann.to_claim(), T0).unwrap();
    let expired = AuthUser::claim_from_header(&service, Some(&format!("Bearer {}", access)), T0 + 901);
    assert_eq!(expired, Err(AuthError::InvalidToken { reason: InvalidTokenReason::Expired }));
    let aged = AuthUser::claim_from_header(&service, Some(&format!("Bearer {}", access)), T0 + 3601);
    assert_eq!(
        aged,
        Err(AuthError::InvalidToken { reason: InvalidTokenReason::MaxValidityExceeded })
    );
    let wrong_domain =
        AuthUser::claim_from_header(&service, Some(&format!("Bearer {}", refresh)), T0);
    assert_eq!(
        wrong_domain,
        Err(AuthError::InvalidToken { reason: InvalidTokenReason::InvalidSignature })
    );
    let empty = AuthUser::claim_from_header(&service, Some("Bearer "), T0);
    assert_eq!(
        empty,
        Err(AuthError::InvalidToken { reason: InvalidTokenReason::InvalidSignature })
    );
}

#[test]
fn renamed_account_turns_a_valid_token_away() {
    let service = token_service();
    let claim = TokenClaim { user_id: 1, email: "a@b.com".to_string(), name: "Ann".to_string() };
    let mut store = vec![account(1, "Ann", "a@b.com", false)];
    let token = service.issue_access(&claim, T0).unwrap();
    let header = format!("Bearer {}", token);
    assert!(extract(&service, &store, Some(&header), T0 + 1).is_ok());
    store[0].name = "Anne".to_string();
    let replayed = extract(&service, &store, Some(&header), T0 + 2);
    assert_eq!(replayed.err(), Some(AuthError::IdentityNotFound));
    assert_eq!(service.verify_access(&token, T0 + 2), Ok(claim));
}

#[test]
fn changed_address_or_deleted_account_turns_a_valid_token_away() {
    let service = token_service();
    let ann = account(1, "Ann", "a@b.com", false);
    let mut store = vec![ann.clone()];
    let header = format!("Bearer {}", service.issue_access(&ann.to_claim(), T0).unwrap());
    store[0].email = "ann@new.example".to_string();
    assert_eq!(
        extract(&service, &store, Some(&header), T0).err(),
        Some(AuthError::IdentityNotFound)
    );
    store.clear();
    assert_eq!(
        extract(&service, &store, Some(&header), T0).err(),
        Some(AuthError::IdentityNotFound)
    );
}

#[test]
fn record_that_differs_from_the_claim_counts_as_none() {
    let claim = TokenClaim { user_id: 1, email: "a@b.com".to_string(), name: "Ann".to_string() };
    let ann = account(1, "Ann", "a@b.com", false);
    assert_eq!(AuthUser::from_lookup(&claim, Ok(Some(ann.clone()))).unwrap().0, ann);
    for other in [
        account(2, "Ann", "a@b.com", false),
        account(1, "Anne", "a@b.com", false),
        account(1, "Ann", "a@c.com", false),
        account(1, "ann", "a@b.com", false),
    ] {
        assert!(!other.matches_claim(&claim));
        assert_eq!(
            AuthUser::from_lookup(&claim, Ok(Some(other))).err(),
            Some(AuthError::IdentityNotFound)
        );
    }
    assert_eq!(AuthUser::from_lookup(&claim, Ok(None)).err(), Some(AuthError::IdentityNotFound));
}

#[test]
fn store_failure_is_passed_on() {
    let claim = TokenClaim { user_id: 1, email: "a@b.com".to_string(), name: "Ann".to_string() };
    let answer = AuthUser::from_lookup(&claim, Err("connection reset".to_string()));
    assert_eq!(
        answer.err(),
        Some(AuthError::StoreError { message: "connection reset".to_string() })
    );
}

#[test]
fn administrative_routes_are_forbidden_without_the_flag() {
    let plain = AuthUser(account(1, "Ann", "a@b.com", false));
    assert_eq!(AuthAdmin::from_auth_user(plain).err(), Some(AuthError::Forbidden));
    let admin = account(2, "Bob", "bob@b.com", true);
    assert_eq!(AuthAdmin::from_auth_user(AuthUser(admin.clone())).unwrap().0, admin);
}

#[test]
fn account_gives_rise_to_its_claim() {
    let ann = account(1, "Ann", "a@b.com", true);
    assert_eq!(
        ann.to_claim(),
        TokenClaim { user_id: 1, email: "a@b.com".to_string(), name: "Ann".to_string() }
    );
    assert!(ann.matches_claim(&ann.to_claim()));
}

#[test]
fn header_made_of_scheme_and_issued_token_presents_the_token() {
    let service = token_service();
    let ann = account(1, "Ann Lee", "a@b.com", false);
    let token = service.issue_access(&ann.to_claim(), T0).unwrap();
    assert!(!token.contains(' '));
    assert_eq!(parse_authorization(&format!("Bearer {}", token)), Some(token));
}
