use my_retreat_nest::error::{AuthError, InvalidTokenReason};

fn all_errors() -> Vec<AuthError> {
    vec![
        AuthError::MalformedHeader,
        AuthError::InvalidToken { reason: InvalidTokenReason::InvalidSignature },
        AuthError::InvalidToken { reason: InvalidTokenReason::Expired },
        AuthError::InvalidToken { reason: InvalidTokenReason::MaxValidityExceeded },
        AuthError::IdentityNotFound,
        AuthError::Forbidden,
        AuthError::InvalidPassword,
        AuthError::AccountNotFound,
        AuthError::SigningError,
        AuthError::StoreError { message: "relation \"users\" does not exist".to_string() },
    ]
}

#[test]
fn each_error_has_its_status() {
    let codes: Vec<u16> = all_errors().iter().map(|e| e.status_code()).collect();
    assert_eq!(codes, vec![400, 400, 400, 400, 404, 403, 400, 404, 500, 500]);
}

#[test]
fn faults_of_the_caller_are_in_the_four_hundreds() {
    for error in all_errors() {
        let code = error.status_code();
        match error {
            AuthError::SigningError | AuthError::StoreError { .. } => {
                assert!((500..600).contains(&code))
            }
            _ => assert!((400..500).contains(&code)),
        }
    }
}

#[test]
fn each_error_has_its_text() {
    let texts: Vec<String> = all_errors().iter().map(|e| e.message()).collect();
    assert_eq!(
        texts,
        vec![
            "Invalid Header",
            "Invalid Token",
            "Invalid Token",
            "Invalid Token",
            "User not found",
            "Forbidden",
            "Invalid Password!",
            "User not found.",
            "Token could not be signed",
            "relation \"users\" does not exist",
        ]
    );
}

#[test]
fn errors_compare_by_kind_and_content() {
    let errors = all_errors();
    for (i, left) in errors.iter().enumerate() {
        for (j, right) in errors.iter().enumerate() {
            assert_eq!(left == right, i == j);
        }
        assert_eq!(&left.clone(), left);
    }
    assert_ne!(
        AuthError::StoreError { message: "a".to_string() },
        AuthError::StoreError { message: "b".to_string() }
    );
}
