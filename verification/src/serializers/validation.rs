use validator::ValidateEmail;
use vstd::prelude::*;

verus! {

/// A rule that a submitted field has broken.
#[derive(Debug, Clone, Copy, PartialEq, Eq, Structural)]
pub enum ValidationError {
    /// An `email` field that is no e-mail address.
    InvalidEmail,
    /// A `phone` field that is too short.
    InvalidPhoneNumber,
    /// A `name` field that is too short.
    InvalidName,
}

/// The shortest phone number, and the shortest category name, in bytes.
pub const MIN_LEN: usize = 9;

/// Whether `text` is an e-mail address as the HTML5 rules on `user@domain`
/// have it.
pub uninterp spec fn email_is_valid(text: Seq<char>) -> bool;

/// The number of bytes that `text` takes as UTF-8.
pub open spec fn byte_len(text: Seq<char>) -> nat {
    vstd::utf8::encode_utf8(text).len()
}

/// `validator::ValidateEmail::validate_email` on a text. The contract names
/// the outcome and claims the two refusals with which the function opens:
/// of the empty text, and of a text without `@`.
#[verifier::external_body]
fn is_email(text: &str) -> (valid: bool)
    ensures
        valid == email_is_valid(text@),
        text@.len() == 0 ==> !valid,
        !text@.contains('@') ==> !valid,
{
    text.validate_email()
}

impl ValidationError {
    /// The field that broke the rule.
    pub fn field(&self) -> (name: String)
        ensures
            name@ == match *self {
                ValidationError::InvalidEmail => "email"@,
                ValidationError::InvalidPhoneNumber => "phone"@,
                ValidationError::InvalidName => "name"@,
            },
    {
        match self {
            ValidationError::InvalidEmail => "email".to_string(),
            ValidationError::InvalidPhoneNumber => "phone".to_string(),
            ValidationError::InvalidName => "name".to_string(),
        }
    }

    /// The code of the broken rule.
    pub fn code(&self) -> (code: String)
        ensures
            code@ == match *self {
                ValidationError::InvalidEmail => "email"@,
                ValidationError::InvalidPhoneNumber => "Validation"@,
                ValidationError::InvalidName => "Validation"@,
            },
    {
        match self {
            ValidationError::InvalidEmail => "email".to_string(),
            ValidationError::InvalidPhoneNumber => "Validation".to_string(),
            ValidationError::InvalidName => "Validation".to_string(),
        }
    }

    /// The text that explains the broken rule, where it has one.
    pub fn message(&self) -> (text: Option<String>)
        ensures
            match *self {
                ValidationError::InvalidEmail => text is None,
                ValidationError::InvalidPhoneNumber => text matches Some(t) && t@
                    == "Invalid phone number"@,
                ValidationError::InvalidName => text matches Some(t) && t@ == "Invalid name"@,
            },
    {
        match self {
            ValidationError::InvalidEmail => None,
            ValidationError::InvalidPhoneNumber => Some("Invalid phone number".to_string()),
            ValidationError::InvalidName => Some("Invalid name".to_string()),
        }
    }
}

/// Accepts an e-mail address and refuses any other text.
pub fn validate_email(email: &str) -> (checked: Result<(), ValidationError>)
    ensures
        checked is Ok <==> email_is_valid(email@),
        checked matches Err(error) ==> error == ValidationError::InvalidEmail,
        email@.len() == 0 || !email@.contains('@') ==> checked is Err,
{
    if is_email(email) {
        Ok(())
    } else {
        Err(ValidationError::InvalidEmail)
    }
}

/// Accepts a text of at least [`MIN_LEN`] bytes and refuses a shorter one
/// with `refusal`.
pub fn validate_min_len(text: &str, refusal: ValidationError) -> (checked: Result<
    (),
    ValidationError,
>)
    ensures
        checked is Ok <==> byte_len(text@) >= MIN_LEN,
        checked matches Err(error) ==> error == refusal,
{
    if text.as_bytes().len() < MIN_LEN {
        Err(refusal)
    } else {
        Ok(())
    }
}

/// The value of `target` after an update that may leave the field out.
pub open spec fn updated<T>(target: T, value: Option<T>) -> T {
    match value {
        Some(new) => new,
        None => target,
    }
}

/// Overwrites `target` if the update holds a value for it.
pub fn set_if_present<T>(target: &mut T, value: Option<T>)
    ensures
        *final(target) == updated(*old(target), value),
{
    match value {
        Some(new) => {
            *target = new;
        },
        None => {},
    }
}

} // verus!
