use vstd::prelude::*;

use crate::entities_helper::UserModel;
use crate::serializers::validation::{
    byte_len, email_is_valid, set_if_present, updated, validate_email, validate_min_len,
    ValidationError, MIN_LEN,
};

verus! {

/// Body of a request that creates a user.
#[derive(Debug)]
pub struct CreateUserSerializer {
    pub name: String,
    pub email: String,
    pub password: String,
    pub phone: Option<String>,
}

/// A user as it is shown: the credential record without the password.
#[derive(Debug)]
pub struct ReadUserSerializer {
    pub user_id: i64,
    pub name: String,
    pub email: String,
    pub phone: Option<String>,
}

/// Body of a request that changes a user. A field that is left out stays
/// as it is; `phone` can be set to nothing.
#[derive(Debug)]
pub struct UpdateUserSerializer {
    pub name: Option<String>,
    pub email: Option<String>,
    pub phone: Option<Option<String>>,
}

/// Accepts a phone number of at least [`MIN_LEN`] bytes.
pub fn validate_phone(phone: &str) -> (checked: Result<(), ValidationError>)
    ensures
        checked is Ok <==> byte_len(phone@) >= MIN_LEN,
        checked matches Err(error) ==> error == ValidationError::InvalidPhoneNumber,
{
    validate_min_len(phone, ValidationError::InvalidPhoneNumber)
}

/// The rules that an e-mail address and a phone number break, the address
/// first. A field that is absent breaks none.
pub open spec fn contact_errors(email: Option<String>, phone: Option<String>) -> Seq<
    ValidationError,
> {
    let of_email = match email {
        Some(address) if !email_is_valid(address@) => seq![ValidationError::InvalidEmail],
        _ => seq![],
    };
    let of_phone = match phone {
        Some(number) if byte_len(number@) < MIN_LEN => seq![
            ValidationError::InvalidPhoneNumber,
        ],
        _ => seq![],
    };
    of_email + of_phone
}

fn check_contact(email: Option<&String>, phone: Option<&String>) -> (checked: Result<
    (),
    Vec<ValidationError>,
>)
    ensures
        match checked {
            Ok(()) => contact_errors(owned(email), owned(phone)).len() == 0,
            Err(errors) => errors@ == contact_errors(owned(email), owned(phone)) && errors@.len()
                > 0,
        },
{
    let mut errors: Vec<ValidationError> = Vec::new();
    if let Some(address) = email {
        if let Err(error) = validate_email(address.as_str()) {
            errors.push(error);
        }
    }
    let ghost of_email = errors@;
    if let Some(number) = phone {
        if let Err(error) = validate_phone(number.as_str()) {
            errors.push(error);
        }
    }
    proof {
        assert(errors@ =~= contact_errors(owned(email), owned(phone)));
    }
    if errors.len() == 0 {
        Ok(())
    } else {
        Err(errors)
    }
}

/// The text behind a reference that may be absent.
pub open spec fn owned(field: Option<&String>) -> Option<String> {
    match field {
        Some(text) => Some(*text),
        None => None,
    }
}

/// The phone number that an update sets, if it sets one.
pub open spec fn phone_set(phone: Option<Option<String>>) -> Option<String> {
    match phone {
        Some(Some(number)) => Some(number),
        _ => None,
    }
}

impl CreateUserSerializer {
    /// Checks the e-mail address and, if there is one, the phone number.
    pub fn validate(&self) -> (checked: Result<(), Vec<ValidationError>>)
        ensures
            match checked {
                Ok(()) => contact_errors(Some(self.email), self.phone).len() == 0,
                Err(errors) => errors@ == contact_errors(Some(self.email), self.phone)
                    && errors@.len() > 0,
            },
    {
        check_contact(Some(&self.email), self.phone.as_ref())
    }
}

impl UpdateUserSerializer {
    /// Checks the e-mail address and the phone number as far as the update
    /// sets them.
    pub fn validate(&self) -> (checked: Result<(), Vec<ValidationError>>)
        ensures
            match checked {
                Ok(()) => contact_errors(self.email, phone_set(self.phone)).len() == 0,
                Err(errors) => errors@ == contact_errors(self.email, phone_set(self.phone))
                    && errors@.len() > 0,
            },
    {
        let phone = match &self.phone {
            Some(Some(number)) => Some(number),
            _ => None,
        };
        check_contact(self.email.as_ref(), phone)
    }

    /// The record after the update: each field that the update holds
    /// replaces the record's, every other field stays.
    pub fn apply_to(self, user: UserModel) -> (changed: UserModel)
        ensures
            changed == (UserModel {
                name: updated(user.name, self.name),
                email: updated(user.email, self.email),
                phone: updated(user.phone, self.phone),
                ..user
            }),
    {
        let mut changed = user;
        set_if_present(&mut changed.name, self.name);
        set_if_present(&mut changed.email, self.email);
        set_if_present(&mut changed.phone, self.phone);
        changed
    }
}

impl From<UserModel> for ReadUserSerializer {
    fn from(value: UserModel) -> (shown: Self) {
        ReadUserSerializer {
            user_id: value.user_id,
            name: value.name,
            email: value.email,
            phone: value.phone,
        }
    }
}

impl vstd::std_specs::convert::FromSpecImpl<UserModel> for ReadUserSerializer {
    open spec fn obeys_from_spec() -> bool {
        true
    }

    open spec fn from_spec(value: UserModel) -> Self {
        ReadUserSerializer {
            user_id: value.user_id,
            name: value.name,
            email: value.email,
            phone: value.phone,
        }
    }
}

} // verus!
