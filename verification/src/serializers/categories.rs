use vstd::prelude::*;

use crate::entities_helper::CategoryModel;
use crate::serializers::validation::{
    byte_len, set_if_present, updated, validate_min_len, ValidationError, MIN_LEN,
};

verus! {

/// Body of a request that creates a category.
#[derive(Debug)]
pub struct CreateCategorySerializer {
    pub name: String,
    pub description: Option<String>,
}

/// A category as it is shown.
#[derive(Debug)]
pub struct ReadCategorySerializer {
    pub category_id: i64,
    pub name: String,
    pub description: Option<String>,
}

/// Body of a request that changes a category. A field that is left out
/// stays as it is; `description` can be set to nothing.
#[derive(Debug)]
pub struct UpdateCategorySerializer {
    pub name: Option<String>,
    pub description: Option<Option<String>>,
}

/// Accepts a category name of at least [`MIN_LEN`] bytes.
pub fn validate_phone(phone: &str) -> (checked: Result<(), ValidationError>)
    ensures
        checked is Ok <==> byte_len(phone@) >= MIN_LEN,
        checked matches Err(error) ==> error == ValidationError::InvalidName,
{
    validate_min_len(phone, ValidationError::InvalidName)
}

impl CreateCategorySerializer {
    /// Checks the name.
    pub fn validate(&self) -> (checked: Result<(), Vec<ValidationError>>)
        ensures
            checked is Ok <==> byte_len(self.name@) >= MIN_LEN,
            checked matches Err(errors) ==> errors@ == seq![ValidationError::InvalidName],
    {
        match validate_phone(self.name.as_str()) {
            Ok(()) => Ok(()),
            Err(error) => Err(vec![error]),
        }
    }

}

impl UpdateCategorySerializer {
    /// The record after the update: each field that the update holds
    /// replaces the record's, every other field stays.
    pub fn apply_to(self, category: CategoryModel) -> (changed: CategoryModel)
        ensures
            changed == (CategoryModel {
                name: updated(category.name, self.name),
                description: updated(category.description, self.description),
                ..category
            }),
    {
        let mut changed = category;
        set_if_present(&mut changed.name, self.name);
        set_if_present(&mut changed.description, self.description);
        changed
    }
}

impl From<CategoryModel> for ReadCategorySerializer {
    fn from(value: CategoryModel) -> (shown: Self) {
        ReadCategorySerializer {
            category_id: value.category_id,
            name: value.name,
            description: value.description,
        }
    }
}

impl vstd::std_specs::convert::FromSpecImpl<CategoryModel> for ReadCategorySerializer {
    open spec fn obeys_from_spec() -> bool {
        true
    }

    open spec fn from_spec(value: CategoryModel) -> Self {
        ReadCategorySerializer {
            category_id: value.category_id,
            name: value.name,
            description: value.description,
        }
    }
}

} // verus!
