use vstd::prelude::*;

use crate::entities_helper::GalleryCategoriesModel;
use crate::serializers::validation::{set_if_present, updated};

verus! {

/// Body of a request that creates a gallery category.
#[derive(Debug)]
pub struct CreateGalleryCategorySerializer {
    pub name: String,
}

/// Body of a request that renames a gallery category.
#[derive(Debug)]
pub struct UpdateGalleryCategorySerializer {
    pub name: Option<String>,
}

/// A gallery category as it is shown.
#[derive(Debug)]
pub struct ReadGalleryCategorySerializer {
    pub gallery_category_id: i64,
    pub name: String,
}

impl UpdateGalleryCategorySerializer {
    /// The record after the update by the user `author`: the name is
    /// replaced if the update holds one.
    pub fn apply_to(self, category: GalleryCategoriesModel, author: i64) -> (changed:
        GalleryCategoriesModel)
        ensures
            changed == (GalleryCategoriesModel {
                name: updated(category.name, self.name),
                updated_by: Some(author),
                ..category
            }),
    {
        let mut changed = category;
        set_if_present(&mut changed.name, self.name);
        changed.updated_by = Some(author);
        changed
    }
}

impl From<GalleryCategoriesModel> for ReadGalleryCategorySerializer {
    fn from(value: GalleryCategoriesModel) -> (shown: Self) {
        ReadGalleryCategorySerializer {
            gallery_category_id: value.gallery_category_id,
            name: value.name,
        }
    }
}

impl vstd::std_specs::convert::FromSpecImpl<GalleryCategoriesModel> for ReadGalleryCategorySerializer {
    open spec fn obeys_from_spec() -> bool {
        true
    }

    open spec fn from_spec(value: GalleryCategoriesModel) -> Self {
        ReadGalleryCategorySerializer {
            gallery_category_id: value.gallery_category_id,
            name: value.name,
        }
    }
}

} // verus!
