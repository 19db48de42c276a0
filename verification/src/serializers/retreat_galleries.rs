use vstd::prelude::*;

use crate::entities_helper::RetreatGalleriesModel;

verus! {

/// A gallery image as it is shown: the record without the place of its
/// file.
#[derive(Debug)]
pub struct ReadRetreatGallerySerializer {
    pub gallery_id: i64,
    pub retreat_id: i64,
    pub caption: Option<String>,
    pub order: Option<i32>,
    pub gallery_category_id: Option<i64>,
    pub created_by: Option<i64>,
    pub updated_by: Option<i64>,
}

impl From<RetreatGalleriesModel> for ReadRetreatGallerySerializer {
    fn from(value: RetreatGalleriesModel) -> (shown: Self) {
        ReadRetreatGallerySerializer {
            gallery_id: value.gallery_id,
            retreat_id: value.retreat_id,
            caption: value.caption,
            order: value.order,
            gallery_category_id: value.gallery_category_id,
            created_by: value.created_by,
            updated_by: value.updated_by,
        }
    }
}

impl vstd::std_specs::convert::FromSpecImpl<RetreatGalleriesModel> for ReadRetreatGallerySerializer {
    open spec fn obeys_from_spec() -> bool {
        true
    }

    open spec fn from_spec(value: RetreatGalleriesModel) -> Self {
        ReadRetreatGallerySerializer {
            gallery_id: value.gallery_id,
            retreat_id: value.retreat_id,
            caption: value.caption,
            order: value.order,
            gallery_category_id: value.gallery_category_id,
            created_by: value.created_by,
            updated_by: value.updated_by,
        }
    }
}

} // verus!
