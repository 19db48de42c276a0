use vstd::prelude::*;

use crate::utils::text::{clone_text, same_text, text_of};

verus! {

/// A credential record, as the store holds it.
#[derive(Debug)]
pub struct UserModel {
    pub user_id: i64,
    pub name: String,
    pub email: String,
    /// The salted hash of the password, never the password itself.
    pub password: String,
    pub phone: Option<String>,
    pub is_admin: bool,
}

/// Mathematical value of a [`UserModel`].
pub struct UserModelView {
    pub user_id: i64,
    pub name: Seq<char>,
    pub email: Seq<char>,
    pub password: Seq<char>,
    pub phone: Option<Seq<char>>,
    pub is_admin: bool,
}

impl View for UserModel {
    type V = UserModelView;

    open spec fn view(&self) -> UserModelView {
        UserModelView {
            user_id: self.user_id,
            name: self.name@,
            email: self.email@,
            password: self.password@,
            phone: text_of(self.phone),
            is_admin: self.is_admin,
        }
    }
}

impl Clone for UserModel {
    fn clone(&self) -> (copy: Self)
        ensures
            copy@ == self@,
    {
        UserModel {
            user_id: self.user_id,
            name: self.name.clone(),
            email: self.email.clone(),
            password: self.password.clone(),
            phone: clone_text(&self.phone),
            is_admin: self.is_admin,
        }
    }
}

impl PartialEq for UserModel {
    fn eq(&self, other: &Self) -> (same: bool) {
        self.user_id == other.user_id && self.name == other.name && self.email == other.email
            && self.password == other.password && same_text(&self.phone, &other.phone)
            && self.is_admin == other.is_admin
    }
}

impl vstd::std_specs::cmp::PartialEqSpecImpl for UserModel {
    open spec fn obeys_eq_spec() -> bool {
        true
    }

    open spec fn eq_spec(&self, other: &Self) -> bool {
        self@ == other@
    }
}

/// A category of retreats, as the store holds it.
#[derive(Debug)]
pub struct CategoryModel {
    pub category_id: i64,
    pub name: String,
    pub description: Option<String>,
    pub created_by: Option<i64>,
    pub updated_by: Option<i64>,
}

/// A category of gallery images, as the store holds it.
#[derive(Debug)]
pub struct GalleryCategoriesModel {
    pub gallery_category_id: i64,
    pub name: String,
    pub created_by: Option<i64>,
    pub updated_by: Option<i64>,
}

/// An image in the gallery of a retreat, as the store holds it.
#[derive(Debug)]
pub struct RetreatGalleriesModel {
    pub gallery_id: i64,
    pub retreat_id: i64,
    /// Where the image lies, relative to the upload directory.
    pub image_path: String,
    pub caption: Option<String>,
    pub order: Option<i32>,
    pub gallery_category_id: Option<i64>,
    pub created_by: Option<i64>,
    pub updated_by: Option<i64>,
}

/// The tie between a retreat and a member of its staff, as the store holds
/// it.
#[derive(Debug)]
pub struct RetreatUserModel {
    pub retreat_user_id: i64,
    pub retreat_id: i64,
    pub user_id: i64,
    pub is_owner: bool,
    pub role: Option<String>,
    pub created_by: Option<i64>,
    pub updated_by: Option<i64>,
}

/// A retreat on a user's wishlist, as the store holds it.
#[derive(Debug, Clone, Copy, PartialEq, Eq, Structural)]
pub struct WishlistModel {
    pub wishlist_id: i64,
    pub user_id: i64,
    pub retreat_id: i64,
}

} // verus!
