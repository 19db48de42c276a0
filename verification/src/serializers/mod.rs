pub mod auth;
pub mod categories;
pub mod gallery_categories;
pub mod retreat_galleries;
pub mod retreats;
pub mod users;
pub mod validation;
pub mod wishlists;
