pub mod auth;
pub mod retreat_galleries;
