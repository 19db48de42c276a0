//! Authentication core of a retreat-listing backend: signed access and
//! refresh tokens, the recovery of a caller's identity from a request, and
//! the decisions of the login and refresh flows.

pub mod entities_helper;
pub mod env;
pub mod error;
pub mod routes;
pub mod serializers;
pub mod utils;
