pub mod extractors;
pub mod hex;
pub mod jwt;
pub mod response;
pub mod storage;
pub mod text;
