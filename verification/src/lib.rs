//! A gateway that hands out signed URLs for the objects of an S3-compatible
//! store, lists them, and drives multipart uploads, so that its callers need
//! no credentials of the store.

pub mod encoding;
pub mod error;
pub mod multipart_upload;
pub mod number;
pub mod objects;
pub mod open_api;
pub mod request;
pub mod response;
pub mod routes;
pub mod s3_configuration;
pub mod server;
pub mod sign;
pub mod store;
pub mod text;

pub use error::Error;
pub use response::{request_builder, to_ok_json_response, to_redirect_response};
pub use routes::routes;
pub use s3_configuration::S3Configuration;
