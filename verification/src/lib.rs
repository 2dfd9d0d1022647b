//! A library for an HTTP-to-object-storage redirecting proxy.
//!
//! An inbound request path names an object key inside one configured bucket.
//! The library derives the key from the path, keeps a cached storage
//! credential that is refreshed only when it has expired, computes a
//! time-limited presigned URL for the object, and describes the HTTP
//! response to send: a redirect to the signed URL on success, or a
//! diagnostic error response when the credential source fails.

pub mod config;
pub mod credential;
pub mod handler;
pub mod object_key;
pub mod response;
pub mod sign;
pub mod text;

pub use config::Config;
pub use credential::Credential;
pub use credential::CredentialCache;
pub use handler::SIGNED_URL_TTL_SECONDS;
pub use handler::respond;
pub use object_key::object_key_of_path;
pub use response::ResponsePlan;
pub use sign::sign;
