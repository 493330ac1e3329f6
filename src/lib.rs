//! Access to storage blobs named by URL: the address that a URL names, and
//! the choice of the credential that reaches it.
pub mod address;
pub mod credential;
pub mod registry;
