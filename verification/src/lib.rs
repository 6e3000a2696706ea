//! Installation manifests for over-the-air app installs, and the two
//! HTTP answers of the service that hands them out.
//!
//! A request's query string is decoded into key/value pairs, the four
//! required parameters are picked out of them, a manifest is built from
//! the four texts and encoded as an XML property list. A second answer
//! describes the service itself as a JSON document.

pub mod config;
pub mod error;
pub mod laws;
pub mod manifest;
pub mod plist_doc;
pub mod query;
pub mod response;
pub mod service;
pub mod status;
