//! A gateway from virtual URL paths to a read-only bundle of static assets.
//!
//! A host hands the gateway the path of each resource it wants to fetch and
//! gets back a response (status, headers, body) to pass on unchanged. The
//! bundle is built once, before the first request, and only read afterwards.

pub mod bundle;
pub mod content_type;
pub mod gateway;
pub mod laws;
pub mod path_resolver;
pub mod response;

pub use bundle::{AssetBundle, AssetEntry, DuplicateKey};
pub use gateway::{AssetGateway, Request};
pub use response::{Header, Response};
