//! An in-process proxy-path registry for a media-playback client: mint an
//! opaque local address for a remote resource URL, resolve that address back
//! to the original URL, and account for the outcome of fetching its bytes.

pub mod errors;
pub mod fetch;
pub mod registry;

pub use errors::ProxyError;
pub use fetch::{FetchEvent, FetchState};
pub use registry::{ProxyMapping, Registry};
