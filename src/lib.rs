//! Real-Debrid integration core: the OAuth2 device authorization grant, an
//! expiry-aware token cache, and the request/response rules of the provider's
//! REST API. Network, timers and the host application's event channel are left
//! to the caller, which runs the actions the library decides on.

pub mod error;
pub mod model;
pub mod client;
pub mod token;
pub mod flow;
pub mod automation;
