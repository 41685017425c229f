//! Verified core of an OAuth2 device-authorization client.
//!
//! The library models the authentication state machine of the client:
//! starting the device grant, simulating the browser-side approval step,
//! polling the token endpoint, and keeping an access token fresh. All
//! decisions are made by verified functions on plain values; the network
//! transport lives outside the library and hands events in.

pub mod client;
pub mod error;
pub mod forms;
pub mod lifecycle;
pub mod poller;
pub mod redirect;
pub mod session;
