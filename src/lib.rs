//! A client for remote browser automation backends that speak the WebDriver
//! wire protocol: composable request paths, a classifier for the protocol's
//! JSON envelope, and the driver / session / element resources built on them.

pub mod client;
pub mod decode;
pub mod driver;
pub mod element;
pub mod encode;
pub mod httpdecorator;
pub mod json;
pub mod path;
pub mod session;
pub mod structs;

