//! A client for the Steam storefront's public JSON API, without the transport.
//!
//! The crate decides what is asked of the store and what an answer means:
//! it composes the address of each request, and turns a decoded response
//! into a typed result or a typed error. Sending the request and decoding
//! the JSON body are left to the caller.

pub mod address;
pub mod app;
pub mod country;
pub mod envelope;
pub mod error;
pub mod ids;
pub mod package;
pub mod prelude;
pub mod price;
pub mod request;
pub mod review;
pub mod steam;
pub mod types;
