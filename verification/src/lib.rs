//! A verified client library for the Scribe document conversion API.

pub mod model;
pub mod text;
pub mod download;
pub mod error;
pub mod json;
pub mod api;
pub mod token;
pub mod pkce;
pub mod channel;
pub mod session;
pub mod requests;
pub mod ffi;
pub mod python;
