//! Client library for the SocketLabs Injection API.
//!
//! The library builds the request payload for one or more email messages,
//! renders it in the provider's JSON wire format, and decodes the provider's
//! structured response, including its three families of error codes.
//! Sending the bytes over HTTPS is left to the caller.

pub mod error;
pub mod text;
pub mod address;
pub mod codes;
pub mod json;
pub mod message;
pub mod request;
pub mod response;
