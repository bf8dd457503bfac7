//! A typed client library for DHL's public REST APIs.
//!
//! The library builds the URLs of the "Location Finder" and "Shipment
//! Tracking" APIs from typed requests, and reads the bodies of their
//! responses into typed values or errors. It does not touch the network: a
//! call is prepared here, sent elsewhere, and its response read here again.
//!
//! - [`api`] holds the requests, the responses and the vocabulary of the
//!   APIs, and the two halves of a call.
//! - [`query`] serializes the fields of a request into a query string, and
//!   [`percent`] encodes the names and values in it.
//! - [`json`] and [`decode`] read JSON documents into typed values.
//! - [`number`], [`time`] and [`text`] hold the plain values that travel in
//!   requests and responses: decimal numbers, dates and times, numerals.
//! - [`error`] is what can go wrong.

pub mod api;
pub mod decode;
pub mod error;
pub mod json;
pub mod number;
pub mod percent;
pub mod query;
pub mod text;
pub mod time;
