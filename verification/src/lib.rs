//! A verified catalog-lookup library: a fixed list of named items with
//! integer prices, and a handler that maps a request's path parameters to
//! an HTTP-style response carrying JSON.

pub mod catalog;
pub mod handler;
pub mod json;
pub mod numfmt;
pub mod params;
