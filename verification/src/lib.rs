//! A weather-report library: resolving a place name to coordinates,
//! decoding a forecast payload, normalizing it into a domain model,
//! and selecting values for display in metric and imperial units.
//!
//! Every fractional quantity — a temperature, a wind speed, a
//! coordinate — is carried as an exact fixed-point count of
//! ten-thousandths of its unit (see `fixed`), so the whole pipeline,
//! from the decimal text a service sends to the text a display line
//! shows, works in integer arithmetic with stated contracts.
//!
//! The surrounding application owns all input and output: it performs
//! the HTTP requests and hands the response bodies in as strings, and
//! prints the lines the library selects.

pub mod catalog;
pub mod constants;
pub mod conversions;
pub mod decimal;
pub mod errors;
pub mod fixed;
pub mod forecast;
pub mod geocode;
pub mod json;
pub mod mapper;
pub mod models;
pub mod repository;
pub mod view;
