//! The logic of a small program that asks OpenWeatherMap for the forecast at
//! a latitude and a longitude and prints it.
//!
//! The library decides what an invocation asks for ([`cli`]), builds the
//! address to ask ([`request`]), reads the forecast out of the body that
//! came back ([`parse`], [`json`], [`decode`]), can write it as a document
//! again ([`encode`]), and writes it as text for a reader ([`describe`],
//! [`text`], [`number`]). [`model`] holds the records of a forecast, and
//! [`laws`] what holds of reading and writing together. Asking the service
//! and printing are left to the program around the library.

pub mod cli;
pub mod decode;
pub mod describe;
pub mod encode;
pub mod json;
pub mod laws;
pub mod model;
pub mod number;
pub mod parse;
pub mod request;
pub mod text;
