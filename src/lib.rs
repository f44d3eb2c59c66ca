//! OCR service core: discovery of installed recognition models, resolution of
//! a client's language/model request against them, upload validation and the
//! error taxonomy of the HTTP surface.

pub mod catalog;
pub mod config;
pub mod error;
pub mod images;
pub mod languages;
pub mod models;
pub mod parse;
pub mod text;
pub mod validations;
