//! Core of a small upload service: request routing, upload validation,
//! stored-file naming and response rendering, free of any I/O so that every
//! rule can be stated and proved.

pub mod assets;
pub mod config;
pub mod error;
pub mod form;
pub mod naming;
pub mod request;
pub mod sanitize_filename;
pub mod srv;
pub mod text;
pub mod timestamp;
pub mod upload;
