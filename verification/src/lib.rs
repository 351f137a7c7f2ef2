//! Publishing local files to an object store.
//!
//! A run collects a [`s3::Batch`] of regular files, lets a metadata program
//! fill in a draft object for each of them, turns the draft into one upload
//! request and derives the public link that is reported for the file.

pub mod config;
pub mod error;
pub mod pipeline;
pub mod publish;
pub mod s3;
pub mod script;

pub use error::Error;
