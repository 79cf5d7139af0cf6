//! Requests on the tags of files.

pub mod remove;
