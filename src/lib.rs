//! Recording pipeline of a note-taking application: the decisions of the
//! capture and writer stages, the recording session state machine, the
//! device catalog, and the plain data the application moves around.
//!
//! Hardware access, threads and file output are left to the caller, which
//! performs what these state machines decide and reports back the outcome.

pub mod error;
pub mod format;
pub mod capture;
pub mod catalog;
pub mod writer;
pub mod session;
pub mod pipeline;
pub mod models;
pub mod config;
