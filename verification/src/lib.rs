//! The decisions of a debugging session for a circuit compiler: which source
//! files belong to the unit being debugged, in which order the stages of a
//! session run, and what is reported of each.

pub mod error;
pub mod files;
pub mod laws;
pub mod outside;
pub mod ownership;
pub mod path;
pub mod report;
pub mod request;
pub mod scan;
pub mod session;
pub mod workspace;
