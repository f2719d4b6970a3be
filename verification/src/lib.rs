//! Decision logic of a self-updating installer: which release is the latest,
//! which of its assets fits a platform, how the download proceeds, and where
//! the members of the downloaded archive are installed.
//!
//! The library decides and the caller acts: it sends the requests that the
//! library describes, runs the archive tool, and carries out the plan that
//! the library makes. The steps, in the order of a run:
//!
//! - [`strategy`] resolves where installed files land;
//! - [`listing`] finds the latest release in the answer to the listing
//!   request, with [`json`] for the document and [`http`] for the exchange;
//! - [`release`] selects the one asset that [`platform`] matches;
//! - [`download`] names the local file and follows at most one redirect;
//! - [`archive`] reads the entries of the downloaded archive, and
//!   [`install`] plans the copies.
//!
//! [`text`] and [`paths`] hold the string operations that these rest on, and
//! [`error`] the kinds of failure and their exit codes.

pub mod archive;
pub mod download;
pub mod error;
pub mod http;
pub mod install;
pub mod json;
pub mod listing;
pub mod paths;
pub mod platform;
pub mod release;
pub mod strategy;
pub mod text;
