//! Watches a remote captcha deployment for new versioned asset bundles.
//!
//! The crate holds the verified core of the monitor: extracting a version
//! identifier from a bootstrap script, decoding the signed token returned by
//! the site-configuration endpoint into a resource path, deciding whether a
//! version was already archived, and building the exact bytes and URLs that
//! the archive and the notification carry. Network and filesystem plumbing
//! stay outside and hand this crate plain values.

pub mod archiver;
pub mod config;
pub mod cycle;
pub mod detector;
pub mod locator;
pub mod notify;
pub mod scan;
pub mod token;
pub mod version;
