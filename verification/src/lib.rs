//! Verified core of a desktop control panel for the `rathole` tunnelling
//! binary: a single-process supervisor, a timestamped daily log sink,
//! a binary locator, and a release-archive installer.

pub mod clock;
pub mod installer;
pub mod lexorder;
pub mod locator;
pub mod logsink;
pub mod numerals;
pub mod supervisor;

use vstd::prelude::*;

verus! {

/// A supported host platform, selected by the surrounding application
/// at build time and handed in as a plain value.
#[derive(Clone, Copy, PartialEq, Eq, Structural, Debug)]
pub enum Platform {
    Linux,
    MacOs,
    Windows,
}

} // verus!
