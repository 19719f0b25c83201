//! The defaults that stand in for arguments that the page leaves out.

use vstd::prelude::*;

verus! {

/// The media source that a loaded package is filed under when none is given.
pub const DEFAULT_PKG_SOURCE: u8 = 1;

/// The set of media sources (one bit each) that an exported package covers
/// when none is given: every source but the built-in one, bit 0.
pub const DEFAULT_EXPORT_SOURCES: u8 = 0b11111110;

/// The alpha-channel setting of an imported image when none is given.
pub const DEFAULT_IMAGE_ALPHA: bool = true;

/// Each brightness threshold of an imported image when none is given.
pub const DEFAULT_IMAGE_THRESHOLD: u8 = 128;

/// The media source for a package load.
pub fn pkg_source(source: Option<u8>) -> (s: u8)
    ensures
        s == (match source {
            Some(v) => v,
            None => DEFAULT_PKG_SOURCE,
        }),
{
    source.unwrap_or(DEFAULT_PKG_SOURCE)
}

/// The media sources for a package export.
pub fn export_sources(sources: Option<u8>) -> (s: u8)
    ensures
        s == (match sources {
            Some(v) => v,
            None => DEFAULT_EXPORT_SOURCES,
        }),
{
    sources.unwrap_or(DEFAULT_EXPORT_SOURCES)
}

/// How an RGBA image is turned into one-bit media.
#[derive(Clone, Copy, Debug, PartialEq, Eq, Structural)]
pub struct ImageSettings {
    /// Whether the alpha channel decides transparency.
    pub alpha: bool,
    /// The first brightness threshold.
    pub threshold_0: u8,
    /// The second brightness threshold.
    pub threshold_1: u8,
}

/// The settings for an image import, each left-out argument replaced by its
/// default.
pub fn image_settings(alpha: Option<bool>, threshold_0: Option<u8>, threshold_1: Option<u8>) -> (s:
    ImageSettings)
    ensures
        s.alpha == (match alpha {
            Some(v) => v,
            None => DEFAULT_IMAGE_ALPHA,
        }),
        s.threshold_0 == (match threshold_0 {
            Some(v) => v,
            None => DEFAULT_IMAGE_THRESHOLD,
        }),
        s.threshold_1 == (match threshold_1 {
            Some(v) => v,
            None => DEFAULT_IMAGE_THRESHOLD,
        }),
{
    ImageSettings {
        alpha: alpha.unwrap_or(DEFAULT_IMAGE_ALPHA),
        threshold_0: threshold_0.unwrap_or(DEFAULT_IMAGE_THRESHOLD),
        threshold_1: threshold_1.unwrap_or(DEFAULT_IMAGE_THRESHOLD),
    }
}

/// The number by which the page learns the control interpreter's mode:
/// 1 in package mode, 0 in any other.
pub fn command_mode_code(pkg_mode: bool) -> (code: i32)
    ensures
        code == (if pkg_mode { 1i32 } else { 0i32 }),
{
    if pkg_mode {
        1
    } else {
        0
    }
}

} // verus!
