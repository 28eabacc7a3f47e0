//! Scan targets: the TV and the DRC screen, their resolutions and video modes.

use vstd::prelude::*;

verus! {

/// The TV scan mode the system is configured for.
#[derive(Debug, Clone, Copy, PartialEq, Eq, Structural)]
pub enum ScanMode {
    NTSC,
    NTSCp,
    PAL,
    HD,
    FHD,
    FHDi,
}

/// The TV aspect ratio the system is configured for.
#[derive(Debug, Clone, Copy, PartialEq, Eq, Structural)]
pub enum AspectRatio {
    Standard,
    Widescreen,
}

/// A TV video mode.
#[derive(Debug, Clone, Copy, PartialEq, Eq, Structural)]
pub enum TvMode {
    Standard480,
    Wide480,
    Wide720,
    Wide1080,
}

/// The screen a colour buffer is copied to.
#[derive(Debug, Clone, Copy, PartialEq, Eq, Structural)]
pub enum ScanTarget {
    Tv,
    Drc,
}

/// The TV.
pub struct TV;

/// The screen of the DRC.
pub struct DRC;

/// The resolution (width, height) of a TV video mode.
pub open spec fn mode_resolution(m: TvMode) -> (usize, usize) {
    match m {
        TvMode::Standard480 => (640, 480),
        TvMode::Wide480 => (854, 480),
        TvMode::Wide720 => (1280, 720),
        TvMode::Wide1080 => (1920, 1080),
    }
}

/// The TV video mode for a scan mode and aspect ratio: NTSC modes give 480
/// lines (standard or wide), PAL and HD give 720p, full HD gives 1080p.
pub open spec fn tv_mode(scan: ScanMode, aspect: AspectRatio) -> TvMode {
    match scan {
        ScanMode::NTSC | ScanMode::NTSCp => match aspect {
            AspectRatio::Standard => TvMode::Standard480,
            AspectRatio::Widescreen => TvMode::Wide480,
        },
        ScanMode::PAL | ScanMode::HD => TvMode::Wide720,
        ScanMode::FHD | ScanMode::FHDi => TvMode::Wide1080,
    }
}

impl TV {
    /// The size (width, height) of the TV picture.
    pub fn size(scan: ScanMode, aspect: AspectRatio) -> (r: (usize, usize))
        ensures
            r == mode_resolution(tv_mode(scan, aspect)),
    {
        match scan {
            ScanMode::NTSC | ScanMode::NTSCp => match aspect {
                AspectRatio::Standard => (640, 480),
                AspectRatio::Widescreen => (854, 480),
            },
            ScanMode::PAL | ScanMode::HD => (1280, 720),
            ScanMode::FHD | ScanMode::FHDi => (1920, 1080),
        }
    }

    /// The video mode of the TV picture.
    pub fn mode(scan: ScanMode, aspect: AspectRatio) -> (r: TvMode)
        ensures
            r == tv_mode(scan, aspect),
    {
        match scan {
            ScanMode::NTSC | ScanMode::NTSCp => match aspect {
                AspectRatio::Standard => TvMode::Standard480,
                AspectRatio::Widescreen => TvMode::Wide480,
            },
            ScanMode::PAL | ScanMode::HD => TvMode::Wide720,
            ScanMode::FHD | ScanMode::FHDi => TvMode::Wide1080,
        }
    }

    /// The TV is scan target `Tv`.
    pub fn scan_target() -> (r: ScanTarget)
        ensures
            r == ScanTarget::Tv,
    {
        ScanTarget::Tv
    }
}

impl DRC {
    /// The size (width, height) of the DRC screen.
    pub fn size() -> (r: (usize, usize))
        ensures
            r == (854usize, 480usize),
    {
        (854, 480)
    }

    /// The DRC screen is scan target `Drc`.
    pub fn scan_target() -> (r: ScanTarget)
        ensures
            r == ScanTarget::Drc,
    {
        ScanTarget::Drc
    }
}

/// The TV picture has the resolution of the video mode the TV is set to.
pub proof fn lemma_tv_size_matches_mode(
    scan: ScanMode,
    aspect: AspectRatio,
    size: (usize, usize),
    mode: TvMode,
)
    requires
        size == mode_resolution(tv_mode(scan, aspect)),
        mode == tv_mode(scan, aspect),
    ensures
        size == mode_resolution(mode),
        size.1 == 480 <==> (scan == ScanMode::NTSC || scan == ScanMode::NTSCp),
{
}

} // verus!
