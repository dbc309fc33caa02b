//! The ways in which the console can fail.

use vstd::prelude::*;

verus! {

/// Why a ROM image was refused.
#[derive(Clone, Copy, PartialEq, Eq, Structural, Debug)]
pub enum RomFault {
    /// The image does not start with `N`, `E`, `S`, `0x1A`.
    BadMagic,
    /// The image ends before the header, or before the banks that the header announces.
    Truncated,
    /// The header asks for a format extension beyond iNES 1.0.
    UnsupportedFlags,
    /// The header announces no program bank.
    NoProgram,
}

/// The failures of the console and of its host.
#[derive(Clone, Copy, PartialEq, Eq, Structural, Debug)]
pub enum Error {
    RomFormat(RomFault),
    UnsupportedMapper(u8),
    UnsupportedOpcode(u8),
    HostAudio,
    HostVideo,
    BusFaultInternal,
}

} // verus!
