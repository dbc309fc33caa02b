//! The cartridge image: what an iNES 1.0 file holds.

use crate::error::{Error, RomFault};
use vstd::prelude::*;
use vstd::slice::{slice_subrange, slice_to_vec};

verus! {

/// How the two kilobytes of nametable memory fill the four logical nametables.
#[derive(Clone, Copy, PartialEq, Eq, Structural, Debug)]
pub enum Mirroring {
    Horizontal,
    Vertical,
    SingleLower,
    SingleUpper,
    FourScreen,
}

pub const HEADER_LEN: usize = 16;

pub const TRAINER_LEN: usize = 512;

pub const PRG_BANK_LEN: usize = 16384;

pub const CHR_BANK_LEN: usize = 8192;

/// A cartridge image. Nothing in it changes once it is built.
pub struct Cartridge {
    pub prg_rom: Vec<u8>,
    /// Empty where the board carries character RAM.
    pub chr_rom: Vec<u8>,
    pub mapper_id: u8,
    pub mirroring: Mirroring,
    pub battery: bool,
    /// 512 bytes, or empty where the image has no trainer.
    pub trainer: Vec<u8>,
}

/// A cartridge image as plain values.
pub struct CartridgeView {
    pub prg_rom: Seq<u8>,
    pub chr_rom: Seq<u8>,
    pub mapper_id: u8,
    pub mirroring: Mirroring,
    pub battery: bool,
    pub trainer: Seq<u8>,
}

impl View for Cartridge {
    type V = CartridgeView;

    open spec fn view(&self) -> CartridgeView {
        CartridgeView {
            prg_rom: self.prg_rom@,
            chr_rom: self.chr_rom@,
            mapper_id: self.mapper_id,
            mirroring: self.mirroring,
            battery: self.battery,
            trainer: self.trainer@,
        }
    }
}

/// The mapper families that the console implements.
pub open spec fn mapper_supported(id: u8) -> bool {
    id <= 4
}

impl CartridgeView {
    /// Whole banks, at least one of program, a trainer of 512 bytes or none,
    /// and a mapper that the console implements.
    pub open spec fn wf(self) -> bool {
        &&& self.prg_rom.len() > 0
        &&& self.prg_rom.len() % (PRG_BANK_LEN as nat) == 0
        &&& self.prg_rom.len() <= 255 * PRG_BANK_LEN
        &&& self.chr_rom.len() % (CHR_BANK_LEN as nat) == 0
        &&& self.chr_rom.len() <= 255 * CHR_BANK_LEN
        &&& (self.trainer.len() == 0 || self.trainer.len() == TRAINER_LEN)
        &&& mapper_supported(self.mapper_id)
    }
}

/// Whether `data` starts with the four bytes `N`, `E`, `S`, `0x1A`.
pub open spec fn has_magic(data: Seq<u8>) -> bool {
    data.len() >= 4 && data[0] == 0x4E && data[1] == 0x45 && data[2] == 0x53 && data[3] == 0x1A
}

/// The mapper number: its low nibble is the high nibble of byte 6, its high
/// nibble the high nibble of byte 7.
pub open spec fn header_mapper(flags6: u8, flags7: u8) -> u8 {
    (flags6 / 16 + 16 * (flags7 / 16)) as u8
}

/// The mirroring that byte 6 asks for: four-screen where bit 3 is set, else
/// vertical where bit 0 is set, else horizontal.
pub open spec fn header_mirroring(flags6: u8) -> Mirroring {
    if (flags6 / 8) % 2 == 1 {
        Mirroring::FourScreen
    } else if flags6 % 2 == 1 {
        Mirroring::Vertical
    } else {
        Mirroring::Horizontal
    }
}

/// Whether byte 6 announces a trainer (bit 2).
pub open spec fn header_trainer(flags6: u8) -> bool {
    (flags6 / 4) % 2 == 1
}

/// Whether byte 6 announces battery-backed memory (bit 1).
pub open spec fn header_battery(flags6: u8) -> bool {
    (flags6 / 2) % 2 == 1
}

/// Whether byte 7 marks the image as the later NES 2.0 format (bits 3 and 2
/// are `10`).
pub open spec fn header_extended(flags7: u8) -> bool {
    (flags7 / 4) % 4 == 2
}

/// Where the program banks start.
pub open spec fn prg_start(data: Seq<u8>) -> int {
    HEADER_LEN + if header_trainer(data[6]) {
        TRAINER_LEN as int
    } else {
        0
    }
}

/// Where the character banks start.
pub open spec fn chr_start(data: Seq<u8>) -> int {
    prg_start(data) + PRG_BANK_LEN * data[4]
}

/// Where the banks end.
pub open spec fn image_end(data: Seq<u8>) -> int {
    chr_start(data) + CHR_BANK_LEN * data[5]
}

/// What an iNES 1.0 file holds, or why it is refused. The checks come in
/// this order: the header's length, the magic number, the format flags, the
/// program size, the mapper number, the file's length.
pub open spec fn parse_rom(data: Seq<u8>) -> Result<CartridgeView, Error> {
    if data.len() < HEADER_LEN {
        Err(Error::RomFormat(RomFault::Truncated))
    } else if !has_magic(data) {
        Err(Error::RomFormat(RomFault::BadMagic))
    } else if header_extended(data[7]) {
        Err(Error::RomFormat(RomFault::UnsupportedFlags))
    } else if data[4] == 0 {
        Err(Error::RomFormat(RomFault::NoProgram))
    } else if !mapper_supported(header_mapper(data[6], data[7])) {
        Err(Error::UnsupportedMapper(header_mapper(data[6], data[7])))
    } else if data.len() < image_end(data) {
        Err(Error::RomFormat(RomFault::Truncated))
    } else {
        Ok(
            CartridgeView {
                prg_rom: data.subrange(prg_start(data), chr_start(data)),
                chr_rom: data.subrange(chr_start(data), image_end(data)),
                mapper_id: header_mapper(data[6], data[7]),
                mirroring: header_mirroring(data[6]),
                battery: header_battery(data[6]),
                trainer: if header_trainer(data[6]) {
                    data.subrange(HEADER_LEN as int, HEADER_LEN + TRAINER_LEN)
                } else {
                    Seq::empty()
                },
            },
        )
    }
}

/// Every image that is accepted is well formed.
pub proof fn lemma_parsed_is_wf(data: Seq<u8>)
    requires
        parse_rom(data) is Ok,
    ensures
        parse_rom(data)->Ok_0.wf(),
{
    let c = parse_rom(data)->Ok_0;
    assert(c.prg_rom.len() == PRG_BANK_LEN * data[4]);
    assert(c.chr_rom.len() == CHR_BANK_LEN * data[5]);
}

impl Cartridge {
    /// Reads an iNES 1.0 image.
    pub fn from_bytes(data: &[u8]) -> (r: Result<Cartridge, Error>)
        ensures
            r matches Ok(c) ==> parse_rom(data@) == Ok::<CartridgeView, Error>(c@) && c@.wf(),
            r matches Err(e) ==> parse_rom(data@) == Err::<CartridgeView, Error>(e),
    {
        if data.len() < HEADER_LEN {
            return Err(Error::RomFormat(RomFault::Truncated));
        }
        if data[0] != 0x4E || data[1] != 0x45 || data[2] != 0x53 || data[3] != 0x1A {
            return Err(Error::RomFormat(RomFault::BadMagic));
        }
        let flags6 = data[6];
        let flags7 = data[7];
        if (flags7 / 4) % 4 == 2 {
            return Err(Error::RomFormat(RomFault::UnsupportedFlags));
        }
        if data[4] == 0 {
            return Err(Error::RomFormat(RomFault::NoProgram));
        }
        let mapper_id: u8 = flags6 / 16 + 16 * (flags7 / 16);
        if mapper_id > 4 {
            return Err(Error::UnsupportedMapper(mapper_id));
        }
        let has_trainer = (flags6 / 4) % 2 == 1;
        let prg_at: usize = if has_trainer {
            HEADER_LEN + TRAINER_LEN
        } else {
            HEADER_LEN
        };
        let chr_at: usize = prg_at + PRG_BANK_LEN * (data[4] as usize);
        let end: usize = chr_at + CHR_BANK_LEN * (data[5] as usize);
        if data.len() < end {
            return Err(Error::RomFormat(RomFault::Truncated));
        }
        let trainer = if has_trainer {
            slice_to_vec(slice_subrange(data, HEADER_LEN, HEADER_LEN + TRAINER_LEN))
        } else {
            Vec::new()
        };
        let mirroring = if (flags6 / 8) % 2 == 1 {
            Mirroring::FourScreen
        } else if flags6 % 2 == 1 {
            Mirroring::Vertical
        } else {
            Mirroring::Horizontal
        };
        let cart = Cartridge {
            prg_rom: slice_to_vec(slice_subrange(data, prg_at, chr_at)),
            chr_rom: slice_to_vec(slice_subrange(data, chr_at, end)),
            mapper_id,
            mirroring,
            battery: (flags6 / 2) % 2 == 1,
            trainer,
        };
        proof {
            lemma_parsed_is_wf(data@);
        }
        Ok(cart)
    }
}

} // verus!
