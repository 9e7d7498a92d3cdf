use vstd::prelude::*;

use crate::error::{NesError, RomError};
use crate::ppu::Mirroring;

verus! {

/// Size of an iNES header.
pub const HEADER_SIZE: usize = 16;

/// Size of a trainer, when the header announces one.
pub const TRAINER_SIZE: usize = 512;

/// PRG-ROM comes in units of 16 KiB.
pub const PRG_UNIT_SIZE: usize = 16 * 1024;

/// CHR-ROM comes in units of 8 KiB.
pub const CHR_UNIT_SIZE: usize = 8 * 1024;

/// Whether `h` is an iNES header: 16 bytes starting with `"NES\x1A"`.
pub open spec fn is_nes_header(h: Seq<u8>) -> bool {
    h.len() == HEADER_SIZE && h[0] == 0x4E && h[1] == 0x45 && h[2] == 0x53 && h[3] == 0x1A
}

/// The bit of byte `b` whose weight is `weight` (1, 2, 4, ...).
pub open spec fn bit_of(b: u8, weight: nat) -> bool {
    (b as nat / weight) % 2 == 1
}

/// The mapper number: low nibble from the high nibble of byte 6, high nibble from the
/// high nibble of byte 7.
pub open spec fn mapper_number_of(h: Seq<u8>) -> u8 {
    (h[7] / 16 * 16 + h[6] / 16) as u8
}

/// Whether byte 7 marks the NES 2.0 format (bits 2-3 equal to `0b10`).
pub open spec fn nes_2_of(h: Seq<u8>) -> bool {
    (h[7] / 4) % 4 == 2
}

/// The mirroring that byte 6 selects: four-screen (bit 3) wins over vertical (bit 0).
pub open spec fn mirroring_of(h: Seq<u8>) -> Mirroring {
    if bit_of(h[6], 8) {
        Mirroring::FourScreen
    } else if bit_of(h[6], 1) {
        Mirroring::Vertical
    } else {
        Mirroring::Horizontal
    }
}

/// The 16-byte iNES header.
#[derive(Debug)]
pub struct Header {
    raw: Vec<u8>,
}

impl View for Header {
    type V = Seq<u8>;

    closed spec fn view(&self) -> Seq<u8> {
        self.raw@
    }
}

impl Clone for Header {
    fn clone(&self) -> (r: Self)
        ensures
            r@ == self@,
    {
        proof {
            use_type_invariant(self);
        }
        Header { raw: vstd::slice::slice_to_vec(self.raw.as_slice()) }
    }
}

impl Header {
    #[verifier::type_invariant]
    spec fn inv(&self) -> bool {
        self.raw@.len() == HEADER_SIZE
    }

    /// The header's 16 bytes, when they form an iNES header.
    pub fn from_slice(value: &[u8]) -> (r: Result<Self, RomError>)
        ensures
            r is Ok <==> is_nes_header(value@),
            r matches Ok(h) ==> h@ == value@,
    {
        if !Self::is_nes_rom(value) {
            return Err(RomError::InvalidInes("not an NES ROM".to_owned()));
        }
        Ok(Header { raw: vstd::slice::slice_to_vec(value) })
    }

    /// Whether `header` is 16 bytes long and starts with `"NES\x1A"`.
    pub fn is_nes_rom(header: &[u8]) -> (r: bool)
        ensures
            r == is_nes_header(header@),
    {
        header.len() == HEADER_SIZE && header[0] == 0x4E && header[1] == 0x45 && header[2] == 0x53
            && header[3] == 0x1A
    }

    fn byte(&self, i: usize) -> (r: u8)
        requires
            i < HEADER_SIZE,
        ensures
            r == self@[i as int],
    {
        proof {
            use_type_invariant(self);
        }
        self.raw[i]
    }

    /// PRG-ROM size in 16 KiB units.
    pub fn prg_size(&self) -> (r: u8)
        ensures
            r == self@[4],
    {
        self.byte(4)
    }

    /// CHR-ROM size in 8 KiB units.
    pub fn chr_size(&self) -> (r: u8)
        ensures
            r == self@[5],
    {
        self.byte(5)
    }

    pub fn mirroring(&self) -> (r: Mirroring)
        ensures
            r == mirroring_of(self@),
    {
        let flags6 = self.byte(6);
        if (flags6 / 8) % 2 == 1 {
            return Mirroring::FourScreen;
        }
        if flags6 % 2 == 0 {
            Mirroring::Horizontal
        } else {
            Mirroring::Vertical
        }
    }

    /// Whether the cartridge has battery-backed PRG-RAM (bit 1 of byte 6).
    pub fn battery_backed(&self) -> (r: bool)
        ensures
            r == bit_of(self@[6], 2),
    {
        (self.byte(6) / 2) % 2 == 1
    }

    /// Whether a 512-byte trainer follows the header (bit 2 of byte 6).
    pub fn trainer(&self) -> (r: bool)
        ensures
            r == bit_of(self@[6], 4),
    {
        (self.byte(6) / 4) % 2 == 1
    }

    pub fn mapper_number(&self) -> (r: u8)
        ensures
            r == mapper_number_of(self@),
    {
        let low = self.byte(6) / 16;
        let high = self.byte(7) / 16;
        high * 16 + low
    }

    /// Bit 0 of byte 7.
    pub fn vs_unisystem(&self) -> (r: bool)
        ensures
            r == bit_of(self@[7], 1),
    {
        self.byte(7) % 2 == 1
    }

    /// Bit 1 of byte 7.
    pub fn play_choice_10(&self) -> (r: bool)
        ensures
            r == bit_of(self@[7], 2),
    {
        (self.byte(7) / 2) % 2 == 1
    }

    pub fn nes_2_format(&self) -> (r: bool)
        ensures
            r == nes_2_of(self@),
    {
        (self.byte(7) / 4) % 4 == 2
    }

    /// Byte 8, the PRG-RAM size; refused for NES 2.0 headers, which lay it out otherwise.
    pub fn prg_ram_size(&self) -> (r: Result<u8, RomError>)
        ensures
            nes_2_of(self@) <==> r is Err,
            r matches Ok(v) ==> v == self@[8],
    {
        if self.nes_2_format() {
            Err(RomError::InvalidInes("NES 2.0 is not supported here".to_owned()))
        } else {
            Ok(self.byte(8))
        }
    }
}

/// The length of the trainer that header `h` announces.
pub open spec fn trainer_len(h: Seq<u8>) -> int {
    if bit_of(h[6], 4) {
        TRAINER_SIZE as int
    } else {
        0
    }
}

/// Where the PRG-ROM starts.
pub open spec fn prg_start(h: Seq<u8>) -> int {
    HEADER_SIZE + trainer_len(h)
}

/// Where the CHR-ROM starts.
pub open spec fn chr_start(h: Seq<u8>) -> int {
    prg_start(h) + PRG_UNIT_SIZE * h[4]
}

/// Where the CHR-ROM ends.
pub open spec fn image_end(h: Seq<u8>) -> int {
    chr_start(h) + CHR_UNIT_SIZE * h[5]
}

/// Whether `rom` is a complete iNES image: a header, then the trainer, PRG-ROM and
/// CHR-ROM that it announces.
pub open spec fn is_ines_image(rom: Seq<u8>) -> bool {
    rom.len() >= HEADER_SIZE && is_nes_header(rom.subrange(0, HEADER_SIZE as int))
        && rom.len() >= image_end(rom.subrange(0, HEADER_SIZE as int))
}

/// An iNES image split into its header, trainer, PRG-ROM and CHR-ROM.
pub struct NesLoader {
    header: Header,
    trainer: Vec<u8>,
    prg: Vec<u8>,
    chr: Vec<u8>,
}

impl NesLoader {
    pub closed spec fn spec_header(&self) -> Seq<u8> {
        self.header@
    }

    pub closed spec fn spec_trainer(&self) -> Seq<u8> {
        self.trainer@
    }

    pub closed spec fn spec_prg(&self) -> Seq<u8> {
        self.prg@
    }

    pub closed spec fn spec_chr(&self) -> Seq<u8> {
        self.chr@
    }

    pub fn header(&self) -> (r: &Header)
        ensures
            r@ == self.spec_header(),
    {
        &self.header
    }

    pub fn trainer(&self) -> (r: &[u8])
        ensures
            r@ == self.spec_trainer(),
    {
        self.trainer.as_slice()
    }

    pub fn prg(&self) -> (r: &[u8])
        ensures
            r@ == self.spec_prg(),
    {
        self.prg.as_slice()
    }

    pub fn chr(&self) -> (r: &[u8])
        ensures
            r@ == self.spec_chr(),
    {
        self.chr.as_slice()
    }

    /// Splits an iNES image; refuses a short image, a bad header or a missing part.
    pub fn from_slice(rom: &[u8]) -> (r: Result<Self, NesError>)
        ensures
            r is Ok <==> is_ines_image(rom@),
            r matches Ok(l) ==> {
                let h = rom@.subrange(0, HEADER_SIZE as int);
                &&& l.spec_header() == h
                &&& l.spec_trainer() == rom@.subrange(HEADER_SIZE as int, prg_start(h))
                &&& l.spec_prg() == rom@.subrange(prg_start(h), chr_start(h))
                &&& l.spec_chr() == rom@.subrange(chr_start(h), image_end(h))
            },
    {
        if rom.len() < HEADER_SIZE {
            return Err(NesError::InvalidInes("an iNES image is at least 16 bytes long".to_owned()));
        }
        let header_bytes = vstd::slice::slice_subrange(rom, 0, HEADER_SIZE);
        let header = match Header::from_slice(header_bytes) {
            Ok(h) => h,
            Err(RomError::InvalidInes(message)) => return Err(NesError::InvalidInes(message)),
        };
        let ghost h = rom@.subrange(0, HEADER_SIZE as int);
        let mut position: usize = HEADER_SIZE;
        let trainer = if header.trainer() {
            if rom.len() - position < TRAINER_SIZE {
                return Err(NesError::InvalidInes("the trainer is missing".to_owned()));
            }
            let v = vstd::slice::slice_to_vec(
                vstd::slice::slice_subrange(rom, position, position + TRAINER_SIZE),
            );
            position = position + TRAINER_SIZE;
            v
        } else {
            assert(rom@.subrange(HEADER_SIZE as int, HEADER_SIZE as int) =~= Seq::<u8>::empty());
            Vec::new()
        };
        assert(position == prg_start(h));
        let prg_len = PRG_UNIT_SIZE * header.prg_size() as usize;
        if rom.len() - position < prg_len {
            return Err(NesError::InvalidInes("the PRG-ROM is missing".to_owned()));
        }
        let prg = vstd::slice::slice_to_vec(
            vstd::slice::slice_subrange(rom, position, position + prg_len),
        );
        position = position + prg_len;
        let chr_len = CHR_UNIT_SIZE * header.chr_size() as usize;
        if rom.len() - position < chr_len {
            return Err(NesError::InvalidInes("the CHR-ROM is missing".to_owned()));
        }
        let chr = vstd::slice::slice_to_vec(
            vstd::slice::slice_subrange(rom, position, position + chr_len),
        );
        Ok(NesLoader { header, trainer, prg, chr })
    }
}

} // verus!
