//! Cartridge images in the iNES format: the 16-byte header, the PRG-ROM and
//! CHR-ROM that follow it, and the mapper that the header names.

use vstd::prelude::*;
use crate::mappers::{Mapper, MapperView, NROM, TXROM};
use crate::text::push_char;
use vstd::string::StringExecFns;

verus! {

pub const HEADER_SIZE: usize = 16;
pub const TRAINER_SIZE: usize = 512;
pub const PRG_ROM_PAGE_SIZE: usize = 16384;
pub const CHR_ROM_PAGE_SIZE: usize = 8192;

/// How the video unit's nametables are laid out.
#[derive(Clone, Copy, Debug, PartialEq, Eq, Structural)]
pub enum ScreenMirroring {
    Horizontal,
    Vertical,
    FourScreen,
    Default,
}

#[allow(non_camel_case_types)]
#[derive(Clone, Copy, Debug, PartialEq, Eq, Structural)]
pub enum iNESVersion {
    iNES_Archaic,
    iNES_1,
    iNES_2,
    Indeterminate,
}

#[derive(Clone, Copy, Debug, PartialEq, Eq, Structural)]
pub enum Region {
    NSTC,
    PAL,
}

/// Why a cartridge image was refused.
#[derive(Clone, Copy, Debug, PartialEq, Eq, Structural)]
pub enum RomError {
    /// Fewer than 16 bytes: no header to read.
    HeaderUnreadable,
    /// The header does not start with `NES` and 0x1A.
    MissingSignature,
    /// The header is neither iNES 1 nor iNES 2.
    UnsupportedVersion,
    /// The image is shorter than the sizes its header declares.
    Truncated,
    /// The header names a mapper that is not implemented.
    UnsupportedMapper(u16),
}

pub open spec fn decimal_digit(n: nat) -> char {
    if n == 0 { '0' } else if n == 1 { '1' } else if n == 2 { '2' } else if n == 3 { '3' }
    else if n == 4 { '4' } else if n == 5 { '5' } else if n == 6 { '6' } else if n == 7 { '7' }
    else if n == 8 { '8' } else { '9' }
}

/// `n` in decimal, without leading zeros.
pub open spec fn decimal(n: nat) -> Seq<char>
    decreases n,
{
    if n < 10 {
        seq![decimal_digit(n)]
    } else {
        decimal(n / 10).push(decimal_digit(n % 10))
    }
}

fn decimal_digit_char(n: u16) -> (c: char)
    requires
        n < 10,
    ensures
        c == decimal_digit(n as nat),
{
    if n == 0 { '0' } else if n == 1 { '1' } else if n == 2 { '2' } else if n == 3 { '3' }
    else if n == 4 { '4' } else if n == 5 { '5' } else if n == 6 { '6' } else if n == 7 { '7' }
    else if n == 8 { '8' } else { '9' }
}

/// Appends `n` in decimal.
fn push_decimal(out: &mut String, n: u16)
    ensures
        final(out)@ == old(out)@ + decimal(n as nat),
    decreases n,
{
    if n >= 10 {
        push_decimal(out, n / 10);
    }
    push_char(out, decimal_digit_char(n % 10));
    assert(out@ =~= old(out)@ + decimal(n as nat));
}

fn unsupported_mapper_message(id: u16) -> (r: String)
    ensures
        r@ == "Mapper "@ + decimal(id as nat) + " not supported"@,
{
    let mut r = String::from_str("Mapper ");
    push_decimal(&mut r, id);
    r.append(" not supported");
    r
}

impl RomError {
    /// The message shown to the user.
    pub fn message(&self) -> (r: String)
        ensures
            r@ == match *self {
                RomError::HeaderUnreadable => "Error reading ROM header. ROM may be malformed"@,
                RomError::MissingSignature => "Header does not contain signature bytes. ROM may be malformed or invalid"@,
                RomError::UnsupportedVersion => "ROM must be either iNES_1 or iNES_2!"@,
                RomError::Truncated => "ROM is shorter than its header declares"@,
                RomError::UnsupportedMapper(id) => "Mapper "@ + decimal(id as nat) + " not supported"@,
            },
    {
        match self {
            RomError::HeaderUnreadable => String::from_str("Error reading ROM header. ROM may be malformed"),
            RomError::MissingSignature => String::from_str(
                "Header does not contain signature bytes. ROM may be malformed or invalid",
            ),
            RomError::UnsupportedVersion => String::from_str("ROM must be either iNES_1 or iNES_2!"),
            RomError::Truncated => String::from_str("ROM is shorter than its header declares"),
            RomError::UnsupportedMapper(id) => unsupported_mapper_message(*id),
        }
    }
}

#[allow(non_camel_case_types)]
#[derive(Clone, Copy, Debug, PartialEq, Eq, Structural)]
pub struct iNESHeader {
    pub ines_version: iNESVersion,
    pub region: Region,
    pub mirroring: ScreenMirroring,
    pub prg_rom_banks: u16,
    pub chr_rom_banks: u16,
    pub mapper_id: u16,
    pub has_trainer: bool,
    pub has_battery_backed_ram: bool,
}

pub open spec fn has_signature(b: Seq<u8>) -> bool {
    b.len() >= 16 && b[0] == 0x4E && b[1] == 0x45 && b[2] == 0x53 && b[3] == 0x1A
}

pub open spec fn spec_ines_version(h: Seq<u8>) -> iNESVersion {
    let v = h[7] & 0x0C;
    if v == 0x08 {
        iNESVersion::iNES_2
    } else if v == 0x04 {
        iNESVersion::iNES_Archaic
    } else if v == 0 && h[12] == 0 && h[13] == 0 && h[14] == 0 && h[15] == 0 {
        iNESVersion::iNES_1
    } else {
        iNESVersion::Indeterminate
    }
}

pub open spec fn spec_screen_mirroring(h: Seq<u8>) -> ScreenMirroring {
    if h[6] & 0x08 != 0 {
        ScreenMirroring::FourScreen
    } else if h[6] & 0x01 != 0 {
        ScreenMirroring::Vertical
    } else {
        ScreenMirroring::Horizontal
    }
}

/// The header that the first 16 bytes describe.
pub open spec fn spec_header(h: Seq<u8>) -> iNESHeader {
    let version = spec_ines_version(h);
    let v2 = version == iNESVersion::iNES_2;
    let mapper = ((h[7] & 0xF0) | (h[6] >> 4u8)) as u16;
    let prg = h[4] as u16;
    let chr = h[5] as u16;
    iNESHeader {
        ines_version: version,
        region: if h[9] & 1 == 0 { Region::NSTC } else { Region::PAL },
        mirroring: spec_screen_mirroring(h),
        prg_rom_banks: if v2 { prg | (((h[9] & 0x0F) as u16) << 8u16) } else { prg },
        chr_rom_banks: if v2 { chr | (((h[9] & 0xF0) as u16) << 8u16) } else { chr },
        mapper_id: if v2 { mapper | (((h[8] & 0x0F) as u16) << 8u16) } else { mapper },
        has_trainer: h[6] & 0x04 != 0,
        has_battery_backed_ram: h[6] & 0x02 == 2,
    }
}

impl iNESHeader {
    pub open spec fn prg_rom_offset(self) -> int {
        HEADER_SIZE + if self.has_trainer { TRAINER_SIZE as int } else { 0 }
    }

    pub open spec fn prg_rom_size(self) -> int {
        self.prg_rom_banks * PRG_ROM_PAGE_SIZE
    }

    pub open spec fn chr_rom_size(self) -> int {
        self.chr_rom_banks * CHR_ROM_PAGE_SIZE
    }

    /// The first 16 bytes, if they are there and carry the signature.
    pub fn retrieve_and_verify_header(byte_code: &[u8]) -> (r: Result<Vec<u8>, RomError>)
        ensures
            byte_code@.len() < 16 ==> r == Err::<Vec<u8>, RomError>(RomError::HeaderUnreadable),
            byte_code@.len() >= 16 && !has_signature(byte_code@) ==> r == Err::<Vec<u8>, RomError>(
                RomError::MissingSignature,
            ),
            has_signature(byte_code@) ==> r is Ok && r->Ok_0@ == byte_code@.subrange(0, 16),
    {
        if byte_code.len() < HEADER_SIZE {
            return Err(RomError::HeaderUnreadable);
        }
        if !(byte_code[0] == 0x4E && byte_code[1] == 0x45 && byte_code[2] == 0x53 && byte_code[3] == 0x1A) {
            return Err(RomError::MissingSignature);
        }
        Ok(copy_range(byte_code, 0, HEADER_SIZE))
    }

    pub fn get_ines_version(header: &[u8]) -> (r: iNESVersion)
        requires
            header@.len() >= 16,
        ensures
            r == spec_ines_version(header@),
    {
        let v = header[7] & 0x0C;
        if v == 0x08 {
            iNESVersion::iNES_2
        } else if v == 0x04 {
            iNESVersion::iNES_Archaic
        } else if v == 0 && header[12] == 0 && header[13] == 0 && header[14] == 0 && header[15] == 0 {
            iNESVersion::iNES_1
        } else {
            iNESVersion::Indeterminate
        }
    }

    pub fn get_screen_mirroring(header: &[u8]) -> (r: ScreenMirroring)
        requires
            header@.len() >= 16,
        ensures
            r == spec_screen_mirroring(header@),
    {
        if header[6] & 0x08 != 0 {
            ScreenMirroring::FourScreen
        } else if header[6] & 0x01 != 0 {
            ScreenMirroring::Vertical
        } else {
            ScreenMirroring::Horizontal
        }
    }

    pub fn has_trainer(header: &[u8]) -> (r: bool)
        requires
            header@.len() >= 16,
        ensures
            r == (header@[6] & 0x04 != 0),
    {
        header[6] & 0x04 != 0
    }

    pub fn from_bytes(bytecode: &[u8]) -> (r: Result<iNESHeader, RomError>)
        ensures
            bytecode@.len() < 16 ==> r == Err::<iNESHeader, RomError>(RomError::HeaderUnreadable),
            bytecode@.len() >= 16 && !has_signature(bytecode@) ==> r == Err::<iNESHeader, RomError>(
                RomError::MissingSignature,
            ),
            has_signature(bytecode@) ==> r == Ok::<iNESHeader, RomError>(spec_header(bytecode@)),
    {
        let header = match iNESHeader::retrieve_and_verify_header(bytecode) {
            Ok(h) => h,
            Err(e) => return Err(e),
        };
        let h = header.as_slice();
        let ines_version = iNESHeader::get_ines_version(h);
        let region = if h[9] & 1 == 0 { Region::NSTC } else { Region::PAL };
        let mirroring = iNESHeader::get_screen_mirroring(h);
        let mut mapper_id = ((h[7] & 0xF0) | (h[6] >> 4u8)) as u16;
        let has_trainer = iNESHeader::has_trainer(h);
        let has_battery_backed_ram = h[6] & 0x02 == 2;
        let mut prg_rom_banks = h[4] as u16;
        let mut chr_rom_banks = h[5] as u16;
        if ines_version == iNESVersion::iNES_2 {
            mapper_id = mapper_id | (((h[8] & 0x0F) as u16) << 8u16);
            prg_rom_banks = prg_rom_banks | (((h[9] & 0x0F) as u16) << 8u16);
            chr_rom_banks = chr_rom_banks | (((h[9] & 0xF0) as u16) << 8u16);
        }
        Ok(
            iNESHeader {
                ines_version,
                region,
                mirroring,
                prg_rom_banks,
                chr_rom_banks,
                mapper_id,
                has_trainer,
                has_battery_backed_ram,
            },
        )
    }
}

/// `b[from..from + len]` as a vector.
fn copy_range(b: &[u8], from: usize, len: usize) -> (r: Vec<u8>)
    requires
        from + len <= b@.len(),
    ensures
        r@ == b@.subrange(from as int, from + len),
{
    let mut r: Vec<u8> = Vec::new();
    let mut i: usize = 0;
    let n = b.len();
    while i < len
        invariant
            n == b@.len(),
            from + len <= b@.len(),
            i <= len,
            r@ == b@.subrange(from as int, from + i),
        decreases len - i,
    {
        r.push(b[from + i]);
        i = i + 1;
        assert(r@ =~= b@.subrange(from as int, from + i));
    }
    r
}

pub struct ROM {
    pub name: String,
    pub header: iNESHeader,
    pub mapper: Mapper,
    pub prg_rom: Vec<u8>,
    pub prg_ram: Vec<u8>,
    pub chr_rom: Vec<u8>,
    pub chr_ram: Vec<u8>,
    pub ex_ram: Vec<u8>,
}

/// Why the image `b` is refused, if it is.
pub open spec fn rom_error(b: Seq<u8>) -> Option<RomError> {
    if b.len() < 16 {
        Some(RomError::HeaderUnreadable)
    } else if !has_signature(b) {
        Some(RomError::MissingSignature)
    } else {
        let h = spec_header(b);
        if h.ines_version != iNESVersion::iNES_1 && h.ines_version != iNESVersion::iNES_2 {
            Some(RomError::UnsupportedVersion)
        } else if h.prg_rom_offset() + h.prg_rom_size() + h.chr_rom_size() > b.len() {
            Some(RomError::Truncated)
        } else if h.mapper_id != 0 && h.mapper_id != 4 {
            Some(RomError::UnsupportedMapper(h.mapper_id))
        } else {
            None
        }
    }
}

impl ROM {
    pub fn has_chr_rom(&self) -> (r: bool)
        ensures
            r == (self.chr_rom@.len() != 0),
    {
        self.chr_rom.len() != 0
    }

    /// Parses a cartridge image and sets up the mapper that its header names
    /// (0: fixed, 4: windowed bank switching).
    pub fn from_bytes(name: String, byte_code: &[u8]) -> (r: Result<ROM, RomError>)
        ensures
            match rom_error(byte_code@) {
                Some(e) => r == Err::<ROM, RomError>(e),
                None => r is Ok && {
                    let rom = r->Ok_0;
                    let h = spec_header(byte_code@);
                    &&& rom.name == name
                    &&& rom.header == h
                    &&& rom.prg_rom@ == byte_code@.subrange(h.prg_rom_offset(), h.prg_rom_offset() + h.prg_rom_size())
                    &&& rom.chr_rom@ == byte_code@.subrange(
                        h.prg_rom_offset() + h.prg_rom_size(),
                        h.prg_rom_offset() + h.prg_rom_size() + h.chr_rom_size(),
                    )
                    &&& h.mapper_id == 0 ==> rom.mapper@ is NROM
                    &&& h.mapper_id == 4 ==> rom.mapper@ is TXROM && rom.mapper@->TXROM_0.power_on(
                        h.prg_rom_size() as nat,
                        0x2000,
                        if h.chr_rom_size() != 0 { h.chr_rom_size() as nat } else { 0x2000 },
                    )
                    &&& rom.mapper@.wf()
                    &&& rom.mapper@.mirroring() == h.mirroring
                    &&& rom.chr_ram@ == (if h.chr_rom_size() == 0 {
                        Seq::new(0x2000, |i: int| 0u8)
                    } else {
                        Seq::<u8>::empty()
                    })
                    &&& rom.prg_ram@ == (if h.mapper_id == 4 {
                        Seq::new(0x2000, |i: int| 0u8)
                    } else {
                        Seq::<u8>::empty()
                    })
                    &&& rom.ex_ram@ == (if h.mapper_id == 4 && h.mirroring == ScreenMirroring::FourScreen {
                        Seq::new(0x1000, |i: int| 0u8)
                    } else {
                        Seq::<u8>::empty()
                    })
                },
            },
    {
        let header = match iNESHeader::from_bytes(byte_code) {
            Ok(h) => h,
            Err(e) => return Err(e),
        };
        if header.ines_version != iNESVersion::iNES_1 && header.ines_version != iNESVersion::iNES_2 {
            return Err(RomError::UnsupportedVersion);
        }
        let prg_rom_size = header.prg_rom_banks as usize * PRG_ROM_PAGE_SIZE;
        let chr_rom_size = header.chr_rom_banks as usize * CHR_ROM_PAGE_SIZE;
        let prg_rom_offset = HEADER_SIZE + if header.has_trainer { TRAINER_SIZE } else { 0 };
        if byte_code.len() < prg_rom_offset || byte_code.len() - prg_rom_offset < prg_rom_size
            || byte_code.len() - prg_rom_offset - prg_rom_size < chr_rom_size {
            return Err(RomError::Truncated);
        }
        if header.mapper_id != 0 && header.mapper_id != 4 {
            return Err(RomError::UnsupportedMapper(header.mapper_id));
        }
        let chr_rom_offset = prg_rom_offset + prg_rom_size;
        let mut rom = ROM {
            name,
            header,
            mapper: Mapper::none(),
            prg_rom: copy_range(byte_code, prg_rom_offset, prg_rom_size),
            prg_ram: Vec::new(),
            chr_rom: copy_range(byte_code, chr_rom_offset, chr_rom_size),
            chr_ram: Vec::new(),
            ex_ram: Vec::new(),
        };
        let mapper = if header.mapper_id == 0 {
            NROM::load(&mut rom)
        } else {
            TXROM::load(&mut rom)
        };
        rom.mapper = mapper;
        Ok(rom)
    }
}

} // verus!
