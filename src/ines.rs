//! The iNES ROM container: a 16-byte header, an optional 512-byte trainer,
//! PRG-ROM in 16 KiB units and CHR-ROM in 8 KiB units.
use vstd::prelude::*;

use vstd::slice::slice_to_vec;

verus! {

/// Why a file is not an iNES image this library reads.
#[derive(Clone, Copy, Debug, PartialEq, Eq, Structural)]
pub enum InesError {
    /// The first four bytes are not `4E 45 53 1A`.
    BadMagic,
    /// PlayChoice-10, NES 2.0, or reserved bits of byte 9 set.
    UnsupportedFormat,
    /// The file is shorter than the sections its header declares.
    Truncated,
    /// The file could not be read.
    IoFailure,
}

#[derive(Clone, Copy, Debug, PartialEq, Eq, Structural)]
pub enum NametableArrangement {
    Vertical,
    Horizontal,
}

#[derive(Clone, Copy, Debug, PartialEq, Eq, Structural)]
pub enum TvSystem {
    Ntsc,
    Pal,
}

/// The TV system of byte 10, an unofficial extension.
#[derive(Clone, Copy, Debug, PartialEq, Eq, Structural)]
pub enum TvSystemExt {
    Legacy(TvSystem),
    Dual,
}

/// The decoded 16-byte header.
#[derive(Clone, Copy, Debug, PartialEq, Eq, Structural)]
pub struct Header {
    /// In bytes.
    pub prg_rom_size: usize,
    /// In bytes; 0 means the board uses CHR-RAM.
    pub chr_rom_size: usize,
    /// Low nibble from byte 6, high nibble from byte 7.
    pub mapper_number: u8,
    pub nametable_arrangement: NametableArrangement,
    pub battery_backed_prg_ram: bool,
    /// A 512-byte trainer precedes the PRG-ROM.
    pub trainer_512: bool,
    pub alternative_nametable_layout: bool,
    pub vs_unisystem: bool,
    pub playchoice_10: bool,
    pub nes_2_0: bool,
    /// In bytes.
    pub prg_ram_size: usize,
    pub tv_system: TvSystem,
    pub tv_system_ext: TvSystemExt,
    /// PRG-RAM at `0x6000..0x7FFF` is absent.
    pub high_prg_ram: bool,
    pub bus_conflicts: bool,
}

pub open spec fn bit_set(value: u8, bit: u8) -> bool {
    value & (1u8 << bit) != 0
}

/// Whether bit `bit` (0..=7) of `value` is set.
pub fn is_bit_set(value: u8, bit: u8) -> (r: bool)
    requires
        bit < 8,
    ensures
        r == bit_set(value, bit),
{
    (value & (1u8 << bit)) != 0
}

pub open spec fn magic_ok(b: Seq<u8>) -> bool {
    b[0] == 0x4E && b[1] == 0x45 && b[2] == 0x53 && b[3] == 0x1A
}

/// The header declares NES 2.0 (bits 2-3 of byte 7 equal to 2).
pub open spec fn nes_2_0(b: Seq<u8>) -> bool {
    (b[7] >> 2u8) & 3 == 2
}

/// Neither PlayChoice-10, nor NES 2.0, nor a reserved bit of byte 9.
pub open spec fn format_ok(b: Seq<u8>) -> bool {
    !bit_set(b[7], 1) && !nes_2_0(b) && (b[9] >> 1u8) & 0x7F == 0
}

/// The fields that the 16 header bytes `b` encode.
pub open spec fn header_of(b: Seq<u8>) -> Header {
    Header {
        prg_rom_size: (b[4] * 16384) as usize,
        chr_rom_size: (b[5] * 8192) as usize,
        mapper_number: (b[6] >> 4u8) | ((b[7] >> 4u8) << 4u8),
        nametable_arrangement: if bit_set(b[6], 0) {
            NametableArrangement::Horizontal
        } else {
            NametableArrangement::Vertical
        },
        battery_backed_prg_ram: bit_set(b[6], 1),
        trainer_512: bit_set(b[6], 2),
        alternative_nametable_layout: bit_set(b[6], 3),
        vs_unisystem: bit_set(b[7], 0),
        playchoice_10: bit_set(b[7], 1),
        nes_2_0: nes_2_0(b),
        prg_ram_size: ((if b[8] == 0 { 1 } else { b[8] as int }) * 8192) as usize,
        tv_system: if bit_set(b[9], 0) { TvSystem::Pal } else { TvSystem::Ntsc },
        tv_system_ext: if b[10] & 3 == 0 {
            TvSystemExt::Legacy(TvSystem::Ntsc)
        } else if b[10] & 3 == 2 {
            TvSystemExt::Legacy(TvSystem::Pal)
        } else {
            TvSystemExt::Dual
        },
        high_prg_ram: bit_set(b[10], 4),
        bus_conflicts: bit_set(b[10], 5),
    }
}

/// The header that the 16 bytes `b` hold, or why they hold none.
pub open spec fn parse_header(b: Seq<u8>) -> Result<Header, InesError> {
    if !magic_ok(b) {
        Err(InesError::BadMagic)
    } else if !format_ok(b) {
        Err(InesError::UnsupportedFormat)
    } else {
        Ok(header_of(b))
    }
}

pub open spec fn bit_of(b: bool) -> u8 {
    if b { 1 } else { 0 }
}

fn bit_byte(b: bool) -> (r: u8)
    ensures
        r == bit_of(b),
{
    if b { 1 } else { 0 }
}

/// Byte 10's TV system code.
pub open spec fn tv_ext_code(e: TvSystemExt) -> u8 {
    match e {
        TvSystemExt::Legacy(TvSystem::Ntsc) => 0,
        TvSystemExt::Legacy(TvSystem::Pal) => 2,
        TvSystemExt::Dual => 1,
    }
}

/// The 16 bytes that encode `h`: the magic, the sizes in units, the flag
/// bytes, and zero padding.
pub open spec fn header_bytes(h: Header) -> Seq<u8> {
    seq![
        0x4Eu8,
        0x45,
        0x53,
        0x1A,
        (h.prg_rom_size / 16384) as u8,
        (h.chr_rom_size / 8192) as u8,
        ((h.mapper_number & 0x0F) << 4u8) | bit_of(
            h.nametable_arrangement == NametableArrangement::Horizontal,
        ) | (bit_of(h.battery_backed_prg_ram) << 1u8) | (bit_of(h.trainer_512) << 2u8) | (bit_of(
            h.alternative_nametable_layout,
        ) << 3u8),
        (h.mapper_number & 0xF0) | bit_of(h.vs_unisystem),
        (h.prg_ram_size / 8192) as u8,
        bit_of(h.tv_system == TvSystem::Pal),
        tv_ext_code(h.tv_system_ext) | (bit_of(h.high_prg_ram) << 4u8) | (bit_of(h.bus_conflicts)
            << 5u8),
        0,
        0,
        0,
        0,
        0,
    ]
}

proof fn lemma_flags6(m: u8, x0: u8, x1: u8, x2: u8, x3: u8, v: u8)
    by (bit_vector)
    requires
        x0 <= 1,
        x1 <= 1,
        x2 <= 1,
        x3 <= 1,
        v <= 1,
    ensures
        ((((m & 0x0F) << 4u8) | x0 | (x1 << 1u8) | (x2 << 2u8) | (x3 << 3u8)) >> 4u8) | ((((m
            & 0xF0) | v) >> 4u8) << 4u8) == m,
        bit_set(((m & 0x0F) << 4u8) | x0 | (x1 << 1u8) | (x2 << 2u8) | (x3 << 3u8), 0) == (x0
            == 1),
        bit_set(((m & 0x0F) << 4u8) | x0 | (x1 << 1u8) | (x2 << 2u8) | (x3 << 3u8), 1) == (x1
            == 1),
        bit_set(((m & 0x0F) << 4u8) | x0 | (x1 << 1u8) | (x2 << 2u8) | (x3 << 3u8), 2) == (x2
            == 1),
        bit_set(((m & 0x0F) << 4u8) | x0 | (x1 << 1u8) | (x2 << 2u8) | (x3 << 3u8), 3) == (x3
            == 1),
        bit_set((m & 0xF0) | v, 0) == (v == 1),
        !bit_set((m & 0xF0) | v, 1),
        (((m & 0xF0) | v) >> 2u8) & 3 != 2,
{
}

proof fn lemma_flags9_10(t: u8, e: u8, x4: u8, x5: u8)
    by (bit_vector)
    requires
        t <= 1,
        e <= 2,
        x4 <= 1,
        x5 <= 1,
    ensures
        bit_set(t, 0) == (t == 1),
        (t >> 1u8) & 0x7F == 0,
        (e | (x4 << 4u8) | (x5 << 5u8)) & 3 == e,
        bit_set(e | (x4 << 4u8) | (x5 << 5u8), 4) == (x4 == 1),
        bit_set(e | (x4 << 4u8) | (x5 << 5u8), 5) == (x5 == 1),
{
}

/// Writing a valid header and reading it back gives the same header.
pub proof fn lemma_header_round_trip(h: Header)
    requires
        h.valid(),
    ensures
        parse_header(header_bytes(h)) == Ok::<Header, InesError>(h),
{
    let b = header_bytes(h);
    lemma_flags6(
        h.mapper_number,
        bit_of(h.nametable_arrangement == NametableArrangement::Horizontal),
        bit_of(h.battery_backed_prg_ram),
        bit_of(h.trainer_512),
        bit_of(h.alternative_nametable_layout),
        bit_of(h.vs_unisystem),
    );
    lemma_flags9_10(
        bit_of(h.tv_system == TvSystem::Pal),
        tv_ext_code(h.tv_system_ext),
        bit_of(h.high_prg_ram),
        bit_of(h.bus_conflicts),
    );
    assert(header_of(b) == h);
}

impl Header {
    /// A header that `to_bytes` can write: sizes in whole units that fit a
    /// byte (at least one unit of PRG-RAM), and neither PlayChoice-10 nor
    /// NES 2.0.
    pub open spec fn valid(self) -> bool {
        &&& self.prg_rom_size % 16384 == 0
        &&& self.prg_rom_size / 16384 < 256
        &&& self.chr_rom_size % 8192 == 0
        &&& self.chr_rom_size / 8192 < 256
        &&& self.prg_ram_size % 8192 == 0
        &&& 1 <= self.prg_ram_size / 8192 < 256
        &&& !self.playchoice_10
        &&& !self.nes_2_0
    }

    /// Encodes the header as its 16 bytes.
    pub fn to_bytes(&self) -> (r: [u8; 16])
        requires
            self.valid(),
        ensures
            r@ == header_bytes(*self),
    {
        let mut b = [0u8; 16];
        b[0] = 0x4E;
        b[1] = 0x45;
        b[2] = 0x53;
        b[3] = 0x1A;
        b[4] = (self.prg_rom_size / 16384) as u8;
        b[5] = (self.chr_rom_size / 8192) as u8;
        let horizontal = match self.nametable_arrangement {
            NametableArrangement::Horizontal => true,
            NametableArrangement::Vertical => false,
        };
        b[6] = ((self.mapper_number & 0x0F) << 4u8) | bit_byte(horizontal) | (bit_byte(
            self.battery_backed_prg_ram,
        ) << 1u8) | (bit_byte(self.trainer_512) << 2u8) | (bit_byte(
            self.alternative_nametable_layout,
        ) << 3u8);
        b[7] = (self.mapper_number & 0xF0) | bit_byte(self.vs_unisystem);
        b[8] = (self.prg_ram_size / 8192) as u8;
        b[9] = match self.tv_system {
            TvSystem::Pal => 1,
            TvSystem::Ntsc => 0,
        };
        let ext: u8 = match self.tv_system_ext {
            TvSystemExt::Legacy(TvSystem::Ntsc) => 0,
            TvSystemExt::Legacy(TvSystem::Pal) => 2,
            TvSystemExt::Dual => 1,
        };
        b[10] = ext | (bit_byte(self.high_prg_ram) << 4u8) | (bit_byte(self.bus_conflicts) << 5u8);
        assert(b@ =~= header_bytes(*self));
        b
    }

    /// Decodes and checks the 16 header bytes.
    pub fn new(header: [u8; 16]) -> (r: Result<Header, InesError>)
        ensures
            r == parse_header(header@),
    {
        if !(header[0] == 0x4e && header[1] == 0x45 && header[2] == 0x53 && header[3] == 0x1a) {
            return Err(InesError::BadMagic);
        }
        let prg_rom_size = header[4] as usize * 16384;
        let chr_rom_size = header[5] as usize * 8192;

        let flag6 = header[6];
        let nametable_arrangement = if is_bit_set(flag6, 0) {
            NametableArrangement::Horizontal
        } else {
            NametableArrangement::Vertical
        };
        let battery_backed_prg_ram = is_bit_set(flag6, 1);
        let trainer_512 = is_bit_set(flag6, 2);
        let alternative_nametable_layout = is_bit_set(flag6, 3);

        let flag7 = header[7];
        let vs_unisystem = is_bit_set(flag7, 0);
        let playchoice_10 = is_bit_set(flag7, 1);
        let nes_2_0 = (flag7 >> 2u8) & 3 == 2;
        let flag9 = header[9];
        if playchoice_10 || nes_2_0 || (flag9 >> 1u8) & 0x7F != 0 {
            return Err(InesError::UnsupportedFormat);
        }
        let mapper_number = (flag6 >> 4u8) | ((flag7 >> 4u8) << 4u8);
        let prg_ram_size = (if header[8] == 0 { 1 } else { header[8] as usize }) * 8192;
        let tv_system = if is_bit_set(flag9, 0) { TvSystem::Pal } else { TvSystem::Ntsc };

        let flag10 = header[10];
        let tv_system_ext = if flag10 & 3 == 0 {
            TvSystemExt::Legacy(TvSystem::Ntsc)
        } else if flag10 & 3 == 2 {
            TvSystemExt::Legacy(TvSystem::Pal)
        } else {
            TvSystemExt::Dual
        };
        let high_prg_ram = is_bit_set(flag10, 4);
        let bus_conflicts = is_bit_set(flag10, 5);

        Ok(Header {
            prg_rom_size,
            chr_rom_size,
            mapper_number,
            nametable_arrangement,
            battery_backed_prg_ram,
            trainer_512,
            alternative_nametable_layout,
            vs_unisystem,
            playchoice_10,
            nes_2_0,
            prg_ram_size,
            tv_system,
            tv_system_ext,
            high_prg_ram,
            bus_conflicts,
        })
    }
}

/// The sections of an iNES image, as the contracts see them.
pub struct InesImage {
    pub header: Header,
    pub trainer: Option<Seq<u8>>,
    pub prg_rom: Seq<u8>,
    pub chr_rom: Seq<u8>,
}

/// Number of trainer bytes that header `h` declares.
pub open spec fn trainer_len(h: Header) -> int {
    if h.trainer_512 { 512 } else { 0 }
}

/// The image that the file `b` holds, or why it holds none. Bytes after the
/// CHR-ROM (PlayChoice data, a title) are ignored.
pub open spec fn parse_ines(b: Seq<u8>) -> Result<InesImage, InesError> {
    if b.len() < 16 {
        Err(InesError::Truncated)
    } else {
        match parse_header(b.subrange(0, 16)) {
            Err(e) => Err(e),
            Ok(h) => {
                let prg_start = 16 + trainer_len(h);
                let chr_start = prg_start + h.prg_rom_size;
                let end = chr_start + h.chr_rom_size;
                if b.len() < end {
                    Err(InesError::Truncated)
                } else {
                    Ok(
                        InesImage {
                            header: h,
                            trainer: if h.trainer_512 {
                                Some(b.subrange(16, 528))
                            } else {
                                None
                            },
                            prg_rom: b.subrange(prg_start, chr_start),
                            chr_rom: b.subrange(chr_start, end),
                        },
                    )
                }
            },
        }
    }
}

/// An iNES file split into its sections.
pub struct INes {
    pub header: Header,
    pub trainer: Option<Vec<u8>>,
    pub prg_rom: Vec<u8>,
    pub chr_rom: Vec<u8>,
}

impl View for INes {
    type V = InesImage;

    open spec fn view(&self) -> InesImage {
        InesImage {
            header: self.header,
            trainer: match self.trainer {
                Some(t) => Some(t@),
                None => None,
            },
            prg_rom: self.prg_rom@,
            chr_rom: self.chr_rom@,
        }
    }
}

impl INes {
    /// Splits the contents of an iNES file into header, trainer, PRG-ROM
    /// and CHR-ROM.
    pub fn new(bytes: &[u8]) -> (r: Result<INes, InesError>)
        ensures
            match r {
                Ok(i) => parse_ines(bytes@) == Ok::<InesImage, InesError>(i@),
                Err(e) => parse_ines(bytes@) == Err::<InesImage, InesError>(e),
            },
    {
        if bytes.len() < 16 {
            return Err(InesError::Truncated);
        }
        let mut header_bytes = [0u8; 16];
        let mut i: usize = 0;
        while i < 16
            invariant
                16 <= bytes@.len(),
                i <= 16,
                forall|j: int| 0 <= j < i ==> header_bytes@[j] == bytes@[j],
            decreases 16 - i,
        {
            header_bytes[i] = bytes[i];
            i = i + 1;
        }
        assert(header_bytes@ =~= bytes@.subrange(0, 16));
        let header = match Header::new(header_bytes) {
            Ok(h) => h,
            Err(e) => return Err(e),
        };
        let prg_start: usize = if header.trainer_512 { 528 } else { 16 };
        let chr_start = prg_start + header.prg_rom_size;
        let end = chr_start + header.chr_rom_size;
        if bytes.len() < end {
            return Err(InesError::Truncated);
        }
        let trainer = if header.trainer_512 {
            Some(slice_to_vec(&bytes[16..528]))
        } else {
            None
        };
        let prg_rom = slice_to_vec(&bytes[prg_start..chr_start]);
        let chr_rom = slice_to_vec(&bytes[chr_start..end]);
        Ok(INes { header, trainer, prg_rom, chr_rom })
    }
}

} // verus!
