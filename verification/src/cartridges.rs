//! Cartridge images: parsing of the 16-byte binary header, the program and
//! graphics ROM banks, and the screen-mirroring mode.

use vstd::prelude::*;

verus! {

/// First four bytes that every well-formed cartridge image must carry.
pub const TAG0: u8 = 0x4E;
pub const TAG1: u8 = 0x45;
pub const TAG2: u8 = 0x53;
pub const TAG3: u8 = 0x1A;

/// Size in bytes of one program-ROM page.
pub const PRG_ROM_PAGE_SIZE: usize = 16384;
/// Size in bytes of one graphics-ROM page.
pub const CHR_ROM_PAGE_SIZE: usize = 8192;

/// How the four logical nametables alias the two physical ones.
#[derive(Debug, Clone, Copy, PartialEq, Eq, Structural)]
pub enum Mirroring {
    Vertical,
    Horizontal,
    FourScreen,
}

/// A parsed, immutable cartridge image.
pub struct ROM {
    pub prg_rom: Vec<u8>,
    pub chr_rom: Vec<u8>,
    pub mapper: u8,
    pub screen_mirroring: Mirroring,
}

/// The image starts with the fixed four-byte tag.
pub open spec fn magic_ok(data: Seq<u8>) -> bool {
    &&& data.len() >= 16
    &&& data[0] == TAG0
    &&& data[1] == TAG1
    &&& data[2] == TAG2
    &&& data[3] == TAG3
}

/// The two-bit format-version field in header byte 7 is zero.
pub open spec fn version_ok(data: Seq<u8>) -> bool {
    (data[7] >> 2) & 0b11 == 0
}

/// Declared size in bytes of the program-ROM bank.
pub open spec fn spec_prg_size(data: Seq<u8>) -> int {
    data[4] * 16384
}

/// Declared size in bytes of the graphics-ROM bank.
pub open spec fn spec_chr_size(data: Seq<u8>) -> int {
    data[5] * 8192
}

/// A 512-byte trainer block sits between the header and the program data
/// when bit 2 of header byte 6 is set.
pub open spec fn spec_has_trainer(data: Seq<u8>) -> bool {
    data[6] & 0b100 != 0
}

/// Offset of the first program-ROM byte within the image.
pub open spec fn spec_prg_start(data: Seq<u8>) -> int {
    16 + if spec_has_trainer(data) { 512int } else { 0int }
}

/// The mirroring mode encoded in header byte 6.
pub open spec fn spec_mirroring(data: Seq<u8>) -> Mirroring {
    if data[6] & 0b1000 != 0 {
        Mirroring::FourScreen
    } else if data[6] & 0b1 != 0 {
        Mirroring::Vertical
    } else {
        Mirroring::Horizontal
    }
}

/// The mapper number assembled from the high nibbles of bytes 6 and 7.
pub open spec fn spec_mapper(data: Seq<u8>) -> u8 {
    (data[7] & 0xF0) | (data[6] >> 4)
}

/// An image parses successfully exactly when the tag matches, the version
/// field is zero, and the declared banks fit inside the data.
pub open spec fn parse_ok(data: Seq<u8>) -> bool {
    &&& magic_ok(data)
    &&& version_ok(data)
    &&& data.len() >= spec_prg_start(data) + spec_prg_size(data) + spec_chr_size(data)
}

impl ROM {
    /// Parses a raw cartridge image. Fails, rather than starting a session,
    /// on a wrong tag, an unsupported header version, or an image shorter
    /// than its header declares.
    pub fn new(binary_data: &Vec<u8>) -> (r: Result<ROM, String>)
        ensures
            r is Ok <==> parse_ok(binary_data@),
            r matches Ok(rom) ==> {
                &&& rom.prg_rom@ == binary_data@.subrange(
                    spec_prg_start(binary_data@),
                    spec_prg_start(binary_data@) + spec_prg_size(binary_data@),
                )
                &&& rom.chr_rom@ == binary_data@.subrange(
                    spec_prg_start(binary_data@) + spec_prg_size(binary_data@),
                    spec_prg_start(binary_data@) + spec_prg_size(binary_data@)
                        + spec_chr_size(binary_data@),
                )
                &&& rom.mapper == spec_mapper(binary_data@)
                &&& rom.screen_mirroring == spec_mirroring(binary_data@)
            },
            !magic_ok(binary_data@) ==> (r matches Err(e) && e@ == "File is not in iNES file format"@),
            magic_ok(binary_data@) && !version_ok(binary_data@) ==> (r matches Err(e) && e@
                == "NES2.0 format is not supported"@),
            magic_ok(binary_data@) && version_ok(binary_data@) && !parse_ok(binary_data@) ==> (
            r matches Err(e) && e@ == "File is shorter than its header declares"@),
    {
        if binary_data.len() < 16 || binary_data[0] != TAG0 || binary_data[1] != TAG1
            || binary_data[2] != TAG2 || binary_data[3] != TAG3 {
            return Err("File is not in iNES file format".to_string());
        }

        let mapper = (binary_data[7] & 0xF0) | (binary_data[6] >> 4);

        let ines_version = (binary_data[7] >> 2) & 0b11;

        if ines_version != 0 {
            return Err("NES2.0 format is not supported".to_string());
        }

        let four_screen = binary_data[6] & 0b1000 != 0;
        let vertical_mirroring = binary_data[6] & 0b1 != 0;
        let screen_mirroring = if four_screen {
            Mirroring::FourScreen
        } else if vertical_mirroring {
            Mirroring::Vertical
        } else {
            Mirroring::Horizontal
        };

        let prg_rom_size = (binary_data[4] as usize) * PRG_ROM_PAGE_SIZE;
        let chr_rom_size = (binary_data[5] as usize) * CHR_ROM_PAGE_SIZE;

        let skip_trainer = binary_data[6] & 0b100 != 0;

        let prg_rom_start: usize = if skip_trainer { 16 + 512 } else { 16 };
        let chr_rom_start = prg_rom_start + prg_rom_size;

        if binary_data.len() < chr_rom_start + chr_rom_size {
            return Err("File is shorter than its header declares".to_string());
        }

        let prg_rom = copy_range(binary_data, prg_rom_start, prg_rom_size);
        let chr_rom = copy_range(binary_data, chr_rom_start, chr_rom_size);

        Ok(ROM { prg_rom, chr_rom, mapper, screen_mirroring })
    }
}

/// Copies `count` bytes of `data` starting at `start` into a fresh vector.
fn copy_range(data: &Vec<u8>, start: usize, count: usize) -> (r: Vec<u8>)
    requires
        start + count <= data@.len(),
    ensures
        r@ == data@.subrange(start as int, start + count),
{
    let mut out: Vec<u8> = Vec::new();
    proof {
        vstd::std_specs::vec::axiom_spec_len(data);
    }
    let mut i: usize = 0;
    while i < count
        invariant
            i <= count,
            start + count <= data@.len(),
            data@.len() <= usize::MAX,
            out@.len() == i,
            forall|j: int| 0 <= j < i ==> out@[j] == data@[start + j],
        decreases count - i,
    {
        out.push(data[start + i]);
        i = i + 1;
    }
    proof {
        assert(out@ =~= data@.subrange(start as int, start + count));
    }
    out
}

/// Builds the standard exercise cartridge through the parser: a well-formed
/// header, two pages of program ROM filled with 1, one page of graphics ROM
/// filled with 2.
pub fn test_rom() -> (r: ROM)
    ensures
        r.prg_rom@.len() == 2 * 16384,
        r.chr_rom@.len() == 8192,
        r.mapper == 3,
        r.screen_mirroring == Mirroring::Vertical,
        forall|i: int| 0 <= i < r.prg_rom@.len() ==> r.prg_rom@[i] == 1u8,
        forall|i: int| 0 <= i < r.chr_rom@.len() ==> r.chr_rom@[i] == 2u8,
{
    let mut data: Vec<u8> = Vec::new();
    data.push(TAG0);
    data.push(TAG1);
    data.push(TAG2);
    data.push(TAG3);
    data.push(2u8);  // two program-ROM pages
    data.push(1u8);  // one graphics-ROM page
    data.push(0x31u8);  // vertical mirroring, mapper low nibble 3
    data.push(0u8);
    let mut i: usize = 8;
    while i < 16
        invariant
            8 <= i <= 16,
            data@.len() == i,
            data@[4] == 2u8,
            data@[5] == 1u8,
            data@[6] == 0x31u8,
            data@[7] == 0u8,
            data@[0] == TAG0 && data@[1] == TAG1 && data@[2] == TAG2 && data@[3] == TAG3,
        decreases 16 - i,
    {
        data.push(0u8);
        i = i + 1;
    }
    let mut j: usize = 0;
    while j < 2 * 16384
        invariant
            j <= 2 * 16384,
            data@.len() == 16 + j,
            data@[4] == 2u8 && data@[5] == 1u8 && data@[6] == 0x31u8 && data@[7] == 0u8,
            data@[0] == TAG0 && data@[1] == TAG1 && data@[2] == TAG2 && data@[3] == TAG3,
            forall|k: int| 16 <= k < 16 + j ==> data@[k] == 1u8,
        decreases 2 * 16384 - j,
    {
        data.push(1u8);
        j = j + 1;
    }
    let mut k: usize = 0;
    while k < 8192
        invariant
            k <= 8192,
            data@.len() == 16 + 2 * 16384 + k,
            data@[4] == 2u8 && data@[5] == 1u8 && data@[6] == 0x31u8 && data@[7] == 0u8,
            data@[0] == TAG0 && data@[1] == TAG1 && data@[2] == TAG2 && data@[3] == TAG3,
            forall|m: int| 16 <= m < 16 + 2 * 16384 ==> data@[m] == 1u8,
            forall|m: int| 16 + 2 * 16384 <= m < 16 + 2 * 16384 + k ==> data@[m] == 2u8,
        decreases 8192 - k,
    {
        data.push(2u8);
        k = k + 1;
    }
    proof {
        assert((0x31u8 >> 2) & 0b11 == 0) by (bit_vector);
        assert(0x31u8 & 0b100 == 0) by (bit_vector);
        assert(0x31u8 & 0b1000 == 0) by (bit_vector);
        assert(0x31u8 & 0b1 == 1) by (bit_vector);
        assert((0u8 >> 2) & 0b11 == 0) by (bit_vector);
        assert((0u8 & 0xF0) | (0x31u8 >> 4) == 3) by (bit_vector);
        assert(parse_ok(data@));
    }
    match ROM::new(&data) {
        Ok(rom) => {
            proof {
                assert forall|i: int| 0 <= i < rom.prg_rom@.len() implies rom.prg_rom@[i] == 1u8 by {
                    assert(rom.prg_rom@[i] == data@[16 + i]);
                }
                assert forall|i: int| 0 <= i < rom.chr_rom@.len() implies rom.chr_rom@[i] == 2u8 by {
                    assert(rom.chr_rom@[i] == data@[16 + 2 * 16384 + i]);
                }
            }
            rom
        },
        Err(_) => {
            // The constructed image parses by the contract of `ROM::new`.
            proof {
                assert(false);
            }
            ROM {
                prg_rom: Vec::new(),
                chr_rom: Vec::new(),
                mapper: 0,
                screen_mirroring: Mirroring::Horizontal,
            }
        },
    }
}

} // verus!
