//! The cartridge image and its header.
use vstd::prelude::*;
use crate::comps::cpu::{word, word_spec};

verus! {

/// The first address past the header.
pub const HEADER_END: usize = 0x150;

/// The first address past the part of the cartridge that the bus can reach.
pub const IMAGE_MIN: usize = 0xC000;

/// The fields of the header at `$0100`-`$014F`.
#[derive(Clone, Copy, Debug)]
pub struct ROMHeader {
    pub entry: [u8; 4],
    pub logo: [u8; 0x30],
    pub title: [u8; 16],
    pub new_lic_code: u16,
    pub sgb_flag: u8,
    pub type_: u8,
    pub rom_size: u8,
    pub ram_size: u8,
    pub dest_code: u8,
    pub lic_code: u8,
    pub version: u8,
    pub checksum: u8,
    pub global_checksum: u16,
}

/// Why an image was not accepted as a cartridge.
#[derive(Clone, Copy, PartialEq, Eq, Structural, Debug)]
pub enum LoadError {
    /// The image ends before its header does.
    ShortRead,
    /// The header bytes fail the checksum test.
    BadHeader,
}

/// A loaded cartridge: the flat image and what its header says.
#[derive(Debug)]
pub struct CartContext {
    pub rom_size: u32,
    pub rom_data: Vec<u8>,
    pub header: ROMHeader,
}

/// The model of a cartridge: its image as a sequence of bytes.
pub struct CartView {
    pub rom_size: u32,
    pub rom_data: Seq<u8>,
    pub header: ROMHeader,
}

/// Whether `h` holds the header fields of image `rom`.
pub open spec fn is_header_of(h: ROMHeader, rom: Seq<u8>) -> bool {
    &&& forall|i: int| 0 <= i < 4 ==> h.entry[i] == rom[0x100 + i]
    &&& forall|i: int| 0 <= i < 0x30 ==> h.logo[i] == rom[0x104 + i]
    &&& forall|i: int| 0 <= i < 16 ==> h.title[i] == rom[0x134 + i]
    &&& h.new_lic_code == word_spec(rom[0x144], rom[0x145])
    &&& h.sgb_flag == rom[0x146]
    &&& h.type_ == rom[0x147]
    &&& h.rom_size == rom[0x148]
    &&& h.ram_size == rom[0x149]
    &&& h.dest_code == rom[0x14A]
    &&& h.lic_code == rom[0x14B]
    &&& h.version == rom[0x14C]
    &&& h.checksum == rom[0x14D]
    &&& h.global_checksum == word_spec(rom[0x14E], rom[0x14F])
}

/// The image as the cartridge holds it: filled up with zeros to `$C000` if
/// it ends before.
pub open spec fn padded(rom: Seq<u8>) -> Seq<u8> {
    if rom.len() >= IMAGE_MIN {
        rom
    } else {
        rom + Seq::new((IMAGE_MIN - rom.len()) as nat, |i: int| 0u8)
    }
}

/// The sum of `rom[i] + 1` over `from <= i < to`.
pub open spec fn header_sum(rom: Seq<u8>, from: int, to: int) -> int
    decreases to - from,
{
    if to <= from {
        0
    } else {
        header_sum(rom, from, to - 1) + rom[to - 1] + 1
    }
}

/// The checksum test: starting from zero, subtract each byte of
/// `$0134`-`$014C` and one more; the header passes iff the low byte of the
/// result is not zero.
pub open spec fn checksum_passes(rom: Seq<u8>) -> bool {
    (0 - header_sum(rom, 0x134, 0x14D)) % 256 != 0
}

/// The publisher that old licensee code `code` stands for.
pub open spec fn lic_code_spec(code: u8) -> Seq<char> {
    match code {
        0x00 => "None"@,
        0x01 => "Nintendo R&D1"@,
        0x08 => "Capcom"@,
        0x13 => "Electronic Arts"@,
        0x18 => "Hudson Soft"@,
        0x19 => "b-ai"@,
        0x20 => "kss"@,
        0x22 => "pow"@,
        0x24 => "PCM Complete"@,
        0x25 => "san-x"@,
        0x28 => "Kemco Japan"@,
        0x29 => "seta"@,
        0x30 => "Viacom"@,
        0x31 => "Nintendo"@,
        0x32 => "Bandai"@,
        0x33 => "Ocean/Acclaim"@,
        0x34 => "Konami"@,
        0x35 => "Hector"@,
        0x37 => "Taito"@,
        0x38 => "Hudson"@,
        0x39 => "Banpresto"@,
        0x41 => "Ubi Soft"@,
        0x42 => "Atlus"@,
        0x44 => "Malibu"@,
        0x46 => "angel"@,
        0x47 => "Bullet-Proof"@,
        0x49 => "irem"@,
        0x50 => "Absolute"@,
        0x51 => "Acclaim"@,
        0x52 => "Activision"@,
        0x53 => "American sammy"@,
        0x54 => "Konami"@,
        0x55 => "Hi tech entertainment"@,
        0x56 => "LJN"@,
        0x57 => "Matchbox"@,
        0x58 => "Mattel"@,
        0x59 => "Milton Bradley"@,
        0x60 => "Titus"@,
        0x61 => "Virgin"@,
        0x64 => "LucasArts"@,
        0x67 => "Ocean"@,
        0x69 => "Electronic Arts"@,
        0x70 => "Infogrames"@,
        0x71 => "Interplay"@,
        0x72 => "Broderbund"@,
        0x73 => "sculptured"@,
        0x75 => "sci"@,
        0x78 => "THQ"@,
        0x79 => "Accolade"@,
        0x80 => "misawa"@,
        0x83 => "lozc"@,
        0x86 => "Tokuma Shoten Intermedia"@,
        0x87 => "Tsukuda Original"@,
        0x91 => "Chunsoft"@,
        0x92 => "Video system"@,
        0x93 => "Ocean/Acclaim"@,
        0x95 => "Varie"@,
        0x96 => "Yonezawa/s'pal"@,
        0x97 => "Kaneko"@,
        0x99 => "Pack in soft"@,
        0xA4 => "Konami (Yu-Gi-Oh!)"@,
        _ => "UNKNOWN"@,
    }
}

/// The cartridge hardware that type byte `code` stands for, if the byte is a
/// known one.
pub open spec fn rom_type_spec(code: u8) -> Option<Seq<char>> {
    match code {
        0x00 => Some("ROM ONLY"@),
        0x01 => Some("MBC1"@),
        0x02 => Some("MBC1+RAM"@),
        0x03 => Some("MBC1+RAM+BATTERY"@),
        0x04 => Some("0x04 ???"@),
        0x05 => Some("MBC2"@),
        0x06 => Some("MBC2+BATTERY"@),
        0x07 => Some("0x07 ???"@),
        0x08 => Some("ROM+RAM 1"@),
        0x09 => Some("ROM+RAM+BATTERY 1"@),
        0x0A => Some("0x0A ???"@),
        0x0B => Some("MMM01"@),
        0x0C => Some("MMM01+RAM"@),
        0x0D => Some("MMM01+RAM+BATTERY"@),
        0x0E => Some("0x0E ???"@),
        0x0F => Some("MBC3+TIMER+BATTERY"@),
        0x10 => Some("MBC3+TIMER+RAM+BATTERY 2"@),
        0x11 => Some("MBC3"@),
        0x12 => Some("MBC3+RAM 2"@),
        0x13 => Some("MBC3+RAM+BATTERY 2"@),
        0x14 => Some("0x14 ???"@),
        0x15 => Some("0x15 ???"@),
        0x16 => Some("0x16 ???"@),
        0x17 => Some("0x17 ???"@),
        0x18 => Some("0x18 ???"@),
        0x19 => Some("MBC5"@),
        0x1A => Some("MBC5+RAM"@),
        0x1B => Some("MBC5+RAM+BATTERY"@),
        0x1C => Some("MBC5+RUMBLE"@),
        0x1D => Some("MBC5+RUMBLE+RAM"@),
        0x1E => Some("MBC5+RUMBLE+RAM+BATTERY"@),
        0x1F => Some("0x1F ???"@),
        0x20 => Some("MBC6"@),
        0x21 => Some("0x21 ???"@),
        0x22 => Some("MBC7+SENSOR+RUMBLE+RAM+BATTERY"@),
        _ => None,
    }
}

pub fn lic_code(code: u8) -> (name: &'static str)
    ensures
        name@ == lic_code_spec(code),
{
    match code {
        0x00 => "None",
        0x01 => "Nintendo R&D1",
        0x08 => "Capcom",
        0x13 => "Electronic Arts",
        0x18 => "Hudson Soft",
        0x19 => "b-ai",
        0x20 => "kss",
        0x22 => "pow",
        0x24 => "PCM Complete",
        0x25 => "san-x",
        0x28 => "Kemco Japan",
        0x29 => "seta",
        0x30 => "Viacom",
        0x31 => "Nintendo",
        0x32 => "Bandai",
        0x33 => "Ocean/Acclaim",
        0x34 => "Konami",
        0x35 => "Hector",
        0x37 => "Taito",
        0x38 => "Hudson",
        0x39 => "Banpresto",
        0x41 => "Ubi Soft",
        0x42 => "Atlus",
        0x44 => "Malibu",
        0x46 => "angel",
        0x47 => "Bullet-Proof",
        0x49 => "irem",
        0x50 => "Absolute",
        0x51 => "Acclaim",
        0x52 => "Activision",
        0x53 => "American sammy",
        0x54 => "Konami",
        0x55 => "Hi tech entertainment",
        0x56 => "LJN",
        0x57 => "Matchbox",
        0x58 => "Mattel",
        0x59 => "Milton Bradley",
        0x60 => "Titus",
        0x61 => "Virgin",
        0x64 => "LucasArts",
        0x67 => "Ocean",
        0x69 => "Electronic Arts",
        0x70 => "Infogrames",
        0x71 => "Interplay",
        0x72 => "Broderbund",
        0x73 => "sculptured",
        0x75 => "sci",
        0x78 => "THQ",
        0x79 => "Accolade",
        0x80 => "misawa",
        0x83 => "lozc",
        0x86 => "Tokuma Shoten Intermedia",
        0x87 => "Tsukuda Original",
        0x91 => "Chunsoft",
        0x92 => "Video system",
        0x93 => "Ocean/Acclaim",
        0x95 => "Varie",
        0x96 => "Yonezawa/s'pal",
        0x97 => "Kaneko",
        0x99 => "Pack in soft",
        0xA4 => "Konami (Yu-Gi-Oh!)",
        _ => "UNKNOWN",
    }
}

pub fn rom_type(code: u8) -> (name: Option<&'static str>)
    ensures
        name is Some == rom_type_spec(code) is Some,
        name is Some ==> name.unwrap()@ == rom_type_spec(code).unwrap(),
        name is Some <==> code < 35,
{
    match code {
        0x00 => Some("ROM ONLY"),
        0x01 => Some("MBC1"),
        0x02 => Some("MBC1+RAM"),
        0x03 => Some("MBC1+RAM+BATTERY"),
        0x04 => Some("0x04 ???"),
        0x05 => Some("MBC2"),
        0x06 => Some("MBC2+BATTERY"),
        0x07 => Some("0x07 ???"),
        0x08 => Some("ROM+RAM 1"),
        0x09 => Some("ROM+RAM+BATTERY 1"),
        0x0A => Some("0x0A ???"),
        0x0B => Some("MMM01"),
        0x0C => Some("MMM01+RAM"),
        0x0D => Some("MMM01+RAM+BATTERY"),
        0x0E => Some("0x0E ???"),
        0x0F => Some("MBC3+TIMER+BATTERY"),
        0x10 => Some("MBC3+TIMER+RAM+BATTERY 2"),
        0x11 => Some("MBC3"),
        0x12 => Some("MBC3+RAM 2"),
        0x13 => Some("MBC3+RAM+BATTERY 2"),
        0x14 => Some("0x14 ???"),
        0x15 => Some("0x15 ???"),
        0x16 => Some("0x16 ???"),
        0x17 => Some("0x17 ???"),
        0x18 => Some("0x18 ???"),
        0x19 => Some("MBC5"),
        0x1A => Some("MBC5+RAM"),
        0x1B => Some("MBC5+RAM+BATTERY"),
        0x1C => Some("MBC5+RUMBLE"),
        0x1D => Some("MBC5+RUMBLE+RAM"),
        0x1E => Some("MBC5+RUMBLE+RAM+BATTERY"),
        0x1F => Some("0x1F ???"),
        0x20 => Some("MBC6"),
        0x21 => Some("0x21 ???"),
        0x22 => Some("MBC7+SENSOR+RUMBLE+RAM+BATTERY"),
        _ => None,
    }
}

/// Copies `N` bytes of `rom` starting at `start`.
fn bytes_at<const N: usize>(rom: &Vec<u8>, start: usize) -> (r: [u8; N])
    requires
        start + N <= rom.len(),
    ensures
        forall|i: int| 0 <= i < N ==> r[i] == rom[start + i],
{
    let mut r: [u8; N] = [0; N];
    let mut i: usize = 0;
    while i < N
        invariant
            i <= N,
            start + N <= rom.len(),
            forall|j: int| 0 <= j < i ==> r[j] == rom[start + j],
        decreases N - i,
    {
        r[i] = rom[start + i];
        i += 1;
    }
    r
}

/// Tells whether the header of `rom` passes the checksum test.
pub fn checksum_valid(rom: &Vec<u8>) -> (r: bool)
    requires
        rom.len() >= HEADER_END,
    ensures
        r == checksum_passes(rom@),
{
    let mut sum: u32 = 0;
    let mut i: usize = 0x134;
    while i < 0x14D
        invariant
            0x134 <= i <= 0x14D,
            rom.len() >= HEADER_END,
            sum == header_sum(rom@, 0x134, i as int),
            sum <= 256 * (i - 0x134),
        decreases 0x14D - i,
    {
        sum = sum + rom[i] as u32 + 1;
        i += 1;
    }
    sum % 256 != 0
}

impl ROMHeader {
    pub fn from(rom_data: &Vec<u8>) -> (h: ROMHeader)
        requires
            rom_data.len() >= HEADER_END,
        ensures
            is_header_of(h, rom_data@),
    {
        ROMHeader {
            entry: bytes_at::<4>(rom_data, 0x100),
            logo: bytes_at::<0x30>(rom_data, 0x104),
            title: bytes_at::<16>(rom_data, 0x134),
            new_lic_code: word(rom_data[0x144], rom_data[0x145]),
            sgb_flag: rom_data[0x146],
            type_: rom_data[0x147],
            rom_size: rom_data[0x148],
            ram_size: rom_data[0x149],
            dest_code: rom_data[0x14A],
            lic_code: rom_data[0x14B],
            version: rom_data[0x14C],
            checksum: rom_data[0x14D],
            global_checksum: word(rom_data[0x14E], rom_data[0x14F]),
        }
    }
}

impl View for CartContext {
    type V = CartView;

    open spec fn view(&self) -> CartView {
        CartView { rom_size: self.rom_size, rom_data: self.rom_data@, header: self.header }
    }
}

impl CartView {
    /// The cartridge answers at every address the bus maps to it.
    pub open spec fn wf(self) -> bool {
        self.rom_data.len() >= IMAGE_MIN
    }

    pub open spec fn read_spec(self, address: u16) -> u8 {
        self.rom_data[address as int]
    }

    /// This cartridge with `value` stored at `address` of its image.
    pub open spec fn write_spec(self, address: u16, value: u8) -> CartView {
        CartView { rom_data: self.rom_data.update(address as int, value), ..self }
    }
}

impl CartContext {
    pub open spec fn wf(&self) -> bool {
        self@.wf()
    }

    /// Accepts `rom_data` as a cartridge image. The image must hold a header,
    /// and the header must pass the checksum test. An image that ends before
    /// `$C000` is filled up with zeros to there, so that the cartridge answers
    /// at every address the bus maps to it: what the image does not cover
    /// reads as zero until it is written. `rom_size` is the length the image
    /// came with.
    pub fn new(rom_data: Vec<u8>) -> (r: Result<CartContext, LoadError>)
        ensures
            match r {
                Ok(cart) => {
                    &&& rom_data.len() >= HEADER_END
                    &&& checksum_passes(rom_data@)
                    &&& cart.wf()
                    &&& cart.rom_data@ == padded(rom_data@)
                    &&& cart.rom_size as int == rom_data.len() as int % 0x1_0000_0000int
                    &&& is_header_of(cart.header, rom_data@)
                },
                Err(LoadError::ShortRead) => rom_data.len() < HEADER_END,
                Err(LoadError::BadHeader) => rom_data.len() >= HEADER_END && !checksum_passes(
                    rom_data@,
                ),
            },
    {
        if rom_data.len() < HEADER_END {
            return Err(LoadError::ShortRead);
        }
        if !checksum_valid(&rom_data) {
            return Err(LoadError::BadHeader);
        }
        let header = ROMHeader::from(&rom_data);
        let rom_size: u32 = (rom_data.len() as u64 % 0x1_0000_0000) as u32;
        let ghost image = rom_data@;
        let mut rom_data = rom_data;
        while rom_data.len() < IMAGE_MIN
            invariant
                image.len() <= rom_data.len(),
                rom_data.len() <= IMAGE_MIN || rom_data@ == image,
                rom_data@.subrange(0, image.len() as int) == image,
                forall|i: int| image.len() <= i < rom_data.len() ==> rom_data[i] == 0,
            decreases IMAGE_MIN - rom_data.len(),
        {
            rom_data.push(0);
            assert(rom_data@.subrange(0, image.len() as int) =~= image);
        }
        assert(rom_data@ =~= padded(image));
        Ok(CartContext { rom_size, rom_data, header })
    }

    pub fn read(&self, address: u16) -> (r: u8)
        requires
            address < self.rom_data.len(),
        ensures
            r == self@.read_spec(address),
    {
        self.rom_data[address as usize]
    }

    pub fn write(&mut self, address: u16, value: u8)
        requires
            address < old(self).rom_data.len(),
        ensures
            final(self)@ == old(self)@.write_spec(address, value),
    {
        self.rom_data[address as usize] = value;
    }
}

} // verus!
