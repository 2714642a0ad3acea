//! The picture unit's memories and pipeline state.
use vstd::prelude::*;
use std::collections::VecDeque;
use crate::comps::cart::CartContext;
use crate::comps::cpu::CPUContext;
use crate::comps::lcd::LCDContext;

verus! {

pub const LINES_PER_FRAME: u8 = 154;

pub const TICKS_PER_LINE: u32 = 456;

pub const Y_RES: u8 = 144;

pub const X_RES: u8 = 160;

/// The number of pixels in a frame.
pub const FRAME_SIZE: usize = 23040;

/// The most pixels the queue ever holds.
pub const FIFO_LIMIT: usize = 16;

/// One object's attributes.
#[derive(Clone, Copy, PartialEq, Eq, Structural, Debug)]
pub struct OAMEntry {
    pub y: u8,
    pub x: u8,
    pub tile: u8,
    pub flag: u8,
}

/// The step the background fetcher takes next.
#[derive(Clone, Copy, PartialEq, Eq, Structural, Debug)]
pub enum FetchState {
    TILE,
    DATA0,
    DATA1,
    SLEEP,
    PUSH,
}

/// The fetcher and the pixel queue it feeds.
#[derive(Debug)]
pub struct PixelFIFOContext {
    pub cur_fetch_state: FetchState,
    pub pixel_fifo: VecDeque<u32>,
    pub line_x: u8,
    pub pushed_x: u8,
    pub fetch_x: u8,
    pub bgw_fetch_data: [u8; 3],
    pub fetch_entry_data: [u8; 6],
    pub map_y: u8,
    pub map_x: u8,
    pub tile_y: u8,
    pub fifo_x: u8,
}

/// The model of the fetcher: the queue is the sequence of colours waiting
/// in it, oldest first.
pub struct PixelFIFOView {
    pub cur_fetch_state: FetchState,
    pub pixel_fifo: Seq<u32>,
    pub line_x: u8,
    pub pushed_x: u8,
    pub fetch_x: u8,
    pub bgw_fetch_data: [u8; 3],
    pub fetch_entry_data: [u8; 6],
    pub map_y: u8,
    pub map_x: u8,
    pub tile_y: u8,
    pub fifo_x: u8,
}

/// The picture unit: object attributes, video RAM, pipeline, and the frame
/// it draws.
#[derive(Debug)]
pub struct PPUContext {
    pub oam_ram: [OAMEntry; 40],
    pub vram: [u8; 0x2000],
    pub pfc: PixelFIFOContext,
    pub current_frame: u32,
    pub line_ticks: u32,
    pub frame_buffer: [u32; 23040],
}

/// The model of the picture unit.
pub struct PPUView {
    pub oam_ram: [OAMEntry; 40],
    pub vram: [u8; 0x2000],
    pub pfc: PixelFIFOView,
    pub current_frame: u32,
    pub line_ticks: u32,
    pub frame_buffer: [u32; 23040],
}

/// What one dot of the picture unit reads and changes: the unit itself, the
/// display registers, and the CPU whose interrupt flags it raises.
pub struct VideoState {
    pub ppu: PPUView,
    pub lcd: LCDContext,
    pub cpu: CPUContext,
}

impl View for PixelFIFOContext {
    type V = PixelFIFOView;

    open spec fn view(&self) -> PixelFIFOView {
        PixelFIFOView {
            cur_fetch_state: self.cur_fetch_state,
            pixel_fifo: self.pixel_fifo@,
            line_x: self.line_x,
            pushed_x: self.pushed_x,
            fetch_x: self.fetch_x,
            bgw_fetch_data: self.bgw_fetch_data,
            fetch_entry_data: self.fetch_entry_data,
            map_y: self.map_y,
            map_x: self.map_x,
            tile_y: self.tile_y,
            fifo_x: self.fifo_x,
        }
    }
}

impl View for PPUContext {
    type V = PPUView;

    open spec fn view(&self) -> PPUView {
        PPUView {
            oam_ram: self.oam_ram,
            vram: self.vram,
            pfc: self.pfc@,
            current_frame: self.current_frame,
            line_ticks: self.line_ticks,
            frame_buffer: self.frame_buffer,
        }
    }
}

/// The offset into the object attribute memory that `address` names: the
/// bus passes `$FE00`-`$FE9F`, the DMA engine `0`-`159`.
pub open spec fn oam_offset(address: u16) -> int {
    if address >= 0xFE00 {
        address - 0xFE00
    } else {
        address as int
    }
}

/// Whether `address` names a byte of the object attribute memory.
pub open spec fn oam_address(address: u16) -> bool {
    address < 0xA0 || (0xFE00 <= address < 0xFEA0)
}

impl OAMEntry {
    /// Byte `k` of the entry: y, x, tile, flag.
    pub open spec fn byte(self, k: int) -> u8 {
        if k == 0 {
            self.y
        } else if k == 1 {
            self.x
        } else if k == 2 {
            self.tile
        } else {
            self.flag
        }
    }

    /// The entry with byte `k` replaced.
    pub open spec fn with_byte(self, k: int, value: u8) -> OAMEntry {
        if k == 0 {
            OAMEntry { y: value, ..self }
        } else if k == 1 {
            OAMEntry { x: value, ..self }
        } else if k == 2 {
            OAMEntry { tile: value, ..self }
        } else {
            OAMEntry { flag: value, ..self }
        }
    }
}

impl PPUView {
    /// The queue never holds more than two tiles' worth of pixels.
    pub open spec fn wf(self) -> bool {
        self.pfc.pixel_fifo.len() <= FIFO_LIMIT
    }

    /// Whether the unit is as it is switched on: empty memories, an empty
    /// queue and a black frame, at the first dot of a line.
    pub open spec fn power_on(self) -> bool {
        &&& forall|i: int|
            0 <= i < 40 ==> self.oam_ram[i] == (OAMEntry { y: 0, x: 0, tile: 0, flag: 0 })
        &&& forall|i: int| 0 <= i < 0x2000 ==> self.vram[i] == 0
        &&& forall|i: int| 0 <= i < FRAME_SIZE ==> self.frame_buffer[i] == 0
        &&& self.current_frame == 0
        &&& self.line_ticks == 0
        &&& self.pfc.pixel_fifo.len() == 0
        &&& self.pfc.cur_fetch_state == FetchState::TILE
        &&& self.pfc.line_x == 0
        &&& self.pfc.pushed_x == 0
        &&& self.pfc.fetch_x == 0
        &&& self.pfc.fifo_x == 0
        &&& self.pfc.map_x == 0
        &&& self.pfc.map_y == 0
        &&& self.pfc.tile_y == 0
        &&& forall|i: int| 0 <= i < 3 ==> self.pfc.bgw_fetch_data[i] == 0
        &&& forall|i: int| 0 <= i < 6 ==> self.pfc.fetch_entry_data[i] == 0
    }

    pub open spec fn oam_read_spec(self, address: u16) -> u8 {
        let offset = oam_offset(address);
        self.oam_ram[offset / 4].byte(offset % 4)
    }

    /// This unit with `value` stored in the object attribute byte `address`.
    pub open spec fn oam_write_spec(self, address: u16, value: u8) -> PPUView {
        let offset = oam_offset(address);
        PPUView {
            oam_ram: vstd::array::spec_array_update(
                self.oam_ram,
                offset / 4,
                self.oam_ram[offset / 4].with_byte(offset % 4, value),
            ),
            ..self
        }
    }

    pub open spec fn vram_read_spec(self, address: u16) -> u8 {
        self.vram[address - 0x8000]
    }

    /// This unit with `value` stored at video RAM address `address`.
    pub open spec fn vram_write_spec(self, address: u16, value: u8) -> PPUView {
        PPUView { vram: vstd::array::spec_array_update(self.vram, address - 0x8000, value), ..self }
    }
}

/// The state that one dot of `ppu` works on.
pub open spec fn video(ppu: &PPUContext, lcd: &LCDContext, cpu: &CPUContext) -> VideoState {
    VideoState { ppu: ppu@, lcd: *lcd, cpu: *cpu }
}

impl PPUContext {
    pub open spec fn wf(&self) -> bool {
        self@.wf()
    }

    /// A unit with empty memories, an empty queue and a black frame, at the
    /// first dot of a line.
    pub fn new() -> (ppu: PPUContext)
        ensures
            ppu@.power_on(),
            ppu.wf(),
    {
        PPUContext {
            oam_ram: [OAMEntry { y: 0, x: 0, tile: 0, flag: 0 };40],
            vram: [0; 0x2000],
            pfc: PixelFIFOContext {
                cur_fetch_state: FetchState::TILE,
                pixel_fifo: VecDeque::new(),
                line_x: 0,
                pushed_x: 0,
                fetch_x: 0,
                bgw_fetch_data: [0, 0, 0],
                fetch_entry_data: [0, 0, 0, 0, 0, 0],
                map_y: 0,
                map_x: 0,
                tile_y: 0,
                fifo_x: 0,
            },
            current_frame: 0,
            line_ticks: 0,
            frame_buffer: [0; 23040],
        }
    }

    /// Fills the object attribute memory and the video RAM from a cartridge
    /// image that holds a dump of the whole address space.
    pub fn init(&mut self, cart: &CartContext)
        requires
            cart.rom_data.len() >= 0xFEA0,
        ensures
            forall|i: int|
                0 <= i < 40 ==> final(self).oam_ram[i] == (OAMEntry {
                    y: cart.rom_data[0xFE00 + 4 * i],
                    x: cart.rom_data[0xFE00 + 4 * i + 1],
                    tile: cart.rom_data[0xFE00 + 4 * i + 2],
                    flag: cart.rom_data[0xFE00 + 4 * i + 3],
                }),
            forall|i: int| 0 <= i < 0x2000 ==> final(self).vram[i] == cart.rom_data[0x8000 + i],
            final(self)@ == (PPUView {
                oam_ram: final(self).oam_ram,
                vram: final(self).vram,
                ..old(self)@
            }),
    {
        let oam_start: usize = 0xFE00;
        let mut entry: usize = 0;
        while entry < 40
            invariant
                entry <= 40,
                oam_start == 0xFE00,
                cart.rom_data.len() >= 0xFEA0,
                forall|i: int|
                    0 <= i < entry ==> self.oam_ram[i] == (OAMEntry {
                        y: cart.rom_data[0xFE00 + 4 * i],
                        x: cart.rom_data[0xFE00 + 4 * i + 1],
                        tile: cart.rom_data[0xFE00 + 4 * i + 2],
                        flag: cart.rom_data[0xFE00 + 4 * i + 3],
                    }),
                self@ == (PPUView { oam_ram: self.oam_ram, ..old(self)@ }),
            decreases 40 - entry,
        {
            let index: usize = oam_start + 4 * entry;
            self.oam_ram[entry] = OAMEntry {
                y: cart.rom_data[index],
                x: cart.rom_data[index + 1],
                tile: cart.rom_data[index + 2],
                flag: cart.rom_data[index + 3],
            };
            entry += 1;
        }
        let mut i: usize = 0;
        while i < 0x2000
            invariant
                i <= 0x2000,
                cart.rom_data.len() >= 0xFEA0,
                forall|j: int| 0 <= j < i ==> self.vram[j] == cart.rom_data[0x8000 + j],
                forall|k: int|
                    0 <= k < 40 ==> self.oam_ram[k] == (OAMEntry {
                        y: cart.rom_data[0xFE00 + 4 * k],
                        x: cart.rom_data[0xFE00 + 4 * k + 1],
                        tile: cart.rom_data[0xFE00 + 4 * k + 2],
                        flag: cart.rom_data[0xFE00 + 4 * k + 3],
                    }),
                self@ == (PPUView { oam_ram: self.oam_ram, vram: self.vram, ..old(self)@ }),
            decreases 0x2000 - i,
        {
            self.vram[i] = cart.rom_data[0x8000 + i];
            i += 1;
        }
    }

    pub fn oam_write(&mut self, address: u16, value: u8)
        requires
            oam_address(address),
        ensures
            final(self)@ == old(self)@.oam_write_spec(address, value),
    {
        let mut address: u16 = address;
        if 0xFE00 <= address {
            address -= 0xFE00;
        }
        let entry: u16 = address % 4;
        let oam_index: usize = (address / 4) as usize;
        if entry == 0 {
            self.oam_ram[oam_index].y = value;
        } else if entry == 1 {
            self.oam_ram[oam_index].x = value;
        } else if entry == 2 {
            self.oam_ram[oam_index].tile = value;
        } else {
            self.oam_ram[oam_index].flag = value;
        }
    }

    pub fn oam_read(&self, address: u16) -> (r: u8)
        requires
            oam_address(address),
        ensures
            r == self@.oam_read_spec(address),
    {
        let mut address: u16 = address;
        if 0xFE00 <= address {
            address -= 0xFE00;
        }
        let entry: u16 = address % 4;
        let oam_index: usize = (address / 4) as usize;
        if entry == 0 {
            self.oam_ram[oam_index].y
        } else if entry == 1 {
            self.oam_ram[oam_index].x
        } else if entry == 2 {
            self.oam_ram[oam_index].tile
        } else {
            self.oam_ram[oam_index].flag
        }
    }

    pub fn vram_write(&mut self, address: u16, value: u8)
        requires
            0x8000 <= address < 0xA000,
        ensures
            final(self)@ == old(self)@.vram_write_spec(address, value),
    {
        self.vram[(address - 0x8000) as usize] = value;
    }

    pub fn vram_read(&self, address: u16) -> (r: u8)
        requires
            0x8000 <= address < 0xA000,
        ensures
            r == self@.vram_read_spec(address),
    {
        self.vram[(address - 0x8000) as usize]
    }
}

} // verus!
