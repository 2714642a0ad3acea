//! The background fetcher and the pixel queue, run once per dot of the
//! pixel-transfer phase.
use vstd::prelude::*;
use crate::comps::lcd::LCDContext;
use crate::comps::ppu::{FetchState, PPUContext, PPUView, PixelFIFOView, FRAME_SIZE};

verus! {

/// The colour index of pixel `i` of a tile row, pixel 0 being the leftmost:
/// bit `7 - i` of the high plane times two, plus bit `7 - i` of the low plane.
pub open spec fn pixel_index(lo: u8, hi: u8, i: u8) -> u8 {
    ((((hi >> ((7 - i) as u8)) & 1) * 2) + ((lo >> ((7 - i) as u8)) & 1)) as u8
}

/// The eight colours of a tile row, left to right.
pub open spec fn tile_row(lo: u8, hi: u8, colors: [u32; 4]) -> Seq<u32> {
    Seq::new(8, |i: int| colors[pixel_index(lo, hi, i as u8) as int])
}

/// The address of the tile number the fetcher reads next.
pub open spec fn tile_address(p: PPUView, lcd: LCDContext) -> u16 {
    (lcd.control_bg_map_area_spec() + p.pfc.map_x / 8 + (p.pfc.map_y / 8) * 32) as u16
}

/// The address of the low plane of the tile row the fetcher reads next; the
/// high plane is the byte after it.
pub open spec fn data_address(p: PPUView, lcd: LCDContext) -> u16 {
    (lcd.control_bgw_data_area_spec() + p.pfc.bgw_fetch_data[0] * 16 + p.pfc.tile_y) as u16
}

/// The tile number as the fetcher keeps it: with the `$8800` addressing the
/// signed number is moved up by 128.
pub open spec fn tile_number(p: PPUView, lcd: LCDContext) -> u8 {
    let t = p.vram_read_spec(tile_address(p, lcd));
    if lcd.control_bgw_data_area_spec() == 0x8800 {
        t.wrapping_add(128)
    } else {
        t
    }
}

/// Whether the queue has room for another tile row.
pub open spec fn fifo_accepts(p: PPUView) -> bool {
    p.pfc.pixel_fifo.len() <= 8
}

/// The unit after the fetched tile row is queued. A row that lies wholly
/// left of the screen is dropped.
pub open spec fn fifo_add_spec(p: PPUView, lcd: LCDContext) -> PPUView {
    if !fifo_accepts(p) || p.pfc.fetch_x + lcd.scroll_x % 8 < 8 {
        p
    } else {
        PPUView {
            pfc: PixelFIFOView {
                pixel_fifo: p.pfc.pixel_fifo + tile_row(
                    p.pfc.bgw_fetch_data[1],
                    p.pfc.bgw_fetch_data[2],
                    lcd.bg_colors,
                ),
                fifo_x: p.pfc.fifo_x.wrapping_add(8),
                ..p.pfc
            },
            ..p
        }
    }
}

/// The unit after one step of the fetcher.
pub open spec fn fetch_spec(p: PPUView, lcd: LCDContext) -> PPUView {
    match p.pfc.cur_fetch_state {
        FetchState::TILE => PPUView {
            pfc: PixelFIFOView {
                bgw_fetch_data: if lcd.control_bgw_enable_spec() {
                    vstd::array::spec_array_update(p.pfc.bgw_fetch_data, 0, tile_number(p, lcd))
                } else {
                    p.pfc.bgw_fetch_data
                },
                cur_fetch_state: FetchState::DATA0,
                fetch_x: p.pfc.fetch_x.wrapping_add(8),
                ..p.pfc
            },
            ..p
        },
        FetchState::DATA0 => PPUView {
            pfc: PixelFIFOView {
                bgw_fetch_data: vstd::array::spec_array_update(
                    p.pfc.bgw_fetch_data,
                    1,
                    p.vram_read_spec(data_address(p, lcd)),
                ),
                cur_fetch_state: FetchState::DATA1,
                ..p.pfc
            },
            ..p
        },
        FetchState::DATA1 => PPUView {
            pfc: PixelFIFOView {
                bgw_fetch_data: vstd::array::spec_array_update(
                    p.pfc.bgw_fetch_data,
                    2,
                    p.vram_read_spec((data_address(p, lcd) + 1) as u16),
                ),
                cur_fetch_state: FetchState::SLEEP,
                ..p.pfc
            },
            ..p
        },
        FetchState::SLEEP => PPUView {
            pfc: PixelFIFOView { cur_fetch_state: FetchState::PUSH, ..p.pfc },
            ..p
        },
        FetchState::PUSH => if fifo_accepts(p) {
            let q = fifo_add_spec(p, lcd);
            PPUView { pfc: PixelFIFOView { cur_fetch_state: FetchState::TILE, ..q.pfc }, ..q }
        } else {
            p
        },
    }
}

/// Whether the next pixel to leave the queue is drawn rather than scrolled
/// away.
pub open spec fn shows(p: PPUView, lcd: LCDContext) -> bool {
    lcd.scroll_x % 8 <= p.pfc.line_x
}

/// The unit after the queue has had its chance to emit a pixel: one leaves
/// when more than eight wait, and it is drawn at (`pushed_x`, `LY`) unless
/// it is scrolled away or would fall outside the frame.
pub open spec fn push_pixel_spec(p: PPUView, lcd: LCDContext) -> PPUView {
    if p.pfc.pixel_fifo.len() > 8 {
        let index = p.pfc.pushed_x + lcd.line_y * 160;
        PPUView {
            frame_buffer: if shows(p, lcd) && index < FRAME_SIZE {
                vstd::array::spec_array_update(p.frame_buffer, index, p.pfc.pixel_fifo[0])
            } else {
                p.frame_buffer
            },
            pfc: PixelFIFOView {
                pixel_fifo: p.pfc.pixel_fifo.subrange(1, p.pfc.pixel_fifo.len() as int),
                pushed_x: if shows(p, lcd) {
                    p.pfc.pushed_x.wrapping_add(1)
                } else {
                    p.pfc.pushed_x
                },
                line_x: p.pfc.line_x.wrapping_add(1),
                ..p.pfc
            },
            ..p
        }
    } else {
        p
    }
}

/// The unit with the fetcher's map coordinates brought up to date.
pub open spec fn locate_spec(p: PPUView, lcd: LCDContext) -> PPUView {
    PPUView {
        pfc: PixelFIFOView {
            map_y: lcd.line_y.wrapping_add(lcd.scroll_y),
            map_x: p.pfc.fetch_x.wrapping_add(lcd.scroll_x),
            tile_y: ((lcd.line_y.wrapping_add(lcd.scroll_y) % 8) * 2) as u8,
            ..p.pfc
        },
        ..p
    }
}

/// The unit after one dot of the pipeline: coordinates, then a fetcher step
/// on every other dot, then the queue.
pub open spec fn pipeline_process_spec(p: PPUView, lcd: LCDContext) -> PPUView {
    let located = locate_spec(p, lcd);
    let fetched = if located.line_ticks % 2 == 0 {
        fetch_spec(located, lcd)
    } else {
        located
    };
    push_pixel_spec(fetched, lcd)
}

/// The unit with its queue emptied.
pub open spec fn fifo_reset_spec(p: PPUView) -> PPUView {
    PPUView { pfc: PixelFIFOView { pixel_fifo: Seq::empty(), ..p.pfc }, ..p }
}

proof fn lemma_plane_bit(b: u8, n: u8)
    by (bit_vector)
    requires
        n < 8,
    ensures
        (b >> n) & 1 <= 1,
{
}

/// The colour index of pixel `i` of a tile row.
pub fn pixel(lo: u8, hi: u8, i: u8) -> (r: u8)
    requires
        i < 8,
    ensures
        r == pixel_index(lo, hi, i),
        r < 4,
{
    let bit: u8 = 7 - i;
    proof {
        lemma_plane_bit(lo, bit);
        lemma_plane_bit(hi, bit);
    }
    ((hi >> bit) & 1) * 2 + ((lo >> bit) & 1)
}

impl PPUContext {
    pub fn pipeline_process(&mut self, lcd: &LCDContext)
        requires
            old(self).wf(),
        ensures
            final(self)@ == pipeline_process_spec(old(self)@, *lcd),
            final(self).wf(),
    {
        self.pfc.map_y = lcd.line_y.wrapping_add(lcd.scroll_y);
        self.pfc.map_x = self.pfc.fetch_x.wrapping_add(lcd.scroll_x);
        self.pfc.tile_y = (lcd.line_y.wrapping_add(lcd.scroll_y) % 8) * 2;
        assert(self@ == locate_spec(old(self)@, *lcd));
        if self.line_ticks % 2 == 0 {
            self.pipeline_fetch(lcd);
        }
        self.pipeline_push_pixel(lcd);
    }

    pub fn pipeline_push_pixel(&mut self, lcd: &LCDContext)
        ensures
            final(self)@ == push_pixel_spec(old(self)@, *lcd),
            final(self)@.pfc.pixel_fifo.len() <= old(self)@.pfc.pixel_fifo.len(),
    {
        if 8 < self.pfc.pixel_fifo.len() {
            let pixel_data: u32 = self.pfc.pixel_fifo.pop_front().unwrap();
            if lcd.scroll_x % 8 <= self.pfc.line_x {
                let index: usize = self.pfc.pushed_x as usize + lcd.line_y as usize * 160;
                if index < FRAME_SIZE {
                    self.frame_buffer[index] = pixel_data;
                }
                self.pfc.pushed_x = self.pfc.pushed_x.wrapping_add(1);
            }
            self.pfc.line_x = self.pfc.line_x.wrapping_add(1);
        }
    }

    pub fn pipeline_fetch(&mut self, lcd: &LCDContext)
        requires
            old(self).wf(),
        ensures
            final(self)@ == fetch_spec(old(self)@, *lcd),
            final(self).wf(),
    {
        match self.pfc.cur_fetch_state {
            FetchState::TILE => {
                if lcd.control_bgw_enable() {
                    let address: u16 = lcd.control_bg_map_area() + self.pfc.map_x as u16 / 8
                        + self.pfc.map_y as u16 / 8 * 32;
                    let mut tile: u8 = self.vram_read(address);
                    if lcd.control_bgw_data_area() == 0x8800 {
                        tile = tile.wrapping_add(128);
                    }
                    self.pfc.bgw_fetch_data[0] = tile;
                }
                self.pfc.cur_fetch_state = FetchState::DATA0;
                self.pfc.fetch_x = self.pfc.fetch_x.wrapping_add(8);
            },
            FetchState::DATA0 => {
                let address: u16 = lcd.control_bgw_data_area() + self.pfc.bgw_fetch_data[0] as u16
                    * 16 + self.pfc.tile_y as u16;
                self.pfc.bgw_fetch_data[1] = self.vram_read(address);
                self.pfc.cur_fetch_state = FetchState::DATA1;
            },
            FetchState::DATA1 => {
                let address: u16 = lcd.control_bgw_data_area() + self.pfc.bgw_fetch_data[0] as u16
                    * 16 + self.pfc.tile_y as u16 + 1;
                self.pfc.bgw_fetch_data[2] = self.vram_read(address);
                self.pfc.cur_fetch_state = FetchState::SLEEP;
            },
            FetchState::SLEEP => {
                self.pfc.cur_fetch_state = FetchState::PUSH;
            },
            FetchState::PUSH => {
                if self.pipeline_fifo_add(lcd) {
                    self.pfc.cur_fetch_state = FetchState::TILE;
                }
            },
        }
    }

    /// Queues the fetched tile row if the queue has room, and says whether
    /// it had.
    pub fn pipeline_fifo_add(&mut self, lcd: &LCDContext) -> (added: bool)
        requires
            old(self).wf(),
        ensures
            added == fifo_accepts(old(self)@),
            final(self)@ == fifo_add_spec(old(self)@, *lcd),
            final(self).wf(),
    {
        if 8 < self.pfc.pixel_fifo.len() {
            return false;
        }
        let on_screen: bool = self.pfc.fetch_x as u16 + (lcd.scroll_x % 8) as u16 >= 8;
        let lo: u8 = self.pfc.bgw_fetch_data[1];
        let hi: u8 = self.pfc.bgw_fetch_data[2];
        let ghost before = self@;
        let ghost row = tile_row(lo, hi, lcd.bg_colors);
        let mut i: u8 = 0;
        while i < 8
            invariant
                i <= 8,
                before.pfc.pixel_fifo.len() <= 8,
                row == tile_row(lo, hi, lcd.bg_colors),
                self@ == (PPUView {
                    pfc: PixelFIFOView {
                        pixel_fifo: if on_screen {
                            before.pfc.pixel_fifo + row.subrange(0, i as int)
                        } else {
                            before.pfc.pixel_fifo
                        },
                        fifo_x: if on_screen {
                            before.pfc.fifo_x.wrapping_add(i)
                        } else {
                            before.pfc.fifo_x
                        },
                        ..before.pfc
                    },
                    ..before
                }),
            decreases 8 - i,
        {
            let color: u32 = lcd.bg_colors[pixel(lo, hi, i) as usize];
            if on_screen {
                self.pfc.pixel_fifo.push_back(color);
                self.pfc.fifo_x = self.pfc.fifo_x.wrapping_add(1);
                assert(row.subrange(0, i + 1) =~= row.subrange(0, i as int).push(color));
                assert(before.pfc.pixel_fifo + row.subrange(0, i + 1) =~= (before.pfc.pixel_fifo
                    + row.subrange(0, i as int)).push(color));
            }
            i += 1;
        }
        assert(row.subrange(0, 8) =~= row);
        true
    }

    pub fn pipeline_fifo_reset(&mut self)
        ensures
            final(self)@ == fifo_reset_spec(old(self)@),
            final(self).wf(),
    {
        self.pfc.pixel_fifo.clear();
    }
}

} // verus!
