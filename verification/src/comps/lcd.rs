//! The memory-mapped display registers and the decoded palettes.
use vstd::prelude::*;
use crate::comps::common::{bit, bit_set, bit_set_spec, bit_spec, color, color_spec};
use crate::comps::dma::DMAContext;

verus! {

/// The four phases of a scanline, numbered as the status register's low two
/// bits number them.
#[derive(Clone, Copy, PartialEq, Eq, Structural, Debug)]
pub enum LCDMode {
    HBlank,
    VBlank,
    OAM,
    XFER,
}

/// A condition that can raise the status interrupt.
#[derive(Clone, Copy, PartialEq, Eq, Structural, Debug)]
pub enum StatusSource {
    HBlank,
    VBlank,
    OAM,
    LYC,
}

impl LCDMode {
    /// The mode that the two bits `value` stand for.
    pub open spec fn from_spec(value: u8) -> LCDMode {
        if value == 0 {
            LCDMode::HBlank
        } else if value == 1 {
            LCDMode::VBlank
        } else if value == 2 {
            LCDMode::OAM
        } else {
            LCDMode::XFER
        }
    }

    /// The two bits that stand for this mode.
    pub open spec fn bits_spec(self) -> u8 {
        match self {
            LCDMode::HBlank => 0,
            LCDMode::VBlank => 1,
            LCDMode::OAM => 2,
            LCDMode::XFER => 3,
        }
    }

    pub fn from(value: u8) -> (mode: LCDMode)
        requires
            value <= 3,
        ensures
            mode == LCDMode::from_spec(value),
            mode.bits_spec() == value,
    {
        if value == 0 {
            LCDMode::HBlank
        } else if value == 1 {
            LCDMode::VBlank
        } else if value == 2 {
            LCDMode::OAM
        } else {
            LCDMode::XFER
        }
    }

    #[verifier::when_used_as_spec(bits_spec)]
    pub fn bits(self) -> (r: u8)
        ensures
            r == self.bits_spec(),
            r <= 3,
    {
        match self {
            LCDMode::HBlank => 0,
            LCDMode::VBlank => 1,
            LCDMode::OAM => 2,
            LCDMode::XFER => 3,
        }
    }
}

impl StatusSource {
    /// The status-register bit that enables this source.
    pub open spec fn index_spec(self) -> u8 {
        match self {
            StatusSource::HBlank => 3,
            StatusSource::VBlank => 4,
            StatusSource::OAM => 5,
            StatusSource::LYC => 6,
        }
    }

    #[verifier::when_used_as_spec(index_spec)]
    pub fn index(self) -> (r: u8)
        ensures
            r == self.index_spec(),
            3 <= r <= 6,
    {
        match self {
            StatusSource::HBlank => 3,
            StatusSource::VBlank => 4,
            StatusSource::OAM => 5,
            StatusSource::LYC => 6,
        }
    }
}

/// The twelve registers at `$FF40`-`$FF4B` and the three palettes decoded
/// from `bg_palette`, `obj1_palette` and `obj2_palette`.
#[derive(Clone, Copy, Debug)]
pub struct LCDContext {
    pub control: u8,
    pub status: u8,
    pub scroll_y: u8,
    pub scroll_x: u8,
    pub line_y: u8,
    pub line_y_compare: u8,
    pub dma: u8,
    pub bg_palette: u8,
    pub obj1_palette: u8,
    pub obj2_palette: u8,
    pub window_y: u8,
    pub window_x: u8,
    pub bg_colors: [u32; 4],
    pub sprite1_colors: [u32; 4],
    pub sprite2_colors: [u32; 4],
}

/// The four shades that palette byte `data` selects: entry `i` is the shade
/// named by bits `2i+1..2i` of `data`.
pub open spec fn palette_spec(data: u8) -> [u32; 4] {
    [
        color_spec(data % 4),
        color_spec((data / 4) % 4),
        color_spec((data / 16) % 4),
        color_spec(data / 64),
    ]
}

/// The shades of an object palette: as `palette_spec`, but entry 0 is the
/// transparent shade whatever `data` says.
pub open spec fn object_palette_spec(data: u8) -> [u32; 4] {
    [color_spec(0), color_spec((data / 4) % 4), color_spec((data / 16) % 4), color_spec(data / 64)]
}

/// Byte `lane` of a colour word, lane 0 being the most significant.
pub open spec fn lane_spec(c: u32, lane: u16) -> u8 {
    if lane == 0 {
        (c >> 24) as u8
    } else if lane == 1 {
        (c >> 16) as u8
    } else if lane == 2 {
        (c >> 8) as u8
    } else {
        c as u8
    }
}

/// The colour word `c` with byte `lane` replaced by `value`.
pub open spec fn with_lane_spec(c: u32, lane: u16, value: u8) -> u32 {
    if lane == 0 {
        (c & !(0xFFu32 << 24)) | ((value as u32) << 24)
    } else if lane == 1 {
        (c & !(0xFFu32 << 16)) | ((value as u32) << 16)
    } else if lane == 2 {
        (c & !(0xFFu32 << 8)) | ((value as u32) << 8)
    } else {
        (c & !0xFFu32) | (value as u32)
    }
}

pub fn lane(c: u32, index: u16) -> (r: u8)
    ensures
        r == lane_spec(c, index),
{
    if index == 0 {
        (c >> 24) as u8
    } else if index == 1 {
        (c >> 16) as u8
    } else if index == 2 {
        (c >> 8) as u8
    } else {
        c as u8
    }
}

pub fn with_lane(c: u32, index: u16, value: u8) -> (r: u32)
    ensures
        r == with_lane_spec(c, index, value),
{
    if index == 0 {
        (c & !(0xFFu32 << 24)) | ((value as u32) << 24)
    } else if index == 1 {
        (c & !(0xFFu32 << 16)) | ((value as u32) << 16)
    } else if index == 2 {
        (c & !(0xFFu32 << 8)) | ((value as u32) << 8)
    } else {
        (c & !0xFFu32) | (value as u32)
    }
}

impl LCDContext {
    /// The registers as the boot sequence leaves them: display on, in the
    /// object-scan phase of line 0, every palette in the natural order of
    /// the four shades.
    pub open spec fn power_on() -> LCDContext {
        LCDContext {
            control: 0x91,
            status: 0x02,
            scroll_y: 0,
            scroll_x: 0,
            line_y: 0,
            line_y_compare: 0,
            dma: 0,
            bg_palette: 0xFC,
            obj1_palette: 0xFF,
            obj2_palette: 0xFF,
            window_y: 0,
            window_x: 0,
            bg_colors: palette_spec(0xE4),
            sprite1_colors: palette_spec(0xE4),
            sprite2_colors: palette_spec(0xE4),
        }
    }

    pub fn new() -> (lcd: LCDContext)
        ensures
            lcd == LCDContext::power_on(),
    {
        let lcd = LCDContext {
            control: 0x91,
            status: 0b10,
            scroll_y: 0,
            scroll_x: 0,
            line_y: 0,
            line_y_compare: 0,
            dma: 0,
            bg_palette: 0xFC,
            obj1_palette: 0xFF,
            obj2_palette: 0xFF,
            window_y: 0,
            window_x: 0,
            bg_colors: [color(0), color(1), color(2), color(3)],
            sprite1_colors: [color(0), color(1), color(2), color(3)],
            sprite2_colors: [color(0), color(1), color(2), color(3)],
        };
        proof {
            lemma_low_two_bits();
            assert(lcd.bg_colors =~= palette_spec(0xE4));
            assert(lcd.sprite1_colors =~= palette_spec(0xE4));
            assert(lcd.sprite2_colors =~= palette_spec(0xE4));
        }
        lcd
    }

    /// The palette a colour-byte address falls in: 0 background, 1 and 2 the
    /// two object palettes.
    pub open spec fn table_spec(self, table: u16) -> [u32; 4] {
        if table == 0 {
            self.bg_colors
        } else if table == 1 {
            self.sprite1_colors
        } else {
            self.sprite2_colors
        }
    }

    /// What a read of `address` returns: a register for `$FF40`-`$FF4B`, one
    /// byte of a decoded colour above that.
    pub open spec fn read_spec(self, address: u16) -> u8 {
        if address == 0xFF40 {
            self.control
        } else if address == 0xFF41 {
            self.status
        } else if address == 0xFF42 {
            self.scroll_y
        } else if address == 0xFF43 {
            self.scroll_x
        } else if address == 0xFF44 {
            self.line_y
        } else if address == 0xFF45 {
            self.line_y_compare
        } else if address == 0xFF46 {
            self.dma
        } else if address == 0xFF47 {
            self.bg_palette
        } else if address == 0xFF48 {
            self.obj1_palette
        } else if address == 0xFF49 {
            self.obj2_palette
        } else if address == 0xFF4A {
            self.window_y
        } else if address == 0xFF4B {
            self.window_x
        } else {
            let k = (address - 0xFF4C) as u16;
            lane_spec(self.table_spec(k / 16)[((k % 16) / 4) as int], k % 4)
        }
    }

    /// The registers after a write of `value` to `address`. A palette
    /// register also redecodes its palette.
    pub open spec fn write_spec(self, address: u16, value: u8) -> LCDContext {
        if address == 0xFF40 {
            LCDContext { control: value, ..self }
        } else if address == 0xFF41 {
            LCDContext { status: value, ..self }
        } else if address == 0xFF42 {
            LCDContext { scroll_y: value, ..self }
        } else if address == 0xFF43 {
            LCDContext { scroll_x: value, ..self }
        } else if address == 0xFF44 {
            LCDContext { line_y: value, ..self }
        } else if address == 0xFF45 {
            LCDContext { line_y_compare: value, ..self }
        } else if address == 0xFF46 {
            LCDContext { dma: value, ..self }
        } else if address == 0xFF47 {
            LCDContext { bg_palette: value, bg_colors: palette_spec(value), ..self }
        } else if address == 0xFF48 {
            LCDContext { obj1_palette: value, sprite1_colors: object_palette_spec(value), ..self }
        } else if address == 0xFF49 {
            LCDContext { obj2_palette: value, sprite2_colors: object_palette_spec(value), ..self }
        } else if address == 0xFF4A {
            LCDContext { window_y: value, ..self }
        } else if address == 0xFF4B {
            LCDContext { window_x: value, ..self }
        } else {
            let k = (address - 0xFF4C) as u16;
            let entry = ((k % 16) / 4) as int;
            let old_colors = self.table_spec(k / 16);
            let colors = vstd::array::spec_array_update(
                old_colors,
                entry,
                with_lane_spec(old_colors[entry], k % 4, value),
            );
            if k / 16 == 0 {
                LCDContext { bg_colors: colors, ..self }
            } else if k / 16 == 1 {
                LCDContext { sprite1_colors: colors, ..self }
            } else {
                LCDContext { sprite2_colors: colors, ..self }
            }
        }
    }

    pub open spec fn status_mode_spec(&self) -> LCDMode {
        LCDMode::from_spec(self.status & 3)
    }

    /// These registers with the status register's mode bits set to `mode`.
    pub open spec fn with_mode(self, mode: LCDMode) -> LCDContext {
        LCDContext { status: (self.status & 0xFC) | mode.bits_spec(), ..self }
    }

    /// These registers with the status register's coincidence bit set to `b`.
    pub open spec fn with_line_y_compare(self, b: bool) -> LCDContext {
        LCDContext { status: bit_set_spec(self.status, 2, b), ..self }
    }

    pub open spec fn status_stat_int_spec(&self, source: StatusSource) -> bool {
        bit_spec(self.status, source.index_spec())
    }

    pub open spec fn control_bgw_enable_spec(&self) -> bool {
        bit_spec(self.control, 0)
    }

    pub open spec fn control_bg_map_area_spec(&self) -> u16 {
        if bit_spec(self.control, 3) {
            0x9C00
        } else {
            0x9800
        }
    }

    pub open spec fn control_bgw_data_area_spec(&self) -> u16 {
        if bit_spec(self.control, 4) {
            0x8000
        } else {
            0x8800
        }
    }

    pub fn read(&self, address: u16) -> (r: u8)
        requires
            0xFF40 <= address <= 0xFF7B,
        ensures
            r == self.read_spec(address),
    {
        if address == 0xFF40 {
            self.control
        } else if address == 0xFF41 {
            self.status
        } else if address == 0xFF42 {
            self.scroll_y
        } else if address == 0xFF43 {
            self.scroll_x
        } else if address == 0xFF44 {
            self.line_y
        } else if address == 0xFF45 {
            self.line_y_compare
        } else if address == 0xFF46 {
            self.dma
        } else if address == 0xFF47 {
            self.bg_palette
        } else if address == 0xFF48 {
            self.obj1_palette
        } else if address == 0xFF49 {
            self.obj2_palette
        } else if address == 0xFF4A {
            self.window_y
        } else if address == 0xFF4B {
            self.window_x
        } else {
            let k: u16 = address - 0xFF4C;
            let entry: usize = ((k % 16) / 4) as usize;
            let c: u32 = if k / 16 == 0 {
                self.bg_colors[entry]
            } else if k / 16 == 1 {
                self.sprite1_colors[entry]
            } else {
                self.sprite2_colors[entry]
            };
            lane(c, k % 4)
        }
    }

    /// Stores `value` at `address`. A write to `$FF46` also arms `dma` for a
    /// transfer from page `value`.
    pub fn write(&mut self, dma: &mut DMAContext, address: u16, value: u8)
        requires
            0xFF40 <= address <= 0xFF7B,
        ensures
            *final(self) == old(self).write_spec(address, value),
            *final(dma) == if address == 0xFF46 {
                DMAContext::started(value)
            } else {
                *old(dma)
            },
    {
        if address == 0xFF40 {
            self.control = value;
        } else if address == 0xFF41 {
            self.status = value;
        } else if address == 0xFF42 {
            self.scroll_y = value;
        } else if address == 0xFF43 {
            self.scroll_x = value;
        } else if address == 0xFF44 {
            self.line_y = value;
        } else if address == 0xFF45 {
            self.line_y_compare = value;
        } else if address == 0xFF46 {
            self.dma = value;
            dma.start(value);
        } else if address == 0xFF47 {
            self.bg_palette = value;
            self.update_palette(value, 0);
        } else if address == 0xFF48 {
            self.obj1_palette = value;
            self.update_palette(value - value % 4, 1);
            assert(self.sprite1_colors =~= object_palette_spec(value));
        } else if address == 0xFF49 {
            self.obj2_palette = value;
            self.update_palette(value - value % 4, 2);
            assert(self.sprite2_colors =~= object_palette_spec(value));
        } else if address == 0xFF4A {
            self.window_y = value;
        } else if address == 0xFF4B {
            self.window_x = value;
        } else {
            let k: u16 = address - 0xFF4C;
            let entry: usize = ((k % 16) / 4) as usize;
            if k / 16 == 0 {
                self.bg_colors[entry] = with_lane(self.bg_colors[entry], k % 4, value);
            } else if k / 16 == 1 {
                self.sprite1_colors[entry] = with_lane(self.sprite1_colors[entry], k % 4, value);
            } else {
                self.sprite2_colors[entry] = with_lane(self.sprite2_colors[entry], k % 4, value);
            }
        }
    }

    /// Decodes `palette_data` into palette `pal`: 0 background, 1 and 2 the
    /// two object palettes.
    pub fn update_palette(&mut self, palette_data: u8, pal: u8)
        requires
            pal <= 2,
        ensures
            *final(self) == if pal == 0 {
                LCDContext { bg_colors: palette_spec(palette_data), ..*old(self) }
            } else if pal == 1 {
                LCDContext { sprite1_colors: palette_spec(palette_data), ..*old(self) }
            } else {
                LCDContext { sprite2_colors: palette_spec(palette_data), ..*old(self) }
            },
    {
        proof {
            lemma_low_two_bits();
        }
        let colors: [u32; 4] = [
            color(palette_data % 4),
            color((palette_data / 4) % 4),
            color((palette_data / 16) % 4),
            color(palette_data / 64),
        ];
        assert(colors =~= palette_spec(palette_data));
        if pal == 0 {
            self.bg_colors = colors;
        } else if pal == 1 {
            self.sprite1_colors = colors;
        } else {
            self.sprite2_colors = colors;
        }
    }

    #[verifier::when_used_as_spec(control_bgw_enable_spec)]
    pub fn control_bgw_enable(&self) -> (r: bool)
        ensures
            r == self.control_bgw_enable_spec(),
    {
        bit(self.control, 0)
    }

    pub fn control_obj_enable(&self) -> (r: bool)
        ensures
            r == bit_spec(self.control, 1),
    {
        bit(self.control, 1)
    }

    pub fn control_obj_height(&self) -> (r: u8)
        ensures
            r == if bit_spec(self.control, 2) {
                16u8
            } else {
                8u8
            },
    {
        if bit(self.control, 2) {
            16
        } else {
            8
        }
    }

    #[verifier::when_used_as_spec(control_bg_map_area_spec)]
    pub fn control_bg_map_area(&self) -> (r: u16)
        ensures
            r == self.control_bg_map_area_spec(),
    {
        if bit(self.control, 3) {
            0x9C00
        } else {
            0x9800
        }
    }

    #[verifier::when_used_as_spec(control_bgw_data_area_spec)]
    pub fn control_bgw_data_area(&self) -> (r: u16)
        ensures
            r == self.control_bgw_data_area_spec(),
    {
        if bit(self.control, 4) {
            0x8000
        } else {
            0x8800
        }
    }

    pub fn control_win_enable(&self) -> (r: bool)
        ensures
            r == bit_spec(self.control, 5),
    {
        bit(self.control, 5)
    }

    pub fn control_win_map_area(&self) -> (r: u16)
        ensures
            r == if bit_spec(self.control, 6) {
                0x9C00u16
            } else {
                0x9800u16
            },
    {
        if bit(self.control, 6) {
            0x9C00
        } else {
            0x9800
        }
    }

    pub fn control_lcd_enable(&self) -> (r: bool)
        ensures
            r == bit_spec(self.control, 7),
    {
        bit(self.control, 7)
    }

    #[verifier::when_used_as_spec(status_mode_spec)]
    pub fn status_mode(&self) -> (mode: LCDMode)
        ensures
            mode == self.status_mode_spec(),
    {
        proof {
            lemma_mode_bits(self.status, 0);
        }
        LCDMode::from(self.status & 0b11)
    }

    pub fn status_mode_set(&mut self, mode: LCDMode)
        ensures
            *final(self) == old(self).with_mode(mode),
            final(self).status_mode_spec() == mode,
    {
        let bits: u8 = mode.bits();
        proof {
            lemma_mode_bits(self.status, bits);
        }
        self.status &= !0b11;
        self.status |= bits;
    }

    pub fn status_line_y_compare(&self) -> (r: bool)
        ensures
            r == bit_spec(self.status, 2),
    {
        bit(self.status, 2)
    }

    pub fn status_line_y_compare_set(&mut self, b: bool)
        ensures
            *final(self) == old(self).with_line_y_compare(b),
    {
        let mut status: u8 = self.status;
        bit_set(&mut status, 2, b);
        self.status = status;
    }

    #[verifier::when_used_as_spec(status_stat_int_spec)]
    pub fn status_stat_int(&self, source: StatusSource) -> (r: bool)
        ensures
            r == self.status_stat_int_spec(source),
    {
        bit(self.status, source.index())
    }
}

/// The low two bits of a byte are a number below four.
pub proof fn lemma_low_two_bits()
    ensures
        forall|x: u8| x < 4 ==> #[trigger] (x & 3) == x,
{
    assert forall|x: u8| x < 4 implies #[trigger] (x & 3) == x by {
        assert(x < 4 ==> x & 3 == x) by (bit_vector);
    }
}

/// How the mode bits sit in the status register: they are a number below
/// four, replacing them leaves the other bits alone, and forcing another
/// status bit leaves them alone.
pub proof fn lemma_mode_bits(status: u8, bits: u8)
    requires
        bits <= 3,
    ensures
        status & 3 <= 3,
        !0b11u8 == 0xFCu8,
        ((status & 0xFC) | bits) & 3 == bits,
        forall|k: u8| 2 <= k < 8 ==> (#[trigger] bit_spec((status & 0xFC) | bits, k)) == bit_spec(status, k),
        forall|k: u8, on: bool| 2 <= k < 8 ==> (#[trigger] bit_set_spec(status, k, on)) & 3 == status & 3,
{
    assert(status & 3 <= 3) by (bit_vector);
    assert(!0b11u8 == 0xFCu8) by (bit_vector);
    assert(((status & 0xFC) | bits) & 3 == bits) by (bit_vector)
        requires
            bits <= 3,
    ;
    assert forall|k: u8| 2 <= k < 8 implies (#[trigger] bit_spec((status & 0xFC) | bits, k))
        == bit_spec(status, k) by {
        assert((((status & 0xFC) | bits) & (1u8 << k) != 0) == (status & (1u8 << k) != 0))
            by (bit_vector)
            requires
                bits <= 3,
                2 <= k < 8,
        ;
    }
    assert forall|k: u8, on: bool| 2 <= k < 8 implies (#[trigger] bit_set_spec(status, k, on)) & 3
        == status & 3 by {
        assert((status | (1u8 << k)) & 3 == status & 3 && (status & !(1u8 << k)) & 3 == status
            & 3) by (bit_vector)
            requires
                2 <= k < 8,
        ;
    }
}

} // verus!
