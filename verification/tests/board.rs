use gbemu::comps::bus::{bus_read, bus_read16, bus_write, bus_write16};
use gbemu::comps::cart::{checksum_valid, lic_code, rom_type, CartContext, LoadError, ROMHeader};
use gbemu::comps::common::{between, bit, bit_set, color};
use gbemu::comps::cpu::CPUContext;
use gbemu::comps::dbg::{dbg_update, DebugContext};
use gbemu::comps::dma::DMAContext;
use gbemu::comps::emu::EmulatorContext;
use gbemu::comps::io::{io_read, io_write};
use gbemu::comps::lcd::{lane, with_lane, LCDContext, LCDMode, StatusSource};
use gbemu::comps::ppu::{FetchState, PPUContext};
use gbemu::comps::ppu_pipeline::pixel;
use gbemu::comps::ram::RAMContext;

fn machine() -> (CPUContext, EmulatorContext) {
    let cart = CartContext::new(vec![0u8; 0x10000]).unwrap();
    (CPUContext::new(), EmulatorContext::new(cart))
}

#[test]
fn bit_helpers() {
    assert!(bit(0x80, 7));
    assert!(!bit(0x7F, 7));
    assert!(bit(0x01, 0));
    let mut a = 0x00u8;
    bit_set(&mut a, 3, true);
    assert_eq!(a, 0x08);
    bit_set(&mut a, 7, true);
    assert_eq!(a, 0x88);
    bit_set(&mut a, 3, false);
    assert_eq!(a, 0x80);
    bit_set(&mut a, 3, false);
    assert_eq!(a, 0x80);
    assert!(between(5, 5, 9));
    assert!(between(9, 5, 9));
    assert!(!between(4, 5, 9));
    assert!(!between(10, 5, 9));
    assert_eq!(color(0), 0xFFFFFFFF);
    assert_eq!(color(1), 0xFFAAAAAA);
    assert_eq!(color(2), 0xFF555555);
    assert_eq!(color(3), 0xFF000000);
    assert_eq!(color(7), 0xFF000000);
}

#[test]
fn written_byte_reads_back_in_each_writable_region() {
    let (mut cpu, mut emu) = machine();
    for address in [
        0x8000u16, 0x9234, 0x9FFF, 0xC000, 0xCFFF, 0xDFFF, 0xFE00, 0xFE03, 0xFE9F, 0xFF80, 0xFFFE,
    ] {
        bus_write(&mut cpu, &mut emu, address, 0xA5);
        assert_eq!(bus_read(&cpu, &emu, address), 0xA5, "address {:04X}", address);
        bus_write(&mut cpu, &mut emu, address, 0x5A);
        assert_eq!(bus_read(&cpu, &emu, address), 0x5A, "address {:04X}", address);
    }
    bus_write(&mut cpu, &mut emu, 0xFFFF, 0x1F);
    assert_eq!(bus_read(&cpu, &emu, 0xFFFF), 0x1F);
    assert_eq!(cpu.get_ie_reg(), 0x1F);
    bus_write(&mut cpu, &mut emu, 0x0150, 0x33);
    assert_eq!(bus_read(&cpu, &emu, 0x0150), 0x33);
    bus_write(&mut cpu, &mut emu, 0xA000, 0x44);
    assert_eq!(bus_read(&cpu, &emu, 0xA000), 0x44);
}

#[test]
fn written_word_reads_back_low_byte_first() {
    let (mut cpu, mut emu) = machine();
    for address in [0x8000u16, 0xC000, 0xDFFE, 0xFE00, 0xFF80, 0xFFFD] {
        bus_write16(&mut cpu, &mut emu, address, 0xBEEF);
        assert_eq!(bus_read16(&cpu, &emu, address), 0xBEEF);
        assert_eq!(bus_read(&cpu, &emu, address), 0xEF);
        assert_eq!(bus_read(&cpu, &emu, address + 1), 0xBE);
    }
    // The word at $FFFF has its high byte at $0000.
    bus_write16(&mut cpu, &mut emu, 0xFFFF, 0x1234);
    assert_eq!(cpu.get_ie_reg(), 0x34);
    assert_eq!(bus_read(&cpu, &emu, 0x0000), 0x12);
    assert_eq!(bus_read16(&cpu, &emu, 0xFFFF), 0x1234);
}

#[test]
fn echo_and_unusable_regions_read_zero_and_swallow_writes() {
    let (mut cpu, mut emu) = machine();
    bus_write(&mut cpu, &mut emu, 0xC000, 0x77);
    for address in [0xE000u16, 0xF123, 0xFDFF, 0xFEA0, 0xFEFF] {
        bus_write(&mut cpu, &mut emu, address, 0x99);
        assert_eq!(bus_read(&cpu, &emu, address), 0);
    }
    assert_eq!(bus_read(&cpu, &emu, 0xC000), 0x77);
}

#[test]
fn unknown_io_register_reads_zero() {
    let (mut cpu, mut emu) = machine();
    for address in [0xFF00u16, 0xFF03, 0xFF10, 0xFF3F, 0xFF4C, 0xFF7F] {
        bus_write(&mut cpu, &mut emu, address, 0x99);
        assert_eq!(bus_read(&cpu, &emu, address), 0);
        io_write(&mut cpu, &mut emu, address, 0x99);
        assert_eq!(io_read(&cpu, &emu, address), 0);
    }
}

#[test]
fn io_page_reaches_serial_timer_flags_and_display() {
    let (mut cpu, mut emu) = machine();
    bus_write(&mut cpu, &mut emu, 0xFF01, 0x41);
    bus_write(&mut cpu, &mut emu, 0xFF02, 0x81);
    assert_eq!(emu.serial_data, [0x41, 0x81]);
    assert_eq!(bus_read(&cpu, &emu, 0xFF01), 0x41);
    assert_eq!(bus_read(&cpu, &emu, 0xFF02), 0x81);
    bus_write(&mut cpu, &mut emu, 0xFF06, 0x12);
    assert_eq!(emu.timer.tma, 0x12);
    assert_eq!(bus_read(&cpu, &emu, 0xFF06), 0x12);
    bus_write(&mut cpu, &mut emu, 0xFF04, 0x12);
    assert_eq!(emu.timer.div, 0);
    bus_write(&mut cpu, &mut emu, 0xFF0F, 0x15);
    assert_eq!(cpu.get_int_flags(), 0x15);
    assert_eq!(bus_read(&cpu, &emu, 0xFF0F), 0x15);
    bus_write(&mut cpu, &mut emu, 0xFF42, 0x08);
    bus_write(&mut cpu, &mut emu, 0xFF43, 0x10);
    assert_eq!((emu.lcd.scroll_y, emu.lcd.scroll_x), (0x08, 0x10));
    assert_eq!(bus_read(&cpu, &emu, 0xFF40), 0x91);
    assert_eq!(bus_read(&cpu, &emu, 0xFF41), 0x02);
    assert_eq!(bus_read(&cpu, &emu, 0xFF47), 0xFC);
}

#[test]
fn object_memory_is_hidden_during_dma() {
    let (mut cpu, mut emu) = machine();
    bus_write(&mut cpu, &mut emu, 0xFE10, 0x42);
    bus_write(&mut cpu, &mut emu, 0xFF46, 0x80);
    assert!(emu.dma.transferring());
    assert_eq!(emu.lcd.dma, 0x80);
    assert_eq!(emu.dma, DMAContext { active: true, byte: 0, value: 0x80, start_delay: 2 });
    assert_eq!(bus_read(&cpu, &emu, 0xFE10), 0xFF);
    bus_write(&mut cpu, &mut emu, 0xFE10, 0x24);
    assert_eq!(emu.ppu.oam_read(0xFE10), 0x42);
}

#[test]
fn dma_waits_two_cycles_then_copies_a_byte_per_cycle() {
    let (mut cpu, mut emu) = machine();
    for i in 0..160u16 {
        bus_write(&mut cpu, &mut emu, 0x8100 + i, i as u8 + 1);
    }
    let mut dma = DMAContext::new();
    assert!(!dma.transferring());
    dma.tick(0xEE, &mut emu.ppu);
    assert_eq!(dma, DMAContext::new());
    assert_eq!(emu.ppu.oam_read(0), 0);
    dma.start(0x81);
    assert_eq!(dma.source(), 0x8100);
    dma.tick(0xEE, &mut emu.ppu);
    dma.tick(0xEE, &mut emu.ppu);
    assert_eq!(dma.start_delay, 0);
    assert_eq!(emu.ppu.oam_read(0), 0);
    for i in 0..160u16 {
        assert!(dma.transferring());
        assert_eq!(dma.source(), 0x8100 + i);
        let data = bus_read(&cpu, &emu, dma.source());
        dma.tick(data, &mut emu.ppu);
        assert_eq!(emu.ppu.oam_read(i), i as u8 + 1);
    }
    assert!(!dma.transferring());
    assert_eq!(dma.byte, 160);
    assert_eq!(emu.ppu.oam_ram[1].y, 5);
    assert_eq!(emu.ppu.oam_ram[1].x, 6);
    assert_eq!(emu.ppu.oam_ram[1].tile, 7);
    assert_eq!(emu.ppu.oam_ram[1].flag, 8);
}

#[test]
fn ram_regions() {
    let mut ram = RAMContext::new();
    assert_eq!(ram.wram_read(0xC000), 0);
    ram.wram_write(0xC000, 1);
    ram.wram_write(0xDFFF, 2);
    ram.hram_write(0xFF80, 3);
    ram.hram_write(0xFFFE, 4);
    assert_eq!(ram.wram_read(0xC000), 1);
    assert_eq!(ram.wram_read(0xDFFF), 2);
    assert_eq!(ram.hram_read(0xFF80), 3);
    assert_eq!(ram.hram_read(0xFFFE), 4);
    assert_eq!(ram.wram[0], 1);
    assert_eq!(ram.wram[0x1FFF], 2);
    assert_eq!(ram.hram[0], 3);
    assert_eq!(ram.hram[0x7E], 4);
}

#[test]
fn object_memory_takes_both_address_forms() {
    let mut ppu = PPUContext::new();
    ppu.oam_write(0xFE00, 1);
    ppu.oam_write(0xFE01, 2);
    ppu.oam_write(2, 3);
    ppu.oam_write(3, 4);
    ppu.oam_write(0xFE9F, 9);
    assert_eq!(ppu.oam_ram[0].y, 1);
    assert_eq!(ppu.oam_ram[0].x, 2);
    assert_eq!(ppu.oam_ram[0].tile, 3);
    assert_eq!(ppu.oam_ram[0].flag, 4);
    assert_eq!(ppu.oam_ram[39].flag, 9);
    assert_eq!(ppu.oam_read(0), 1);
    assert_eq!(ppu.oam_read(0xFE03), 4);
    assert_eq!(ppu.oam_read(159), 9);
    ppu.vram_write(0x8000, 0x11);
    ppu.vram_write(0x9FFF, 0x22);
    assert_eq!(ppu.vram_read(0x8000), 0x11);
    assert_eq!(ppu.vram_read(0x9FFF), 0x22);
    assert_eq!(ppu.vram[0x1FFF], 0x22);
}

#[test]
fn picture_unit_loads_a_memory_dump() {
    let mut image = vec![0u8; 0x10000];
    for i in 0..0x2000usize {
        image[0x8000 + i] = (i % 251) as u8;
    }
    for i in 0..160usize {
        image[0xFE00 + i] = (i + 10) as u8;
    }
    let cart = CartContext::new(image).unwrap();
    let mut ppu = PPUContext::new();
    ppu.line_ticks = 7;
    ppu.init(&cart);
    assert_eq!(ppu.line_ticks, 7);
    for i in 0..0x2000usize {
        assert_eq!(ppu.vram[i], (i % 251) as u8);
    }
    for e in 0..40usize {
        assert_eq!(ppu.oam_ram[e].y, (4 * e + 10) as u8);
        assert_eq!(ppu.oam_ram[e].x, (4 * e + 11) as u8);
        assert_eq!(ppu.oam_ram[e].tile, (4 * e + 12) as u8);
        assert_eq!(ppu.oam_ram[e].flag, (4 * e + 13) as u8);
    }
}

#[test]
fn display_registers_power_on() {
    let lcd = LCDContext::new();
    assert_eq!(lcd.control, 0x91);
    assert_eq!(lcd.status_mode(), LCDMode::OAM);
    assert!(lcd.control_bgw_enable());
    assert!(!lcd.control_obj_enable());
    assert_eq!(lcd.control_obj_height(), 8);
    assert_eq!(lcd.control_bg_map_area(), 0x9800);
    assert_eq!(lcd.control_bgw_data_area(), 0x8000);
    assert!(!lcd.control_win_enable());
    assert_eq!(lcd.control_win_map_area(), 0x9800);
    assert!(lcd.control_lcd_enable());
    assert_eq!(lcd.bg_colors, [0xFFFFFFFF, 0xFFAAAAAA, 0xFF555555, 0xFF000000]);
    assert_eq!(lcd.sprite1_colors, [0xFFFFFFFF, 0xFFAAAAAA, 0xFF555555, 0xFF000000]);
    assert_eq!(lcd.sprite2_colors, [0xFFFFFFFF, 0xFFAAAAAA, 0xFF555555, 0xFF000000]);
}

#[test]
fn control_bits_select_areas() {
    let mut lcd = LCDContext::new();
    lcd.control = 0x6E;
    assert!(!lcd.control_bgw_enable());
    assert!(lcd.control_obj_enable());
    assert_eq!(lcd.control_obj_height(), 16);
    assert_eq!(lcd.control_bg_map_area(), 0x9C00);
    assert_eq!(lcd.control_bgw_data_area(), 0x8800);
    assert!(lcd.control_win_enable());
    assert_eq!(lcd.control_win_map_area(), 0x9C00);
    assert!(!lcd.control_lcd_enable());
}

#[test]
fn status_mode_and_sources() {
    let mut lcd = LCDContext::new();
    lcd.status = 0xFC;
    for (mode, bits) in [
        (LCDMode::HBlank, 0u8),
        (LCDMode::VBlank, 1),
        (LCDMode::OAM, 2),
        (LCDMode::XFER, 3),
    ] {
        lcd.status_mode_set(mode);
        assert_eq!(lcd.status, 0xFC | bits);
        assert_eq!(lcd.status_mode(), mode);
        assert_eq!(mode.bits(), bits);
        assert_eq!(LCDMode::from(bits), mode);
    }
    lcd.status = 0x00;
    lcd.status_line_y_compare_set(true);
    assert_eq!(lcd.status, 0x04);
    assert!(lcd.status_line_y_compare());
    lcd.status_line_y_compare_set(false);
    assert_eq!(lcd.status, 0x00);
    assert!(!lcd.status_line_y_compare());
    for (source, mask) in [
        (StatusSource::HBlank, 0x08u8),
        (StatusSource::VBlank, 0x10),
        (StatusSource::OAM, 0x20),
        (StatusSource::LYC, 0x40),
    ] {
        lcd.status = mask;
        assert!(lcd.status_stat_int(source));
        lcd.status = !mask;
        assert!(!lcd.status_stat_int(source));
    }
}

#[test]
fn palette_writes_decode_colours() {
    let mut lcd = LCDContext::new();
    let mut dma = DMAContext::new();
    lcd.write(&mut dma, 0xFF47, 0x1B);
    assert_eq!(lcd.bg_palette, 0x1B);
    assert_eq!(lcd.bg_colors, [0xFF000000, 0xFF555555, 0xFFAAAAAA, 0xFFFFFFFF]);
    lcd.write(&mut dma, 0xFF48, 0x1B);
    assert_eq!(lcd.obj1_palette, 0x1B);
    assert_eq!(lcd.sprite1_colors, [0xFFFFFFFF, 0xFF555555, 0xFFAAAAAA, 0xFFFFFFFF]);
    lcd.write(&mut dma, 0xFF49, 0xE7);
    assert_eq!(lcd.obj2_palette, 0xE7);
    assert_eq!(lcd.sprite2_colors, [0xFFFFFFFF, 0xFFAAAAAA, 0xFF555555, 0xFF000000]);
    assert_eq!(lcd.read(0xFF47), 0x1B);
    assert_eq!(lcd.read(0xFF48), 0x1B);
    assert_eq!(lcd.read(0xFF49), 0xE7);
    assert_eq!(dma, DMAContext::new());
    lcd.update_palette(0xE4, 0);
    assert_eq!(lcd.bg_colors, [0xFFFFFFFF, 0xFFAAAAAA, 0xFF555555, 0xFF000000]);
    assert_eq!(lcd.bg_palette, 0x1B);
}

#[test]
fn display_register_file() {
    let mut lcd = LCDContext::new();
    let mut dma = DMAContext::new();
    for (i, address) in (0xFF40u16..=0xFF4B).enumerate() {
        lcd.write(&mut dma, address, 0x10 + i as u8);
    }
    assert_eq!(lcd.control, 0x10);
    assert_eq!(lcd.status, 0x11);
    assert_eq!(lcd.scroll_y, 0x12);
    assert_eq!(lcd.scroll_x, 0x13);
    assert_eq!(lcd.line_y, 0x14);
    assert_eq!(lcd.line_y_compare, 0x15);
    assert_eq!(lcd.dma, 0x16);
    assert_eq!(lcd.window_y, 0x1A);
    assert_eq!(lcd.window_x, 0x1B);
    assert_eq!(dma, DMAContext { active: true, byte: 0, value: 0x16, start_delay: 2 });
    for (i, address) in (0xFF40u16..=0xFF4B).enumerate() {
        assert_eq!(lcd.read(address), 0x10 + i as u8);
    }
}

#[test]
fn colour_bytes_are_addressed_most_significant_first() {
    let mut lcd = LCDContext::new();
    let mut dma = DMAContext::new();
    lcd.bg_colors = [0x11223344, 0, 0, 0xA1B2C3D4];
    assert_eq!(lcd.read(0xFF4C), 0x11);
    assert_eq!(lcd.read(0xFF4D), 0x22);
    assert_eq!(lcd.read(0xFF4E), 0x33);
    assert_eq!(lcd.read(0xFF4F), 0x44);
    assert_eq!(lcd.read(0xFF58), 0xA1);
    assert_eq!(lcd.read(0xFF5B), 0xD4);
    lcd.write(&mut dma, 0xFF4D, 0xEE);
    assert_eq!(lcd.bg_colors[0], 0x11EE3344);
    lcd.write(&mut dma, 0xFF5C, 0x01);
    assert_eq!(lcd.sprite1_colors[0], 0x01FFFFFF);
    lcd.write(&mut dma, 0xFF6B, 0x02);
    assert_eq!(lcd.sprite1_colors[3], 0xFF000002);
    lcd.write(&mut dma, 0xFF6E, 0x03);
    assert_eq!(lcd.sprite2_colors[0], 0xFFFF03FF);
    lcd.write(&mut dma, 0xFF7B, 0x04);
    assert_eq!(lcd.sprite2_colors[3], 0xFF000004);
    assert_eq!(lcd.read(0xFF7B), 0x04);
    assert_eq!(lcd.read(0xFF6E), 0x03);
    assert_eq!(lane(0x11223344, 0), 0x11);
    assert_eq!(lane(0x11223344, 3), 0x44);
    assert_eq!(with_lane(0x11223344, 2, 0xFF), 0x1122FF44);
    assert_eq!(dma, DMAContext::new());
}

#[test]
fn pixel_index_takes_the_high_plane_as_bit_one() {
    assert_eq!(pixel(0x80, 0x00, 0), 1);
    assert_eq!(pixel(0x00, 0x80, 0), 2);
    assert_eq!(pixel(0x80, 0x80, 0), 3);
    assert_eq!(pixel(0x7F, 0x7F, 0), 0);
    assert_eq!(pixel(0x01, 0x00, 7), 1);
    assert_eq!(pixel(0x3C, 0x7E, 1), 2);
    assert_eq!(pixel(0x3C, 0x7E, 2), 3);
}

#[test]
fn fetcher_walks_its_five_steps() {
    let mut ppu = PPUContext::new();
    let mut lcd = LCDContext::new();
    lcd.control = 0x91;
    lcd.scroll_x = 0;
    // Tile 1 in the first map cell; its first row has planes $3C and $7E.
    ppu.vram_write(0x9800, 0x01);
    ppu.vram_write(0x8010, 0x3C);
    ppu.vram_write(0x8011, 0x7E);
    ppu.pipeline_fetch(&lcd);
    assert_eq!(ppu.pfc.cur_fetch_state, FetchState::DATA0);
    assert_eq!(ppu.pfc.bgw_fetch_data[0], 0x01);
    assert_eq!(ppu.pfc.fetch_x, 8);
    ppu.pipeline_fetch(&lcd);
    assert_eq!(ppu.pfc.cur_fetch_state, FetchState::DATA1);
    assert_eq!(ppu.pfc.bgw_fetch_data[1], 0x3C);
    ppu.pipeline_fetch(&lcd);
    assert_eq!(ppu.pfc.cur_fetch_state, FetchState::SLEEP);
    assert_eq!(ppu.pfc.bgw_fetch_data[2], 0x7E);
    ppu.pipeline_fetch(&lcd);
    assert_eq!(ppu.pfc.cur_fetch_state, FetchState::PUSH);
    ppu.pipeline_fetch(&lcd);
    assert_eq!(ppu.pfc.cur_fetch_state, FetchState::TILE);
    let row: Vec<u32> = ppu.pfc.pixel_fifo.iter().copied().collect();
    assert_eq!(
        row,
        vec![
            0xFFFFFFFF, 0xFF555555, 0xFF000000, 0xFF000000, 0xFF000000, 0xFF000000, 0xFF555555,
            0xFFFFFFFF
        ]
    );
    assert_eq!(ppu.pfc.fifo_x, 8);
    // A second row fits, a third does not.
    assert!(ppu.pipeline_fifo_add(&lcd));
    assert_eq!(ppu.pfc.pixel_fifo.len(), 16);
    assert!(!ppu.pipeline_fifo_add(&lcd));
    assert_eq!(ppu.pfc.pixel_fifo.len(), 16);
    ppu.pfc.cur_fetch_state = FetchState::PUSH;
    ppu.pipeline_fetch(&lcd);
    assert_eq!(ppu.pfc.cur_fetch_state, FetchState::PUSH);
    ppu.pipeline_fifo_reset();
    assert_eq!(ppu.pfc.pixel_fifo.len(), 0);
}

#[test]
fn signed_tile_numbers_are_moved_up_by_128() {
    let mut ppu = PPUContext::new();
    let mut lcd = LCDContext::new();
    lcd.control = 0x81;
    ppu.vram_write(0x9800, 0x80);
    ppu.vram_write(0x8800, 0xAA);
    ppu.pipeline_fetch(&lcd);
    assert_eq!(ppu.pfc.bgw_fetch_data[0], 0x00);
    ppu.pipeline_fetch(&lcd);
    assert_eq!(ppu.pfc.bgw_fetch_data[1], 0xAA);
    let mut off = PPUContext::new();
    lcd.control = 0x90;
    off.vram_write(0x9800, 0x33);
    off.pfc.bgw_fetch_data[0] = 0x07;
    off.pipeline_fetch(&lcd);
    assert_eq!(off.pfc.bgw_fetch_data[0], 0x07);
    assert_eq!(off.pfc.cur_fetch_state, FetchState::DATA0);
}

#[test]
fn queue_emits_one_pixel_per_dot_when_more_than_eight_wait() {
    let mut ppu = PPUContext::new();
    let mut lcd = LCDContext::new();
    lcd.line_y = 2;
    lcd.scroll_x = 3;
    for i in 0..9u32 {
        ppu.pfc.pixel_fifo.push_back(100 + i);
    }
    ppu.pfc.line_x = 2;
    ppu.pfc.pushed_x = 5;
    ppu.pipeline_push_pixel(&lcd);
    // line_x 2 is left of the scroll offset 3: the pixel is dropped.
    assert_eq!(ppu.pfc.pixel_fifo.len(), 8);
    assert_eq!((ppu.pfc.line_x, ppu.pfc.pushed_x), (3, 5));
    assert_eq!(ppu.frame_buffer[5 + 2 * 160], 0);
    ppu.pipeline_push_pixel(&lcd);
    assert_eq!(ppu.pfc.pixel_fifo.len(), 8);
    assert_eq!((ppu.pfc.line_x, ppu.pfc.pushed_x), (3, 5));
    ppu.pfc.pixel_fifo.push_back(200);
    ppu.pipeline_push_pixel(&lcd);
    assert_eq!(ppu.frame_buffer[5 + 2 * 160], 101);
    assert_eq!((ppu.pfc.line_x, ppu.pfc.pushed_x), (4, 6));
    // Outside the frame nothing is drawn, but the pixel still counts.
    lcd.line_y = 200;
    ppu.pfc.pixel_fifo.push_back(201);
    let before = ppu.frame_buffer;
    ppu.pipeline_push_pixel(&lcd);
    assert_eq!(ppu.frame_buffer, before);
    assert_eq!((ppu.pfc.line_x, ppu.pfc.pushed_x), (5, 7));
}

#[test]
fn every_visible_line_draws_160_pixels_in_456_dots() {
    for scroll_x in [0u8, 1, 5, 7, 8, 131] {
        let (mut cpu, mut emu) = machine();
        emu.lcd.scroll_x = scroll_x;
        emu.lcd.bg_palette = 0xE4;
        emu.ppu.vram_write(0x8000, 0xFF);
        emu.ppu.vram_write(0x8001, 0xFF);
        for line in 0..144u32 {
            let mut reached = 0;
            for dot in 1..=456u32 {
                let was = emu.lcd.status_mode();
                emu.dot(&mut cpu);
                assert!(emu.ppu.pfc.pushed_x <= 160);
                assert!(emu.ppu.pfc.pixel_fifo.len() <= 16);
                if dot < 80 {
                    assert_eq!(emu.lcd.status_mode(), LCDMode::OAM);
                }
                if dot == 80 {
                    assert_eq!(emu.lcd.status_mode(), LCDMode::XFER);
                }
                if was == LCDMode::XFER && emu.lcd.status_mode() == LCDMode::HBlank {
                    reached = dot;
                    assert_eq!(emu.ppu.pfc.pushed_x, 160);
                }
                if dot < 456 {
                    assert_eq!(emu.lcd.line_y as u32, line);
                    assert_eq!(emu.ppu.line_ticks, dot);
                }
            }
            assert_eq!(emu.lcd.line_y as u32, line + 1);
            assert_eq!(emu.ppu.line_ticks, 0);
            let offset = (scroll_x % 8) as u32;
            let expected = if offset == 0 { 297 } else { 299 + offset };
            assert_eq!(reached, expected, "scroll {}", scroll_x);
        }
        assert_eq!(emu.lcd.status_mode(), LCDMode::VBlank);
        assert_eq!(emu.ppu.current_frame, 1);
        assert_eq!(emu.ppu.frame_buffer[0], 0xFF000000);
    }
}

#[test]
fn coincidence_and_mode_changes_raise_the_status_interrupt() {
    let (mut cpu, mut emu) = machine();
    emu.lcd.line_y_compare = 1;
    emu.lcd.status = 0x02 | 0x40;
    for _ in 0..455 {
        emu.dot(&mut cpu);
    }
    assert_eq!(cpu.int_flags & 0x02, 0);
    assert!(!emu.lcd.status_line_y_compare());
    emu.dot(&mut cpu);
    assert_eq!(emu.lcd.line_y, 1);
    assert!(emu.lcd.status_line_y_compare());
    assert_eq!(cpu.int_flags & 0x02, 0x02);
    cpu.int_flags = 0;
    for _ in 0..456 {
        emu.dot(&mut cpu);
    }
    assert_eq!(emu.lcd.line_y, 2);
    assert!(!emu.lcd.status_line_y_compare());
    assert_eq!(cpu.int_flags, 0);
    // The horizontal-blank source.
    emu.lcd.status = (emu.lcd.status & 0x07) | 0x08;
    while emu.lcd.status_mode() != LCDMode::HBlank {
        assert_eq!(cpu.int_flags, 0);
        emu.dot(&mut cpu);
    }
    assert_eq!(cpu.int_flags, 0x02);
}

#[test]
fn vertical_blank_raises_its_interrupt_and_counts_the_frame() {
    let (mut cpu, mut emu) = machine();
    emu.lcd.line_y = 143;
    emu.lcd.status = 0x00 | 0x10;
    emu.ppu.line_ticks = 455;
    emu.ppu.current_frame = u32::MAX;
    emu.dot(&mut cpu);
    assert_eq!(emu.lcd.line_y, 144);
    assert_eq!(emu.lcd.status_mode(), LCDMode::VBlank);
    assert_eq!(cpu.int_flags, 0x03);
    assert_eq!(emu.ppu.current_frame, 0);
    assert_eq!(emu.ppu.line_ticks, 0);
    for line in 145..=153u8 {
        for _ in 0..456 {
            emu.dot(&mut cpu);
        }
        assert_eq!(emu.lcd.line_y, line);
        assert_eq!(emu.lcd.status_mode(), LCDMode::VBlank);
    }
    for _ in 0..456 {
        emu.dot(&mut cpu);
    }
    assert_eq!(emu.lcd.line_y, 0);
    assert_eq!(emu.lcd.status_mode(), LCDMode::OAM);
}

#[test]
fn cartridge_header_fields() {
    let mut image = vec![0u8; 0xC000];
    for i in 0x100..0x150usize {
        image[i] = (i - 0x100) as u8;
    }
    let header = ROMHeader::from(&image);
    assert_eq!(header.entry, [0, 1, 2, 3]);
    assert_eq!(header.logo[0], 4);
    assert_eq!(header.logo[0x2F], 0x33);
    assert_eq!(header.title[0], 0x34);
    assert_eq!(header.title[15], 0x43);
    assert_eq!(header.new_lic_code, 0x4445);
    assert_eq!(header.sgb_flag, 0x46);
    assert_eq!(header.type_, 0x47);
    assert_eq!(header.rom_size, 0x48);
    assert_eq!(header.ram_size, 0x49);
    assert_eq!(header.dest_code, 0x4A);
    assert_eq!(header.lic_code, 0x4B);
    assert_eq!(header.version, 0x4C);
    assert_eq!(header.checksum, 0x4D);
    assert_eq!(header.global_checksum, 0x4E4F);
    let cart = CartContext::new(image.clone()).unwrap();
    assert_eq!(cart.rom_size, 0xC000);
    assert_eq!(cart.rom_data, image);
    assert_eq!(cart.header.type_, 0x47);
    assert_eq!(cart.read(0x0147), 0x47);
}

#[test]
fn cartridge_load_errors() {
    assert_eq!(CartContext::new(vec![]).err(), Some(LoadError::ShortRead));
    assert_eq!(CartContext::new(vec![0u8; 0x14F]).err(), Some(LoadError::ShortRead));
    assert!(CartContext::new(vec![0u8; 0x150]).is_ok());
    assert!(CartContext::new(vec![0u8; 0xBFFF]).is_ok());
    assert!(CartContext::new(vec![0u8; 0xC000]).is_ok());
    // 25 bytes that sum, each with one more, to 256: the test's low byte is zero.
    let mut image = vec![0u8; 0xC000];
    image[0x134] = 231;
    assert!(!checksum_valid(&image));
    assert_eq!(CartContext::new(image.clone()).err(), Some(LoadError::BadHeader));
    image[0x14C] = 1;
    assert!(checksum_valid(&image));
    assert!(CartContext::new(image.clone()).is_ok());
    // The checksum byte itself is not part of the sum.
    image[0x14C] = 0;
    image[0x14D] = 0x55;
    assert!(!checksum_valid(&image));
    image[0x133] = 9;
    assert!(!checksum_valid(&image));
}

#[test]
fn cartridge_image_is_flat_and_writable() {
    let mut image = vec![0u8; 0x10000];
    image[0x7FFF] = 0x12;
    image[0xA123] = 0x34;
    let mut cart = CartContext::new(image).unwrap();
    assert_eq!(cart.read(0x7FFF), 0x12);
    assert_eq!(cart.read(0xA123), 0x34);
    cart.write(0x0000, 0x56);
    assert_eq!(cart.read(0x0000), 0x56);
    assert_eq!(cart.rom_data[0], 0x56);
}

#[test]
fn licensee_and_cartridge_type_names() {
    assert_eq!(lic_code(0x00), "None");
    assert_eq!(lic_code(0x01), "Nintendo R&D1");
    assert_eq!(lic_code(0x31), "Nintendo");
    assert_eq!(lic_code(0x33), "Ocean/Acclaim");
    assert_eq!(lic_code(0x69), "Electronic Arts");
    assert_eq!(lic_code(0xA4), "Konami (Yu-Gi-Oh!)");
    assert_eq!(lic_code(0x02), "UNKNOWN");
    assert_eq!(lic_code(0xFF), "UNKNOWN");
    assert_eq!(rom_type(0x00), Some("ROM ONLY"));
    assert_eq!(rom_type(0x01), Some("MBC1"));
    assert_eq!(rom_type(0x13), Some("MBC3+RAM+BATTERY 2"));
    assert_eq!(rom_type(0x22), Some("MBC7+SENSOR+RUMBLE+RAM+BATTERY"));
    assert_eq!(rom_type(0x23), None);
    assert_eq!(rom_type(0xFF), None);
}

#[test]
fn debug_channel_collects_characters() {
    let (mut cpu, mut emu) = machine();
    let mut dbg = DebugContext::new();
    dbg_update(&mut cpu, &mut emu, &mut dbg);
    assert_eq!(dbg.size, 0);
    for c in [b'O', b'K'] {
        bus_write(&mut cpu, &mut emu, 0xFF01, c);
        bus_write(&mut cpu, &mut emu, 0xFF02, 0x81);
        dbg_update(&mut cpu, &mut emu, &mut dbg);
        assert_eq!(bus_read(&cpu, &emu, 0xFF02), 0);
        dbg_update(&mut cpu, &mut emu, &mut dbg);
    }
    assert_eq!(dbg.size, 2);
    assert_eq!(&dbg.msg[..2], b"OK");
    bus_write(&mut cpu, &mut emu, 0xFF02, 0x80);
    dbg_update(&mut cpu, &mut emu, &mut dbg);
    assert_eq!(dbg.size, 2);
    assert_eq!(bus_read(&cpu, &emu, 0xFF02), 0x80);
}

#[test]
fn board_well_formedness() {
    let (_, mut emu) = machine();
    assert!(emu.is_wf());
    emu.dma.active = true;
    emu.dma.byte = 0xA0;
    assert!(!emu.is_wf());
    emu.dma.byte = 0x9F;
    assert!(emu.is_wf());
    for i in 0..17 {
        emu.ppu.pfc.pixel_fifo.push_back(i);
    }
    assert!(!emu.is_wf());
    emu.ppu.pfc.pixel_fifo.pop_front();
    assert!(emu.is_wf());
    emu.cart.rom_data.truncate(0xBFFF);
    assert!(!emu.is_wf());
}

#[test]
fn board_power_on() {
    let (_, emu) = machine();
    assert!(emu.running);
    assert!(!emu.paused);
    assert!(!emu.die);
    assert_eq!(emu.ticks, 0);
    assert_eq!(emu.timer.div, 0xAC00);
    assert!(!emu.dma.transferring());
    assert_eq!(emu.ppu.line_ticks, 0);
    assert_eq!(emu.ppu.current_frame, 0);
    assert_eq!(emu.lcd.line_y, 0);
}

#[test]
fn debug_buffer_starts_blank_and_stays_blank_behind_the_text() {
    let (mut cpu, mut emu) = machine();
    let mut dbg = DebugContext::new();
    assert_eq!(dbg.size, 0);
    assert!(dbg.msg.iter().all(|b| *b == b' '));
    bus_write(&mut cpu, &mut emu, 0xFF01, b'A');
    bus_write(&mut cpu, &mut emu, 0xFF02, 0x81);
    dbg_update(&mut cpu, &mut emu, &mut dbg);
    assert_eq!(dbg.size, 1);
    assert_eq!(dbg.msg[0], b'A');
    assert!(dbg.msg[1..].iter().all(|b| *b == b' '));
}

#[test]
fn smallest_image_loads_and_is_filled_up_with_zeros() {
    let mut image = vec![0xEEu8; 0x8000];
    for i in 0x134..0x14D {
        image[i] = 0;
    }
    image[0x100] = 0x3C; // INC A
    let cart = CartContext::new(image.clone()).unwrap();
    assert_eq!(cart.rom_size, 0x8000);
    assert_eq!(cart.rom_data.len(), 0xC000);
    assert_eq!(&cart.rom_data[..0x8000], &image[..]);
    assert!(cart.rom_data[0x8000..].iter().all(|b| *b == 0));
    assert_eq!(cart.header.entry[0], 0x3C);
    let mut cpu = CPUContext::new();
    let mut emu = EmulatorContext::new(cart);
    assert!(emu.is_wf());
    assert_eq!(bus_read(&cpu, &emu, 0x7FFF), 0xEE);
    assert_eq!(bus_read(&cpu, &emu, 0xA000), 0x00);
    assert_eq!(bus_read(&cpu, &emu, 0xBFFF), 0x00);
    bus_write(&mut cpu, &mut emu, 0xA123, 0x42);
    assert_eq!(bus_read(&cpu, &emu, 0xA123), 0x42);
    assert!(cpu.can_step(&emu));
    cpu.step(&mut emu);
    assert_eq!(cpu.registers.a, 0x02);
}

#[test]
fn longer_image_is_kept_as_it_is() {
    let mut image = vec![0u8; 0x20000];
    image[0x1FFFF] = 0x77;
    image[0xC000] = 0x11;
    let cart = CartContext::new(image.clone()).unwrap();
    assert_eq!(cart.rom_size, 0x20000);
    assert_eq!(cart.rom_data, image);
    let header_only = CartContext::new(vec![0u8; 0x150]).unwrap();
    assert_eq!(header_only.rom_size, 0x150);
    assert_eq!(header_only.rom_data.len(), 0xC000);
}

#[test]
fn a_line_that_starts_with_pixels_queued_still_lasts_456_dots() {
    for queued in [1u32, 7, 8, 9, 15, 16] {
        for scroll_x in [0u8, 3, 7] {
            let (mut cpu, mut emu) = machine();
            emu.lcd.scroll_x = scroll_x;
            for i in 0..queued {
                emu.ppu.pfc.pixel_fifo.push_back(0xAB000000 + i);
            }
            emu.ppu.pfc.pushed_x = 99;
            emu.ppu.pfc.line_x = 200;
            emu.ppu.pfc.fetch_x = 250;
            for line in 0..3u32 {
                for dot in 1..=456u32 {
                    emu.dot(&mut cpu);
                    assert!(emu.ppu.pfc.pixel_fifo.len() <= 16);
                    if dot < 456 {
                        assert_eq!(emu.lcd.line_y as u32, line);
                        assert_eq!(emu.ppu.line_ticks, dot);
                    }
                    if dot >= 80 {
                        assert!(emu.ppu.pfc.pushed_x <= 160);
                    }
                    if dot == 455 {
                        assert_eq!(emu.ppu.pfc.pushed_x, 160);
                        assert_eq!(emu.lcd.status_mode(), LCDMode::HBlank);
                    }
                }
                assert_eq!(emu.lcd.line_y as u32, line + 1);
                assert_eq!(emu.ppu.line_ticks, 0);
                assert_eq!(emu.lcd.status_mode(), LCDMode::OAM);
            }
        }
    }
}
