use dmg_01::gpu::{
    decode_tile_row, empty_tile, pack_pixel, BackgroundAndWindowDataSelect, BackgroundColors,
    Color, InterruptRequest, Mode, TileMap, TilePixelValue, GPU,
};

#[test]
fn test_tile_set_buffer() {
    let gpu = GPU::new();
    gpu.tile_set_as_buffer(false);
}

fn lit_gpu() -> GPU {
    let mut gpu = GPU::new();
    gpu.lcd_display_enabled = true;
    gpu.background_display_enabled = true;
    gpu.background_and_window_data_select = BackgroundAndWindowDataSelect::X8000;
    gpu
}

#[test]
fn shades_and_palettes() {
    assert_eq!(Color::White.shade(), 255);
    assert_eq!(Color::LightGray.shade(), 192);
    assert_eq!(Color::DarkGray.shade(), 96);
    assert_eq!(Color::Black.shade(), 0);
    assert_eq!(Color::from(0), Color::White);
    assert_eq!(Color::from(1), Color::LightGray);
    assert_eq!(Color::from(2), Color::DarkGray);
    assert_eq!(Color::from(3), Color::Black);
    assert_eq!(
        BackgroundColors::from(0b00_01_10_11),
        BackgroundColors(Color::Black, Color::DarkGray, Color::LightGray, Color::White)
    );
    assert_eq!(BackgroundColors::new().to_byte(), 0b11_10_01_00);
    for byte in 0..=255u8 {
        assert_eq!(BackgroundColors::from_byte(byte).to_byte(), byte);
    }
    assert_eq!(u8::from(Mode::HorizontalBlank), 0);
    assert_eq!(u8::from(Mode::VerticalBlank), 1);
    assert_eq!(u8::from(Mode::OAMAccess), 2);
    assert_eq!(u8::from(Mode::VRAMAccess), 3);
}

#[test]
fn interrupt_requests_add_up() {
    let mut request = InterruptRequest::Nothing;
    request.add(InterruptRequest::Nothing);
    assert_eq!(request, InterruptRequest::Nothing);
    request.add(InterruptRequest::LCDStat);
    assert_eq!(request, InterruptRequest::LCDStat);
    request.add(InterruptRequest::LCDStat);
    assert_eq!(request, InterruptRequest::LCDStat);
    request.add(InterruptRequest::VBlank);
    assert_eq!(request, InterruptRequest::Both);
    let mut request = InterruptRequest::VBlank;
    request.add(InterruptRequest::LCDStat);
    assert_eq!(request, InterruptRequest::Both);
    request.add(InterruptRequest::Nothing);
    assert_eq!(request, InterruptRequest::Both);
}

#[test]
fn tile_rows_decode_from_two_bytes() {
    let row = decode_tile_row(&empty_tile()[0], 0b1010_0101, 0b1100_0011);
    assert_eq!(
        row,
        [
            TilePixelValue::Three,
            TilePixelValue::Two,
            TilePixelValue::One,
            TilePixelValue::Zero,
            TilePixelValue::Zero,
            TilePixelValue::One,
            TilePixelValue::Two,
            TilePixelValue::Three,
        ]
    );
}

#[test]
fn vram_write_updates_the_row_of_the_tile_cache() {
    let mut gpu = GPU::new();
    gpu.write_vram(0x0123, 0b1111_0000);
    assert_eq!(gpu.vram[0x0123], 0b1111_0000);
    let (tile, row) = (0x0123 / 16, (0x0123 % 16) / 2);
    for column in 0..8 {
        let expected = if column < 4 { TilePixelValue::Two } else { TilePixelValue::Zero };
        assert_eq!(gpu.tile_set[tile][row][column], expected);
    }
    gpu.write_vram(0x0122, 0b0011_1100);
    let expected = [
        TilePixelValue::Two,
        TilePixelValue::Two,
        TilePixelValue::Three,
        TilePixelValue::Three,
        TilePixelValue::One,
        TilePixelValue::One,
        TilePixelValue::Zero,
        TilePixelValue::Zero,
    ];
    assert_eq!(gpu.tile_set[tile][row], expected);
    for other_row in 0..8 {
        if other_row != row {
            assert_eq!(gpu.tile_set[tile][other_row], [TilePixelValue::Zero; 8]);
        }
    }
}

#[test]
fn tile_cache_follows_every_write_to_tile_data() {
    let mut gpu = GPU::new();
    let mut seed: u32 = 12345;
    for _ in 0..2000 {
        seed = seed.wrapping_mul(1103515245).wrapping_add(12345);
        let index = ((seed >> 8) % 0x1800) as usize;
        let value = (seed >> 24) as u8;
        gpu.write_vram(index, value);
        let low = gpu.vram[index & !1];
        let high = gpu.vram[(index & !1) | 1];
        for column in 0..8 {
            let bit = 7 - column;
            let pixel = (((high >> bit) & 1) << 1) | ((low >> bit) & 1);
            let expected = match pixel {
                0 => TilePixelValue::Zero,
                1 => TilePixelValue::One,
                2 => TilePixelValue::Two,
                _ => TilePixelValue::Three,
            };
            assert_eq!(gpu.tile_set[index / 16][(index % 16) / 2][column], expected);
        }
    }
}

#[test]
fn tile_map_writes_leave_the_tile_cache_alone() {
    let mut gpu = GPU::new();
    gpu.write_vram(0x1800, 0xFF);
    gpu.write_vram(0x1FFF, 0xFF);
    assert_eq!(gpu.vram[0x1800], 0xFF);
    assert_eq!(gpu.vram[0x1FFF], 0xFF);
    for tile in 0..384 {
        assert_eq!(gpu.tile_set[tile], empty_tile());
    }
}

#[test]
fn display_off_consumes_nothing() {
    let mut gpu = GPU::new();
    for _ in 0..1000 {
        assert_eq!(gpu.step(255), InterruptRequest::Nothing);
    }
    assert_eq!(gpu.line, 0);
    assert_eq!(gpu.mode, Mode::HorizontalBlank);
    assert_eq!(gpu.current_line(), 0);
}

#[test]
fn modes_follow_each_other_through_a_line() {
    let mut gpu = lit_gpu();
    gpu.mode = Mode::OAMAccess;
    gpu.step(79);
    assert_eq!(gpu.mode, Mode::OAMAccess);
    gpu.step(1);
    assert_eq!(gpu.mode, Mode::VRAMAccess);
    gpu.step(171);
    assert_eq!(gpu.mode, Mode::VRAMAccess);
    gpu.step(1);
    assert_eq!(gpu.mode, Mode::HorizontalBlank);
    assert_eq!(gpu.line, 0);
    gpu.step(203);
    assert_eq!(gpu.mode, Mode::HorizontalBlank);
    gpu.step(1);
    assert_eq!(gpu.mode, Mode::OAMAccess);
    assert_eq!(gpu.line, 1);
}

#[test]
fn a_frame_takes_70224_cycles() {
    let mut gpu = lit_gpu();
    gpu.mode = Mode::OAMAccess;
    let mut vblanks = 0;
    let mut cycles = 0u32;
    let mut seen_144 = false;
    while cycles < 70224 {
        let request = gpu.step(4);
        cycles += 4;
        if request == InterruptRequest::VBlank || request == InterruptRequest::Both {
            vblanks += 1;
            assert_eq!(gpu.line, 144);
            assert_eq!(gpu.mode, Mode::VerticalBlank);
            assert_eq!(cycles, 144 * 456);
            seen_144 = true;
        }
        assert!(gpu.line <= 153);
    }
    assert!(seen_144);
    assert_eq!(vblanks, 1);
    assert_eq!(gpu.line, 0);
    assert_eq!(gpu.mode, Mode::OAMAccess);
}

#[test]
fn status_interrupts_follow_their_enable_bits() {
    let mut gpu = lit_gpu();
    gpu.mode = Mode::VRAMAccess;
    assert_eq!(gpu.step(172), InterruptRequest::Nothing);
    let mut gpu = lit_gpu();
    gpu.mode = Mode::VRAMAccess;
    gpu.hblank_interrupt_enabled = true;
    assert_eq!(gpu.step(172), InterruptRequest::LCDStat);

    let mut gpu = lit_gpu();
    gpu.line_check = 200;
    gpu.oam_interrupt_enabled = true;
    assert_eq!(gpu.step(204), InterruptRequest::LCDStat);
    assert_eq!(gpu.mode, Mode::OAMAccess);

    let mut gpu = lit_gpu();
    gpu.line_check = 1;
    assert_eq!(gpu.step(204), InterruptRequest::Nothing);
    assert!(gpu.line_equals_line_check);
    let mut gpu = lit_gpu();
    gpu.line_check = 1;
    gpu.line_equals_line_check_interrupt_enabled = true;
    assert_eq!(gpu.step(204), InterruptRequest::LCDStat);

    let mut gpu = lit_gpu();
    gpu.line = 143;
    gpu.line_check = 200;
    assert_eq!(gpu.step(204), InterruptRequest::VBlank);
    assert_eq!(gpu.mode, Mode::VerticalBlank);
    let mut gpu = lit_gpu();
    gpu.line = 143;
    gpu.line_check = 200;
    gpu.vblank_interrupt_enabled = true;
    assert_eq!(gpu.step(204), InterruptRequest::Both);

    let mut gpu = lit_gpu();
    gpu.line = 153;
    gpu.mode = Mode::VerticalBlank;
    gpu.line_check = 200;
    gpu.oam_interrupt_enabled = true;
    assert_eq!(gpu.step(200), InterruptRequest::Nothing);
    assert_eq!(gpu.step(255), InterruptRequest::Nothing);
    assert_eq!(gpu.step(1), InterruptRequest::LCDStat);
    assert_eq!(gpu.line, 0);
    assert_eq!(gpu.mode, Mode::OAMAccess);
}

fn striped_tile(gpu: &mut GPU, tile: usize) {
    for row in 0..8 {
        gpu.write_vram(tile * 16 + row * 2, 0b0101_0101);
        gpu.write_vram(tile * 16 + row * 2 + 1, 0b0011_0011);
    }
}

#[test]
fn scan_line_draws_the_background_through_the_palette() {
    let mut gpu = lit_gpu();
    striped_tile(&mut gpu, 1);
    gpu.write_vram(0x1800, 1);
    gpu.write_vram(0x1801, 0);
    gpu.line = 0;
    gpu.render_scan_line();
    let shades = [255u8, 192, 96, 0, 255, 192, 96, 0];
    for x in 0..8 {
        let offset = x * 4;
        assert_eq!(&gpu.canvas_buffer[offset..offset + 4], &[shades[x], shades[x], shades[x], 255]);
    }
    for x in 8..160 {
        assert_eq!(&gpu.canvas_buffer[x * 4..x * 4 + 4], &[255, 255, 255, 255]);
    }
    assert!(gpu.canvas_buffer[640..].iter().all(|byte| *byte == 0));

    gpu.background_colors = BackgroundColors::from(0b00_01_10_11);
    gpu.line = 3;
    gpu.render_scan_line();
    let shades = [0u8, 96, 192, 255, 0, 96, 192, 255];
    for x in 0..8 {
        let offset = (3 * 160 + x) * 4;
        assert_eq!(&gpu.canvas_buffer[offset..offset + 4], &[shades[x], shades[x], shades[x], 255]);
    }
}

#[test]
fn scan_line_follows_the_scroll_offsets_and_wraps() {
    let mut gpu = lit_gpu();
    striped_tile(&mut gpu, 2);
    gpu.write_vram(0x1800 + 31 * 32 + 31, 2);
    gpu.viewport_x_offset = 250;
    gpu.viewport_y_offset = 252;
    gpu.line = 2;
    gpu.render_scan_line();
    let base = 2 * 160 * 4;
    let expected = [96u8, 0, 255, 192, 96, 0];
    for x in 0..6 {
        assert_eq!(gpu.canvas_buffer[base + x * 4], expected[x]);
    }
    assert_eq!(gpu.canvas_buffer[base + 6 * 4], 255);

    gpu.line = 4;
    gpu.render_scan_line();
    let base = 4 * 160 * 4;
    for x in 0..160 {
        assert_eq!(gpu.canvas_buffer[base + x * 4], 255);
    }
}

#[test]
fn scan_line_supports_signed_tile_numbers() {
    let mut gpu = lit_gpu();
    gpu.background_and_window_data_select = BackgroundAndWindowDataSelect::X8800;
    striped_tile(&mut gpu, 256);
    for row in 0..8 {
        gpu.write_vram(255 * 16 + row * 2, 0xFF);
        gpu.write_vram(255 * 16 + row * 2 + 1, 0xFF);
    }
    gpu.write_vram(0x1800, 0);
    gpu.write_vram(0x1801, 0xFF);
    gpu.line = 0;
    gpu.render_scan_line();
    let shades = [255u8, 192, 96, 0, 255, 192, 96, 0];
    for x in 0..8 {
        assert_eq!(gpu.canvas_buffer[x * 4], shades[x]);
    }
    for x in 8..16 {
        assert_eq!(gpu.canvas_buffer[x * 4], 0);
    }
    assert_eq!(gpu.background_and_window_data_select.tile_index(0x7F), 256 + 0x7F);
    assert_eq!(gpu.background_and_window_data_select.tile_index(0x80), 0x80);
    assert_eq!(BackgroundAndWindowDataSelect::X8000.tile_index(0x80), 0x80);
}

#[test]
fn scan_line_uses_the_second_tile_map_when_selected() {
    let mut gpu = lit_gpu();
    striped_tile(&mut gpu, 1);
    gpu.write_vram(0x1C00, 1);
    gpu.background_tile_map = TileMap::X9C00;
    gpu.render_scan_line();
    assert_eq!(gpu.canvas_buffer[4], 192);
    gpu.background_tile_map = TileMap::X9800;
    gpu.render_scan_line();
    assert_eq!(gpu.canvas_buffer[4], 255);
}

#[test]
fn window_overlays_the_background_from_its_corner() {
    let mut gpu = lit_gpu();
    striped_tile(&mut gpu, 1);
    for row in 0..8 {
        gpu.write_vram(3 * 16 + row * 2, 0xFF);
        gpu.write_vram(3 * 16 + row * 2 + 1, 0xFF);
    }
    for i in 0..0x400 {
        gpu.write_vram(0x1800 + i, 1);
        gpu.write_vram(0x1C00 + i, 3);
    }
    gpu.window_tile_map = TileMap::X9C00;
    gpu.window_display_enabled = true;
    gpu.window.x = 7 + 80;
    gpu.window.y = 10;
    gpu.line = 9;
    gpu.render_scan_line();
    let base = 9 * 160 * 4;
    assert_eq!(gpu.canvas_buffer[base + 80 * 4], 255);
    assert_eq!(gpu.canvas_buffer[base + 81 * 4], 192);
    gpu.line = 10;
    gpu.render_scan_line();
    let base = 10 * 160 * 4;
    assert_eq!(gpu.canvas_buffer[base + 79 * 4], 0);
    assert_eq!(gpu.canvas_buffer[base + 78 * 4], 96);
    for x in 80..160 {
        assert_eq!(gpu.canvas_buffer[base + x * 4], 0);
    }
    gpu.window_display_enabled = false;
    gpu.render_scan_line();
    assert_eq!(gpu.canvas_buffer[base + 81 * 4], 192);
}

#[test]
fn background_off_leaves_the_line_alone() {
    let mut gpu = lit_gpu();
    striped_tile(&mut gpu, 0);
    gpu.background_display_enabled = false;
    gpu.render_scan_line();
    assert!(gpu.canvas_buffer.iter().all(|byte| *byte == 0));
}

#[test]
fn frame_packs_into_words() {
    assert_eq!(pack_pixel(0x11, 0x22, 0x33, 0x44), 0x4433_2211);
    let mut gpu = lit_gpu();
    striped_tile(&mut gpu, 0);
    gpu.render_scan_line();
    let words = gpu.frame_as_words();
    assert_eq!(words.len(), 160 * 144);
    assert_eq!(words[0], 0xFFFF_FFFF);
    assert_eq!(words[1], 0xFFC0_C0C0);
    assert_eq!(words[2], 0xFF60_6060);
    assert_eq!(words[3], 0xFF00_0000);
    assert_eq!(words[160], 0);
}

#[test]
fn tile_set_picture_shows_every_tile() {
    let mut gpu = GPU::new();
    striped_tile(&mut gpu, 25);
    let plain = gpu.tile_set_as_buffer(false);
    assert_eq!(plain.len(), 24 * 16 * 64 * 4);
    let at = |x: usize, y: usize| (y * 192 + x) * 4;
    assert_eq!(&plain[at(0, 0)..at(0, 0) + 4], &[255, 255, 255, 255]);
    assert_eq!(&plain[at(8, 8)..at(8, 8) + 4], &[255, 255, 255, 255]);
    assert_eq!(&plain[at(9, 8)..at(9, 8) + 4], &[192, 192, 192, 255]);
    assert_eq!(&plain[at(10, 15)..at(10, 15) + 4], &[96, 96, 96, 255]);
    assert_eq!(&plain[at(11, 9)..at(11, 9) + 4], &[0, 0, 0, 255]);
    let outlined = gpu.tile_set_as_buffer(true);
    assert_eq!(&outlined[at(9, 8)..at(9, 8) + 4], &[0, 0, 255, 255]);
    assert_eq!(&outlined[at(8, 9)..at(8, 9) + 4], &[0, 0, 255, 255]);
    assert_eq!(&outlined[at(9, 9)..at(9, 9) + 4], &[192, 192, 192, 255]);
    assert_eq!(&outlined[at(191, 3)..at(191, 3) + 4], &[0, 0, 255, 255]);
    assert_eq!(&outlined[at(3, 127)..at(3, 127) + 4], &[0, 0, 255, 255]);
    assert_eq!(&outlined[at(190, 126)..at(190, 126) + 4], &[255, 255, 255, 255]);
}

#[test]
fn background_picture_shows_the_map_and_the_viewport() {
    let mut gpu = GPU::new();
    striped_tile(&mut gpu, 1);
    gpu.write_vram(0x1800 + 32 + 2, 1);
    gpu.viewport_x_offset = 4;
    gpu.viewport_y_offset = 2;
    let at = |x: usize, y: usize| (y * 256 + x) * 4;
    let plain = gpu.background_as_buffer(false, false);
    assert_eq!(plain.len(), 256 * 256 * 4);
    assert_eq!(&plain[at(16, 8)..at(16, 8) + 4], &[255, 255, 255, 255]);
    assert_eq!(&plain[at(17, 8)..at(17, 8) + 4], &[192, 192, 192, 255]);
    assert_eq!(&plain[at(18, 15)..at(18, 15) + 4], &[96, 96, 96, 255]);
    assert_eq!(&plain[at(19, 12)..at(19, 12) + 4], &[0, 0, 0, 255]);
    assert_eq!(&plain[at(24, 8)..at(24, 8) + 4], &[255, 255, 255, 255]);
    let framed = gpu.background_as_buffer(true, true);
    assert_eq!(&framed[at(17, 2)..at(17, 2) + 4], &[255, 0, 0, 255]);
    assert_eq!(&framed[at(17, 146)..at(17, 146) + 4], &[255, 0, 0, 255]);
    assert_eq!(&framed[at(4, 9)..at(4, 9) + 4], &[255, 0, 0, 255]);
    assert_eq!(&framed[at(164, 9)..at(164, 9) + 4], &[255, 0, 0, 255]);
    assert_eq!(&framed[at(4, 2)..at(4, 2) + 4], &[255, 255, 255, 255]);
    assert_eq!(&framed[at(16, 9)..at(16, 9) + 4], &[0, 0, 255, 255]);
    assert_eq!(&framed[at(17, 8)..at(17, 8) + 4], &[0, 0, 255, 255]);
    assert_eq!(&framed[at(17, 9)..at(17, 9) + 4], &[192, 192, 192, 255]);
    assert_eq!(&framed[at(255, 9)..at(255, 9) + 4], &[0, 0, 255, 255]);
}

#[test]
fn tile_buffer_at_a_pixel_gives_the_shades_of_the_tile() {
    let mut gpu = GPU::new();
    striped_tile(&mut gpu, 1);
    gpu.write_vram(0x1800 + 32 + 2, 1);
    let tile = gpu.get_tile_buffer_at(17, 9);
    for row in 0..8 {
        assert_eq!(tile[row], [255, 192, 96, 0, 255, 192, 96, 0]);
    }
    let blank = gpu.get_tile_buffer_at(0, 0);
    assert_eq!(blank, [[255u8; 8]; 8]);
    assert_eq!(gpu.background_1(34), 1);
}
