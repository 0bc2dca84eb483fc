use rustboy::gpu::{GPU, ReadMode};

fn at_scanline_start() -> GPU {
    let mut g = GPU::new();
    g.read_mode = ReadMode::ScanlineOAM;
    g.clock = 0;
    g.line = 0;
    g
}

#[test]
fn power_on_state() {
    let g = GPU::new();
    assert_eq!(g.read_mode, ReadMode::HorizontalBlank);
    assert_eq!(g.clock, 0);
    assert_eq!(g.line, 0);
    assert_eq!(g.canvas.len(), 160 * 144);
    assert_eq!(g.ram.len(), 0x2000);
    assert_eq!(g.sprite.len(), 0xA0);
}

#[test]
fn one_scanline_takes_exactly_its_three_budgets() {
    let mut g = at_scanline_start();
    g.step(80);
    assert_eq!(g.read_mode, ReadMode::ScanlineVRAM);
    assert_eq!(g.clock, 0);
    g.step(172);
    assert_eq!(g.read_mode, ReadMode::HorizontalBlank);
    assert_eq!(g.clock, 0);
    assert_eq!(g.line, 0);
    g.step(204);
    assert_eq!(g.read_mode, ReadMode::ScanlineOAM);
    assert_eq!(g.clock, 0);
    assert_eq!(g.line, 1);
}

#[test]
fn cycles_may_arrive_in_any_split_with_remainder_carry() {
    let mut g = at_scanline_start();
    g.step(50);
    assert_eq!(g.read_mode, ReadMode::ScanlineOAM);
    assert_eq!(g.clock, 50);
    g.step(31);
    assert_eq!(g.read_mode, ReadMode::ScanlineVRAM);
    assert_eq!(g.clock, 1);
    g.step(100);
    g.step(71);
    assert_eq!(g.read_mode, ReadMode::HorizontalBlank);
    assert_eq!(g.clock, 0);
    g.step(203);
    g.step(1);
    assert_eq!(g.read_mode, ReadMode::ScanlineOAM);
    assert_eq!(g.line, 1);
    assert_eq!(g.clock, 0);
}

#[test]
fn a_full_frame_enters_vertical_blank_and_wraps_back() {
    let mut g = at_scanline_start();
    for line in 0..144u32 {
        assert_eq!(g.read_mode, ReadMode::ScanlineOAM);
        assert_eq!(g.line, line);
        g.step(80);
        g.step(172);
        g.step(204);
    }
    assert_eq!(g.read_mode, ReadMode::VerticalBlank);
    assert_eq!(g.line, 144);
    for _ in 0..9 {
        g.step(456);
        assert_eq!(g.read_mode, ReadMode::VerticalBlank);
    }
    assert_eq!(g.line, 153);
    g.step(456);
    assert_eq!(g.read_mode, ReadMode::ScanlineOAM);
    assert_eq!(g.line, 0);
    assert_eq!(g.clock, 0);
}

#[test]
fn tile_row_decodes_to_palette_indices() {
    let row = GPU::tile_line_color(0b1000_0000, 0b0000_0000);
    assert_eq!(row, vec![1, 0, 0, 0, 0, 0, 0, 0]);
}

#[test]
fn tile_row_combines_both_bit_planes() {
    let row = GPU::tile_line_color(0b1100_0110, 0b0101_1100);
    assert_eq!(row, vec![1, 3, 0, 2, 2, 3, 1, 0]);
}

#[test]
fn read_tiles_fills_the_selected_bank() {
    let mut g = GPU::new();
    g.ram[0] = 0b1000_0000;
    g.ram[1] = 0b1000_0000;
    g.ram[16] = 0b0000_0001;
    g.read_tiles(1);
    assert_eq!(g.tile_set[16384 + 0], 3);
    assert_eq!(g.tile_set[16384 + 1], 0);
    assert_eq!(g.tile_set[16384 + 64 + 7], 1);
    assert_eq!(g.tile_set[0], 0);
}

#[test]
fn completing_pixel_transfer_renders_the_scanline() {
    let mut g = at_scanline_start();
    // Tile 0, row 0: leftmost two pixels light grey and black, rest white.
    g.ram[0] = 0b1100_0000;
    g.ram[1] = 0b0100_0000;
    g.step(80);
    g.step(172);
    assert_eq!(g.read_mode, ReadMode::HorizontalBlank);
    assert_eq!(g.canvas[0], 0xC0C0C0);
    assert_eq!(g.canvas[1], 0x000000);
    assert_eq!(g.canvas[2], 0xFFFFFF);
    // The zeroed background map names tile 0 everywhere, so its row
    // repeats every eight pixels.
    assert_eq!(g.canvas[8], 0xC0C0C0);
    assert_eq!(g.canvas[9], 0x000000);
    // The next row of the canvas is untouched.
    assert_eq!(g.canvas[160], 0);
}

#[test]
fn rendering_follows_the_background_map() {
    let mut g = at_scanline_start();
    // Tile 1 is solid dark grey on its first row; the map points the
    // second tile column at it.
    g.ram[16] = 0x00;
    g.ram[17] = 0xFF;
    g.ram[0x1800 + 1] = 1;
    g.step(80);
    g.step(172);
    assert_eq!(g.canvas[0], 0xFFFFFF);
    assert_eq!(g.canvas[7], 0xFFFFFF);
    assert_eq!(g.canvas[8], 0x606060);
    assert_eq!(g.canvas[15], 0x606060);
    assert_eq!(g.canvas[16], 0xFFFFFF);
}
