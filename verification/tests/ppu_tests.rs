use gbrustemu::mmu::MMU;
use gbrustemu::ppu::{
    DARKEST_GREEN, DARK_GREEN, LIGHTEST_GREEN, LIGHT_GREEN, PPU, SCREEN_HEIGHT, SCREEN_WIDTH,
};

/// A bus with the boot overlay disabled and the picture unit enabled.
fn enabled_bus() -> MMU {
    let mut mmu = MMU::new();
    mmu.write_byte(0xFF50, 1);
    mmu.write_byte(0xFF40, 0x80);
    mmu
}

fn stat_mode(mmu: &MMU) -> u8 {
    mmu.read_byte(0xFF41) % 4
}

#[test]
fn scanline_modes_visit_oam_transfer_hblank_in_order() {
    let mut mmu = enabled_bus();
    let mut ppu = PPU::new();
    ppu.step(10, &mut mmu);
    assert_eq!(stat_mode(&mmu), 2);
    ppu.step(100, &mut mmu);
    assert_eq!(stat_mode(&mmu), 3);
    ppu.step(200, &mut mmu);
    assert_eq!(stat_mode(&mmu), 0);
    assert_eq!(ppu.get_ly(&mmu), 0);
}

#[test]
fn raster_line_increments_once_per_scanline_budget() {
    let mut mmu = enabled_bus();
    let mut ppu = PPU::new();
    for line in 1..=5u8 {
        ppu.step(456, &mut mmu);
        assert_eq!(ppu.get_ly(&mmu), line);
        assert_eq!(stat_mode(&mmu), 2);
    }
}

#[test]
fn raster_line_wraps_after_one_frame_of_scanlines() {
    let mut mmu = enabled_bus();
    let mut ppu = PPU::new();
    for _ in 0..154 {
        ppu.step(456, &mut mmu);
    }
    assert_eq!(ppu.get_ly(&mmu), 0);
    assert_eq!(stat_mode(&mmu), 2);
}

#[test]
fn vblank_mode_on_invisible_lines() {
    let mut mmu = enabled_bus();
    let mut ppu = PPU::new();
    for _ in 0..144 {
        ppu.step(456, &mut mmu);
    }
    assert_eq!(ppu.get_ly(&mmu), 144);
    assert_eq!(stat_mode(&mmu), 1);
    ppu.step(10, &mut mmu);
    assert_eq!(stat_mode(&mmu), 1);
}

#[test]
fn lyc_comparison_bit_tracks_equality() {
    let mut mmu = enabled_bus();
    let mut ppu = PPU::new();
    mmu.write_byte(0xFF45, 2);
    ppu.step(456, &mut mmu);
    assert_eq!(mmu.read_byte(0xFF41) & 0x04, 0);
    ppu.step(456, &mut mmu);
    assert_eq!(ppu.get_ly(&mmu), 2);
    assert_eq!(mmu.read_byte(0xFF41) & 0x04, 0x04);
}

#[test]
fn disabled_picture_unit_freezes() {
    let mut mmu = MMU::new();
    mmu.write_byte(0xFF50, 1);
    let mut ppu = PPU::new();
    let stat_before = mmu.read_byte(0xFF41);
    ppu.step(10_000, &mut mmu);
    assert_eq!(ppu.get_ly(&mmu), 0);
    assert_eq!(mmu.read_byte(0xFF41), stat_before);
}

#[test]
fn uniform_zero_tile_gives_lightest_viewport_for_any_scroll() {
    for &(scx, scy) in &[(0u8, 0u8), (17, 200), (255, 255)] {
        let mut mmu = enabled_bus();
        let mut ppu = PPU::new();
        // Tile map all one index, that tile's pattern all zero, palette 0.
        for i in 0..1024u16 {
            mmu.write_byte(0x9800 + i, 5);
        }
        mmu.write_byte(0xFF43, scx);
        mmu.write_byte(0xFF42, scy);
        ppu.step(10, &mut mmu);
        let viewport = ppu.get_viewport();
        assert_eq!(viewport.len(), SCREEN_WIDTH * SCREEN_HEIGHT);
        assert!(viewport.iter().all(|&px| px == LIGHTEST_GREEN));
        assert!(!mmu.dirty_vram_flag);
        assert!(!mmu.dirty_viewport_flag);
    }
}

#[test]
fn palette_lookup_extracts_two_bit_entries() {
    let mut mmu = MMU::new();
    mmu.write_byte(0xFF47, 0b1110_0100);
    let ppu = PPU::new();
    assert_eq!(ppu.transform_pair_into_bgp_palette(&mmu, 0), 0);
    assert_eq!(ppu.transform_pair_into_bgp_palette(&mmu, 1), 1);
    assert_eq!(ppu.transform_pair_into_bgp_palette(&mmu, 2), 2);
    assert_eq!(ppu.transform_pair_into_bgp_palette(&mmu, 3), 3);
    mmu.write_byte(0xFF47, 0b0001_1011);
    assert_eq!(ppu.transform_pair_into_bgp_palette(&mmu, 0), 3);
    assert_eq!(ppu.transform_pair_into_bgp_palette(&mmu, 3), 0);
}

#[test]
fn palette_entries_map_to_shades() {
    let ppu = PPU::new();
    assert_eq!(ppu.transform_from_bgp_to_minifb_color(0), LIGHTEST_GREEN);
    assert_eq!(ppu.transform_from_bgp_to_minifb_color(1), LIGHT_GREEN);
    assert_eq!(ppu.transform_from_bgp_to_minifb_color(2), DARK_GREEN);
    assert_eq!(ppu.transform_from_bgp_to_minifb_color(3), DARKEST_GREEN);
}

#[test]
fn raster_tile_decodes_bit_pairs_msb_first() {
    let mut mmu = MMU::new();
    // Identity palette: entry k shows shade k.
    mmu.write_byte(0xFF47, 0b1110_0100);
    let ppu = PPU::new();
    // Row 0: first byte 0xAA, second 0x0F — pixel pairs alternate the high
    // bit and switch the low bit halfway.
    let mut tile = vec![0u8; 16];
    tile[0] = 0b1010_1010;
    tile[1] = 0b0000_1111;
    let pixels = ppu.raster_tile(&mmu, &tile);
    assert_eq!(pixels.len(), 64);
    // Columns 0..4: pairs 2,0,2,0 — columns 4..8: pairs 3,1,3,1.
    let expected = [
        DARK_GREEN,
        LIGHTEST_GREEN,
        DARK_GREEN,
        LIGHTEST_GREEN,
        DARKEST_GREEN,
        LIGHT_GREEN,
        DARKEST_GREEN,
        LIGHT_GREEN,
    ];
    assert_eq!(&pixels[0..8], &expected);
    // All other rows are zero pattern: entry 0, lightest shade.
    assert!(pixels[8..].iter().all(|&px| px == LIGHTEST_GREEN));
}

#[test]
fn get_tile_and_tile_map_read_the_bus() {
    let mut mmu = MMU::new();
    mmu.write_byte(0xFF50, 1);
    for i in 0..16u16 {
        mmu.write_byte(0x8000 + i, i as u8);
    }
    mmu.write_byte(0x9800, 7);
    mmu.write_byte(0x9BFF, 9);
    let ppu = PPU::new();
    let tile = ppu.get_tile(&mmu, 0x8000);
    assert_eq!(tile, (0..16).map(|i| i as u8).collect::<Vec<u8>>());
    let map = ppu.get_tile_map(&mmu);
    assert_eq!(map.len(), 1024);
    assert_eq!(map[0], 7);
    assert_eq!(map[1023], 9);
    assert_eq!(map[1], 0);
}

#[test]
fn tile_set_rasterizes_all_tiles_in_order() {
    let mut mmu = MMU::new();
    mmu.write_byte(0xFF47, 0b1110_0100);
    // Tile 3, row 0: both bytes 0xFF — all pixels the darkest entry.
    mmu.write_byte(0x8000 + 3 * 16, 0xFF);
    mmu.write_byte(0x8000 + 3 * 16 + 1, 0xFF);
    let ppu = PPU::new();
    let set = ppu.get_tile_set(&mmu);
    assert_eq!(set.len(), 16384);
    assert!(set[3 * 64..3 * 64 + 8].iter().all(|&px| px == DARKEST_GREEN));
    assert!(set[0..64].iter().all(|&px| px == LIGHTEST_GREEN));
}

#[test]
fn viewport_extraction_wraps_scroll_indices() {
    let mut mmu = MMU::new();
    mmu.write_byte(0xFF50, 1);
    mmu.write_byte(0xFF40, 0x80);
    mmu.write_byte(0xFF47, 0b1110_0100);
    // Tile map all zero; tile 0 fully darkest (both bytes of every row 0xFF).
    for k in 0..16u16 {
        mmu.write_byte(0x8000 + k, 0xFF);
    }
    // Tile 1 stays all zero (lightest); put it in the first map cell.
    mmu.write_byte(0x9800, 1);
    let mut ppu = PPU::new();
    ppu.populate_background_buffer(&mmu);
    let bg = ppu.get_background_buffer();
    // Background: pixels (0..8, 0..8) lightest (tile 1), elsewhere darkest.
    assert_eq!(bg[0], LIGHTEST_GREEN);
    assert_eq!(bg[7], LIGHTEST_GREEN);
    assert_eq!(bg[8], DARKEST_GREEN);
    assert_eq!(bg[256 * 8], DARKEST_GREEN);

    // No scroll: the light tile shows at the viewport origin.
    let vp = ppu.transform_background_buffer_into_screen(&mmu);
    assert_eq!(vp[0], LIGHTEST_GREEN);
    assert_eq!(vp[8], DARKEST_GREEN);

    // Scroll x by 252: the light tile wraps around to columns 4..12.
    mmu.write_byte(0xFF43, 252);
    let vp = ppu.transform_background_buffer_into_screen(&mmu);
    assert_eq!(vp[0], DARKEST_GREEN);
    assert_eq!(vp[4], LIGHTEST_GREEN);
    assert_eq!(vp[11], LIGHTEST_GREEN);
    assert_eq!(vp[12], DARKEST_GREEN);
}

#[test]
fn compositor_runs_only_in_oam_scan_and_clears_flags() {
    let mut mmu = enabled_bus();
    let mut ppu = PPU::new();
    mmu.write_byte(0xFF47, 0b1110_0100);
    for k in 0..16u16 {
        mmu.write_byte(0x8000 + k, 0xFF);
    }
    assert!(mmu.dirty_vram_flag);
    // Step lands in Transfer: the dirty flag stays up, the viewport stays.
    ppu.step(100, &mut mmu);
    assert!(mmu.dirty_vram_flag);
    assert!(ppu.get_viewport().iter().all(|&px| px == LIGHTEST_GREEN));
    // Stepping across into the next line's OAM-scan consumes the flag.
    ppu.step(400, &mut mmu);
    assert!(!mmu.dirty_vram_flag);
    assert!(ppu.get_viewport().iter().all(|&px| px == DARKEST_GREEN));
}

#[test]
fn scroll_write_alone_recomposes_viewport() {
    let mut mmu = enabled_bus();
    let mut ppu = PPU::new();
    mmu.write_byte(0xFF47, 0b1110_0100);
    for k in 0..16u16 {
        mmu.write_byte(0x8000 + k, 0xFF);
    }
    mmu.write_byte(0x9800, 1);
    ppu.step(10, &mut mmu);
    assert_eq!(ppu.get_viewport()[0], LIGHTEST_GREEN);
    // Scrolling by one tile moves the light tile off the viewport origin.
    mmu.write_byte(0xFF43, 8);
    assert!(mmu.dirty_viewport_flag);
    ppu.step(456, &mut mmu);
    assert!(!mmu.dirty_viewport_flag);
    assert_eq!(ppu.get_viewport()[0], DARKEST_GREEN);
}

#[test]
fn boot_overlay_shadows_low_reads_until_latch_set() {
    let mut mmu = MMU::new();
    let boot: Vec<u8> = (0..256).map(|i| (i % 251) as u8).collect();
    mmu.load_boot_rom(&boot);
    mmu.from_rom_file(&[0xAA, 0xBB, 0xCC]);
    // With the latch clear, low reads come from the overlay.
    assert_eq!(mmu.read_byte(0x0000), 0);
    assert_eq!(mmu.read_byte(0x0001), 1);
    assert_eq!(mmu.read_byte(0x00FF), (255 % 251) as u8);
    // Writing the latch reveals general storage.
    mmu.write_byte(0xFF50, 1);
    assert_eq!(mmu.read_byte(0x0000), 0xAA);
    assert_eq!(mmu.read_byte(0x0001), 0xBB);
    assert_eq!(mmu.read_byte(0x0002), 0xCC);
}

#[test]
fn dirty_flags_rise_on_watched_writes_only() {
    let mut mmu = MMU::new();
    assert!(!mmu.dirty_vram_flag);
    assert!(!mmu.dirty_viewport_flag);
    mmu.write_byte(0xC000, 1);
    assert!(!mmu.dirty_vram_flag);
    mmu.write_byte(0x8000, 1);
    assert!(mmu.dirty_vram_flag);
    mmu.write_byte(0xFF42, 1);
    assert!(mmu.dirty_viewport_flag);
    let mut mmu2 = MMU::new();
    mmu2.write_byte(0x9FFF, 1);
    assert!(mmu2.dirty_vram_flag);
    mmu2.write_byte(0xA000, 1);
    mmu2.write_byte(0xFF43, 1);
    assert!(mmu2.dirty_viewport_flag);
}

#[test]
fn register_getters_read_the_bus() {
    let mut mmu = MMU::new();
    mmu.write_byte(0xFF40, 0x91);
    mmu.write_byte(0xFF47, 0xE4);
    mmu.write_byte(0xFF42, 0x12);
    mmu.write_byte(0xFF43, 0x34);
    mmu.write_byte(0xFF44, 0x56);
    mmu.write_byte(0xFF45, 0x78);
    let ppu = PPU::new();
    assert_eq!(ppu.get_lcdc(&mmu), 0x91);
    assert_eq!(ppu.get_bgp(&mmu), 0xE4);
    assert_eq!(ppu.get_scy(&mmu), 0x12);
    assert_eq!(ppu.get_scx(&mmu), 0x34);
    assert_eq!(ppu.get_ly(&mmu), 0x56);
    assert_eq!(ppu.get_lyc(&mmu), 0x78);
    assert!(ppu.is_lcd_enable(&mmu));
    mmu.write_byte(0xFF40, 0x7F);
    assert!(!ppu.is_lcd_enable(&mmu));
    assert_eq!(ppu.get_background_buffer().len(), 65536);
}
