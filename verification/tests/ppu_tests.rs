use gblite::ppu::PPU;
use gblite::ppu::PPUState;

#[test]
fn new_ppu_is_off() {
    let mut ppu = PPU::new();
    assert_eq!(ppu.state, PPUState::Off);
    assert!(!ppu.is_running());
    assert_eq!(ppu.width, 160);
    assert_eq!(ppu.height, 144);
    // Off: ticking does nothing and produces no frame.
    assert!(ppu.tick().is_none());
    assert_eq!(ppu.state, PPUState::Off);
    assert_eq!(ppu.ly, 0);
    assert_eq!(ppu.lclk, 0);
}

#[test]
fn start_resets_counters_and_produces_a_frame() {
    let mut ppu = PPU::new();
    let frame = ppu.start();
    assert_eq!(ppu.state, PPUState::OAMSearch);
    assert_eq!(ppu.ly, 0);
    assert_eq!(ppu.lclk, 0);
    assert!(ppu.is_running());
    assert_eq!(frame.len(), 160 * 144 * 3);
}

#[test]
fn frame_is_row_major_column_gradient() {
    let mut ppu = PPU::new();
    let frame = ppu.start();
    // Each pixel's three channels hold its column scaled onto 0-255.
    assert_eq!(frame[0], 0);
    assert_eq!(frame[1], 0);
    assert_eq!(frame[2], 0);
    let col80 = 80 * 255 / 160;
    assert_eq!(frame[3 * 80], col80 as u8);
    assert_eq!(frame[3 * 80 + 1], col80 as u8);
    let last_col = 159 * 255 / 160;
    assert_eq!(last_col, 253);
    assert_eq!(frame[3 * 159], 253);
    // The gradient repeats identically on every row.
    let row10 = 3 * (10 * 160 + 159);
    assert_eq!(frame[row10], 253);
    assert_eq!(frame[3 * (143 * 160 + 80)], col80 as u8);
}

#[test]
fn stop_turns_the_machine_off() {
    let mut ppu = PPU::new();
    let _ = ppu.start();
    ppu.stop();
    assert_eq!(ppu.state, PPUState::Off);
    assert!(!ppu.is_running());
    assert!(ppu.tick().is_none());
    assert_eq!(ppu.state, PPUState::Off);
}

#[test]
fn timing_walk_through_one_scanline() {
    // From (OAMSearch, dot 0, scanline 0): after 20 ticks the machine draws;
    // after 20+63 it is in horizontal blank; after 20+63+114 it draws
    // scanline 1.
    let mut ppu = PPU::new();
    let _ = ppu.start();
    for _ in 0..20 {
        let _ = ppu.tick();
    }
    assert_eq!(ppu.state, PPUState::Draw);
    assert_eq!(ppu.lclk, 0);
    for _ in 0..63 {
        let _ = ppu.tick();
    }
    assert_eq!(ppu.state, PPUState::HBlank);
    assert_eq!(ppu.lclk, 0);
    for _ in 0..114 {
        let _ = ppu.tick();
    }
    assert_eq!(ppu.state, PPUState::Draw);
    assert_eq!(ppu.ly, 1);
    assert_eq!(ppu.lclk, 0);
}

#[test]
fn vblank_entry_and_frame_wraparound() {
    let mut ppu = PPU::new();
    let _ = ppu.start();
    // Run until the vertical blank begins.
    let mut guard = 0u32;
    while ppu.state != PPUState::VBlank {
        let _ = ppu.tick();
        guard += 1;
        assert!(guard < 100_000);
    }
    assert_eq!(ppu.ly, 144);
    assert_eq!(ppu.lclk, 0);
    // Ten full vertical-blank scanlines of 114 dots each bring the machine
    // back to OAM search with the scanline reset.
    for _ in 0..1140 {
        let _ = ppu.tick();
    }
    assert_eq!(ppu.state, PPUState::OAMSearch);
    assert_eq!(ppu.ly, 0);
    assert_eq!(ppu.lclk, 0);
}

#[test]
fn frame_produced_once_per_scan_cycle() {
    let mut ppu = PPU::new();
    let _ = ppu.start();
    // The first completed OAMSearch-Draw-HBlank cycle ends on tick 197.
    let mut frames = 0u32;
    for n in 1..=197u32 {
        if let Some(frame) = ppu.tick() {
            frames += 1;
            assert_eq!(n, 197);
            assert_eq!(frame.len(), 160 * 144 * 3);
            assert_eq!(frame[3 * 159], 253);
        }
    }
    assert_eq!(frames, 1);
    assert_eq!(ppu.state, PPUState::Draw);
    assert_eq!(ppu.ly, 1);
    // The next cycle skips OAM search and ends 63+114 ticks later.
    let mut next = 0u32;
    for _ in 0..176 {
        assert!(ppu.tick().is_none());
        next += 1;
    }
    assert!(ppu.tick().is_some());
    assert_eq!(next, 176);
    assert_eq!(ppu.ly, 2);
}
