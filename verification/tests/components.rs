//! Component tests: color unpacking, ROM image handling, the input mapper,
//! the sync detector, and frame reconstruction.

use gigatron::color::{bright, makeRGB, unpack_color, Color};
use gigatron::cpu::{makeAddr, CpuState, Register, E};
use gigatron::frame::Frame;
use gigatron::machine::{hsync_edge, joy_mask, vsync_edge, Direction, Gigatron, RomError};

#[test]
fn bright_table_values() {
    assert_eq!(bright(0b00), 0x03);
    assert_eq!(bright(0b01), 0x0F);
    assert_eq!(bright(0b10), 0x3F);
    assert_eq!(bright(0b11), 0xFF);
}

#[test]
fn unpack_color_splits_channels() {
    // red = 0b10, green = 0b01, blue = 0b11
    let c = unpack_color(0b11_01_10);
    assert_eq!(c, Color(0x3F, 0x0F, 0xFF));
}

#[test]
fn unpack_color_ignores_top_bits() {
    assert_eq!(unpack_color(0b11_01_10), unpack_color(0b11_11_01_10));
}

#[test]
fn make_rgb_packs_bytes() {
    assert_eq!(makeRGB(&Color(0xAB, 0xCD, 0xEF)), 0x00AB_CDEF);
}

#[test]
fn distinct_pixel_codes_give_distinct_rgb() {
    for p in 0u8..64 {
        for q in 0u8..64 {
            let rp = makeRGB(&unpack_color(p));
            let rq = makeRGB(&unpack_color(q));
            assert_eq!(p == q, rp == rq);
        }
    }
}

#[test]
fn make_addr_joins_bytes() {
    assert_eq!(makeAddr(0x12, 0x34), 0x1234);
    assert_eq!(makeAddr(0x00, 0x00), 0x0000);
    assert_eq!(makeAddr(0xFF, 0xFF), 0xFFFF);
}

#[test]
fn enable_gate_blocks_target_on_write() {
    assert_eq!(E(true, Register::AC), None);
    assert_eq!(E(false, Register::AC), Some(Register::AC));
    assert_eq!(E(true, Register::OUT), None);
}

#[test]
fn cpu_state_new_is_zeroed() {
    let s = CpuState::new();
    assert_eq!(s.PC, 0);
    assert_eq!(s.IR, 0);
    assert_eq!(s.D, 0);
    assert_eq!(s.AC, 0);
    assert_eq!(s.X, 0);
    assert_eq!(s.Y, 0);
    assert_eq!(s.OUT, 0);
    assert_eq!(s.undef, 0);
}

#[test]
fn rom_round_trip_is_byte_identical() {
    let mut g = Gigatron::new();
    let mut image: Vec<u8> = Vec::with_capacity(131072);
    for i in 0..131072u32 {
        image.push((i.wrapping_mul(31) >> 3) as u8);
    }
    g.load_rom(&image).unwrap();
    let back = g.serialize_rom();
    assert_eq!(back, image);
}

#[test]
fn rom_entries_follow_image_layout() {
    let mut g = Gigatron::new();
    let mut image: Vec<u8> = vec![0u8; 131072];
    image[0] = 0xAA;
    image[1] = 0xBB;
    image[2 * 0x1234] = 0x11;
    image[2 * 0x1234 + 1] = 0x22;
    g.load_rom(&image).unwrap();
    assert_eq!(g.ROM[0].ir, 0xAA);
    assert_eq!(g.ROM[0].d, 0xBB);
    assert_eq!(g.ROM[0x1234].ir, 0x11);
    assert_eq!(g.ROM[0x1234].d, 0x22);
}

#[test]
fn rom_wrong_size_is_rejected() {
    let mut g = Gigatron::new();
    let short: Vec<u8> = vec![0u8; 131071];
    assert_eq!(g.load_rom(&short), Err(RomError::WrongSize));
    let long: Vec<u8> = vec![0u8; 131073];
    assert_eq!(g.load_rom(&long), Err(RomError::WrongSize));
    let empty: Vec<u8> = Vec::new();
    assert_eq!(g.load_rom(&empty), Err(RomError::WrongSize));
    // A rejected image leaves the ROM as it was.
    assert_eq!(g.ROM[0].ir, 0);
    assert_eq!(g.ROM[0].d, 0);
}

#[test]
fn init_keeps_rom_and_releases_input() {
    let mut g = Gigatron::new();
    let mut image: Vec<u8> = vec![0u8; 131072];
    image[100] = 0x42;
    g.load_rom(&image).unwrap();
    g.IN = 0;
    g.init();
    assert_eq!(g.IN, 0xFF);
    assert_eq!(g.ROM[50].ir, 0x42);
    assert_eq!(g.RAM.len(), 32768);
    assert_eq!(g.t, -2);
}

#[test]
fn sync_edges_are_falling_only() {
    assert!(vsync_edge(0x80, 0x00));
    assert!(!vsync_edge(0x00, 0x80));
    assert!(!vsync_edge(0x80, 0x80));
    assert!(!vsync_edge(0x00, 0x00));
    assert!(hsync_edge(0x40, 0x00));
    assert!(!hsync_edge(0x00, 0x40));
    assert!(!hsync_edge(0x40, 0x40));
    // Bit 6 does not disturb bit 7 and the other way round.
    assert!(vsync_edge(0xC0, 0x40));
    assert!(!vsync_edge(0x40, 0x80));
}

#[test]
fn joystick_masks_are_active_low() {
    assert_eq!(joy_mask(Direction::Right), 0b1111_1110);
    assert_eq!(joy_mask(Direction::Left), 0b1111_1101);
    assert_eq!(joy_mask(Direction::Down), 0b1111_1011);
    assert_eq!(joy_mask(Direction::Up), 0b1111_0111);
    assert_eq!(joy_mask(Direction::Start), 0b1110_1111);
    assert_eq!(joy_mask(Direction::Select), 0b1101_1111);
    assert_eq!(joy_mask(Direction::ButtonB), 0b1011_1111);
    assert_eq!(joy_mask(Direction::ButtonA), 0b0111_1111);
}

#[test]
fn joystick_writes_are_edge_triggered() {
    let mut g = Gigatron::new();
    g.process_joystick(Some(Direction::Up));
    assert_eq!(g.RAM[0x0011], 0b1111_0111);
    assert_eq!(g.RAM[0x0010], 0);
    // Same direction still held: no write.
    g.RAM[0x0011] = 0xFF;
    g.RAM[0x0010] = 9;
    g.process_joystick(Some(Direction::Up));
    assert_eq!(g.RAM[0x0011], 0xFF);
    assert_eq!(g.RAM[0x0010], 9);
    // A different direction writes again.
    g.process_joystick(Some(Direction::ButtonA));
    assert_eq!(g.RAM[0x0011], 0b0111_1111);
    assert_eq!(g.RAM[0x0010], 0);
    // Releasing everything writes nothing.
    g.RAM[0x0011] = 0x55;
    g.process_joystick(None);
    assert_eq!(g.RAM[0x0011], 0x55);
}

#[test]
fn key_goes_to_ram_and_clears_latch() {
    let mut g = Gigatron::new();
    g.RAM[0x0010] = 7;
    g.apply_key(b'A');
    assert_eq!(g.RAM[0x000F], 0x41);
    assert_eq!(g.RAM[0x0010], 0);
}

#[test]
fn frame_put_masks_alpha_and_clips() {
    let mut f = Frame::new(4, 3);
    f.put(1, 2, 0x00123456);
    assert_eq!(f.buffer[2 * 4 + 1], 0xFF123456);
    // Outside the surface: dropped.
    f.put(4, 0, 0x00FFFFFF);
    f.put(0, 3, 0x00FFFFFF);
    assert_eq!(f.buffer.iter().filter(|&&p| p == 0xFFFFFFFF).count(), 0);
}

#[test]
fn render2_reads_video_region_and_scales() {
    let mut g = Gigatron::new();
    g.RAM[2048] = 0x3F;  // source pixel (0, 0): all channels full
    g.RAM[2048 + 1] = 0x00;  // source pixel (1, 0): all channels dark
    g.RAM[2048 + 256] = 0x03;  // source pixel (0, 1): red only
    let mut f = Frame::new(640, 480);
    g.render2(&mut f);
    // Scale 4x4: host (0..4, 0..4) shows source (0, 0).
    assert_eq!(f.buffer[0], 0x00FFFFFF);
    assert_eq!(f.buffer[3], 0x00FFFFFF);
    assert_eq!(f.buffer[3 * 640 + 3], 0x00FFFFFF);
    // Host (4, 0) shows source (1, 0).
    assert_eq!(f.buffer[4], 0x00030303);
    // Host (0, 4) shows source (0, 1): red full, green and blue dark.
    assert_eq!(f.buffer[4 * 640], 0x00FF_0303);
}

#[test]
fn render_doubles_pixels_and_keeps_the_rest() {
    let mut g = Gigatron::new();
    g.RAM[2048] = 0x3F;
    let mut f = Frame::new(640, 480);
    f.buffer[300 * 640 + 500] = 0x12345678;
    g.render(&mut f);
    // The 2x2 block of source pixel (0, 0), written through put.
    assert_eq!(f.buffer[0], 0xFFFFFFFF);
    assert_eq!(f.buffer[1], 0xFFFFFFFF);
    assert_eq!(f.buffer[640], 0xFFFFFFFF);
    assert_eq!(f.buffer[641], 0xFFFFFFFF);
    // Dark source pixel (1, 0).
    assert_eq!(f.buffer[2], 0xFF030303);
    // Outside the 320x240 doubled image: untouched.
    assert_eq!(f.buffer[300 * 640 + 500], 0x12345678);
    assert_eq!(f.buffer[100 * 640 + 400], 0);
}
