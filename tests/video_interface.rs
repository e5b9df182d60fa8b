use rustcube_io::video_interface::{
    clamp, convert_frame, yuv_to_rgb, DisplayConfig, HorizontalTiming, VBlankTiming,
    VerticalTiming, ViError, VideoInterface, BEAM_POSITION_VERTICAL, CLOCK_SELECT, DISPLAY_CONFIG,
    DISPLAY_INTERRUPT_0_HI, FB_TOP_LEFT_HI, FILTER_COEFFICIENT_0_HI, FRAME_BYTES, FRAME_PIXELS,
    HORIZONTAL_TIMING_0_HI, VERTICAL_TIMING,
};

fn blank_ram() -> Vec<u8> {
    vec![0u8; FRAME_BYTES]
}

#[test]
fn clamp_limits_to_byte_range() {
    assert_eq!(clamp(-5), 0);
    assert_eq!(clamp(0), 0);
    assert_eq!(clamp(100), 100);
    assert_eq!(clamp(255), 255);
    assert_eq!(clamp(256), 255);
    assert_eq!(clamp(1_000_000), 255);
}

#[test]
fn yuv_black_is_zero() {
    assert_eq!(yuv_to_rgb(16, 128, 128), 0);
}

#[test]
fn yuv_white_is_near_white() {
    assert_eq!(yuv_to_rgb(235, 128, 128), 0x00FE_FEFE);
}

#[test]
fn yuv_exact_values() {
    assert_eq!(yuv_to_rgb(126, 128, 128), 0x0080_8080);
    assert_eq!(yuv_to_rgb(41, 240, 110), 0x00FF_0000);
    assert_eq!(yuv_to_rgb(145, 54, 34), 0x0000_FF00);
    assert_eq!(yuv_to_rgb(0, 0, 0), 0x0000_8700);
    assert_eq!(yuv_to_rgb(81, 90, 240), 0x0000_00FE);
    assert_eq!(yuv_to_rgb(255, 255, 255), 0x00FF_7DFF);
}

#[test]
fn convert_constant_quad_frame() {
    let mut ram = vec![0u8; 8 + FRAME_BYTES];
    for q in 0..FRAME_BYTES / 4 {
        ram[8 + 4 * q] = 126;
        ram[8 + 4 * q + 1] = 128;
        ram[8 + 4 * q + 2] = 235;
        ram[8 + 4 * q + 3] = 128;
    }
    let frame = convert_frame(&ram, 8);
    assert_eq!(frame.len(), FRAME_PIXELS);
    for k in 0..FRAME_PIXELS {
        if k % 2 == 0 {
            assert_eq!(frame[k], yuv_to_rgb(126, 128, 128));
        } else {
            assert_eq!(frame[k], yuv_to_rgb(235, 128, 128));
        }
    }
}

#[test]
fn convert_single_value_frame() {
    let mut ram = vec![0u8; FRAME_BYTES];
    for q in 0..FRAME_BYTES / 4 {
        ram[4 * q] = 41;
        ram[4 * q + 1] = 110;
        ram[4 * q + 2] = 41;
        ram[4 * q + 3] = 240;
    }
    let frame = convert_frame(&ram, 0);
    assert!(frame.iter().all(|&p| p == 0x00FF_0000));
}

#[test]
fn display_config_round_trip() {
    let c = DisplayConfig::decode(0x02D5);
    assert_eq!(c.format, 2);
    assert_eq!(c.display_latch_0, 3);
    assert_eq!(c.display_latch_1, 1);
    assert!(!c.display_mode_3d);
    assert!(c.interlaced);
    assert!(!c.reset);
    assert!(c.enable);
    assert_eq!(c.as_u16(), 0x02D5);
    assert_eq!(DisplayConfig::decode(0xFFFF).as_u16(), 0x03FF);
    assert_eq!(DisplayConfig::decode(c.as_u16()), c);
    assert_eq!(DisplayConfig::new().as_u16(), 0);
}

#[test]
fn vertical_timing_decode() {
    let t = VerticalTiming::decode(0xABCD);
    assert_eq!(t.active_video, 0x2BC);
    assert_eq!(t.equalization, 0xD);
}

#[test]
fn horizontal_timing_setters() {
    let mut t = HorizontalTiming::new();
    t.set_hi(0xFFFF);
    assert_eq!(t.horizontal_sync_start, 0x7F);
    assert_eq!(t.horizontal_sync_end, 0x7F);
    t.set_lo(0xFFFF);
    assert_eq!(t.halfline_width, 0x1FF);
    t.set_lo_1(0x1234);
    assert_eq!(t.horizontal_blank_end, 0x1234 >> 7);
    assert_eq!(t.horizontal_sync_width, 0x34);
    t.set_hi_1(0x0403);
    assert_eq!(t.halfline_blank_start, 0x201);
    assert_eq!(t.horizontal_blank_end, (0x1234 >> 7) | 0x200);
}

#[test]
fn vblank_timing_setters() {
    let mut t = VBlankTiming::new();
    t.set_hi(0x1111);
    t.set_lo(0x2222);
    assert_eq!(t.post_blanking, 0x1111);
    assert_eq!(t.pre_blanking, 0x2222);
}

#[test]
fn reads_do_not_advance_while_disabled() {
    let ram = blank_ram();
    let mut vi = VideoInterface::new();
    assert_eq!(vi.read_u16(BEAM_POSITION_VERTICAL, &ram), Ok(1));
    assert_eq!(vi.read_u16(BEAM_POSITION_VERTICAL, &ram), Ok(1));
    assert_eq!(vi.read_u16(DISPLAY_CONFIG, &ram), Ok(0));
    assert_eq!(vi.read_u16(DISPLAY_INTERRUPT_0_HI, &ram), Ok(0));
}

#[test]
fn ntsc_beam_wraps_once_per_field() {
    let mut ram = blank_ram();
    for q in 0..FRAME_BYTES / 4 {
        ram[4 * q] = 235;
        ram[4 * q + 1] = 128;
        ram[4 * q + 2] = 235;
        ram[4 * q + 3] = 128;
    }
    let mut vi = VideoInterface::new();
    assert_eq!(vi.write_u16(DISPLAY_CONFIG, 0x0001), Ok(()));
    for line in 2..=525u16 {
        assert_eq!(vi.read_u16(BEAM_POSITION_VERTICAL, &ram), Ok(line));
        assert!(!vi.take_frame());
    }
    assert_eq!(vi.read_u16(BEAM_POSITION_VERTICAL, &ram), Ok(1));
    assert!(vi.take_frame());
    assert!(!vi.take_frame());
    assert_eq!(vi.buffer().len(), FRAME_PIXELS);
    assert!(vi.buffer().iter().all(|&p| p == 0x00FE_FEFE));
    assert_eq!(vi.read_u16(BEAM_POSITION_VERTICAL, &ram), Ok(2));
    assert_eq!(vi.read_u16(DISPLAY_CONFIG, &ram), Ok(0x0001));
}

#[test]
fn pal_beam_does_not_wrap_at_ntsc_height() {
    let ram = blank_ram();
    let mut vi = VideoInterface::new();
    assert_eq!(vi.write_u16(DISPLAY_CONFIG, 0x0101), Ok(()));
    for _ in 0..600 {
        vi.update(&ram);
    }
    assert_eq!(vi.beam_position(), 601);
    assert!(!vi.take_frame());
}

#[test]
fn unmapped_vi_registers_are_rejected() {
    let ram = blank_ram();
    let mut vi = VideoInterface::new();
    assert_eq!(vi.write_u16(0x7E, 1), Err(ViError::UnmappedRegister(0x7E)));
    assert_eq!(vi.write_u16(0x05, 1), Err(ViError::UnmappedRegister(0x05)));
    assert_eq!(vi.read_u16(0x7E, &ram), Err(ViError::UnmappedRegister(0x7E)));
    assert_eq!(vi.write_u32(0x20, 1), Err(ViError::UnmappedRegister(0x20)));
}

#[test]
fn inert_vi_registers_accept_writes() {
    let mut vi = VideoInterface::new();
    assert_eq!(vi.write_u16(FILTER_COEFFICIENT_0_HI, 0xFFFF), Ok(()));
    assert_eq!(vi.write_u16(0x66, 0xFFFF), Ok(()));
    assert_eq!(vi.write_u16(0x48, 0xFFFF), Ok(()));
    assert_eq!(vi.write_u16(0x70, 0xFFFF), Ok(()));
    assert_eq!(vi.write_u16(VERTICAL_TIMING, 0x0F06), Ok(()));
    assert_eq!(vi.write_u16(HORIZONTAL_TIMING_0_HI, 0x4769), Ok(()));
    assert_eq!(vi.write_u16(CLOCK_SELECT, 1), Ok(()));
    assert_eq!(vi.display_config().as_u16(), 0);
}

#[test]
fn top_field_base_keeps_low_24_bits() {
    let mut vi = VideoInterface::new();
    assert_eq!(vi.write_u32(FB_TOP_LEFT_HI, 0x1234_5678), Ok(()));
    assert_eq!(vi.top_field_base(), 0x0034_5678);
}

#[test]
fn default_video_interface_is_reset() {
    let vi = VideoInterface::default();
    assert_eq!(vi.beam_position(), 1);
    assert_eq!(vi.top_field_base(), 0);
    assert_eq!(vi.display_config(), DisplayConfig::new());
    assert!(vi.buffer().iter().all(|&p| p == 0));
}

#[test]
fn reads_need_no_memory_until_scan_out() {
    let mut vi = VideoInterface::new();
    assert_eq!(vi.read_u16(BEAM_POSITION_VERTICAL, &[]), Ok(1));
    assert_eq!(vi.write_u16(DISPLAY_CONFIG, 0x0001), Ok(()));
    assert!(!vi.next_read_scans_out());
    for _ in 0..523 {
        vi.update(&[]);
    }
    assert_eq!(vi.beam_position(), 524);
    assert_eq!(vi.read_u16(BEAM_POSITION_VERTICAL, &[]), Ok(525));
    assert!(vi.next_read_scans_out());
}
