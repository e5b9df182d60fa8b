use vstd::prelude::*;

verus! {

/// The value `x` restricted to the range 0..=255.
pub open spec fn clamp_spec(x: int) -> int {
    if x < 0 {
        0
    } else if x > 255 {
        255
    } else {
        x
    }
}

/// Restricts `x` to the range 0..=255.
pub fn clamp(x: i32) -> (r: i32)
    ensures
        r == clamp_spec(x as int),
{
    if x < 0 {
        0
    } else if x > 255 {
        255
    } else {
        x
    }
}

/// Luma/chroma to packed RGB in the layout `b << 16 | g << 8 | r`, BT.601 integer
/// coefficients in 16.16 fixed point, each channel clamped to a byte.
pub open spec fn rgb_spec(y: int, u: int, v: int) -> int {
    let r = clamp_spec((76283 * (y - 16) + 104595 * (v - 128)) / 65536);
    let g = clamp_spec((76283 * (y - 16) - 53281 * (v - 128) - 25624 * (u - 128)) / 65536);
    let b = clamp_spec((76283 * (y - 16) + 132252 * (u - 128)) / 65536);
    b * 65536 + g * 256 + r
}

/// Arithmetic shift right by 16: floor division by 65536.
fn shr16(x: i32) -> (r: i32)
    ensures
        r == x as int / 65536,
{
    assert(x >= 0 ==> (x >> 16) == x / 65536) by (bit_vector);
    assert(x < 0 ==> (x >> 16) < 0 && (x >> 16) >= -32768) by (bit_vector);
    assert(x < 0 ==> 65536 * (x >> 16) <= x < 65536 * (x >> 16) + 65536) by (bit_vector);
    x >> 16
}

/// Converts one pixel from YUV (each component a byte) to packed RGB.
pub fn yuv_to_rgb(y: i32, u: i32, v: i32) -> (rgb: u32)
    requires
        0 <= y <= 255,
        0 <= u <= 255,
        0 <= v <= 255,
    ensures
        rgb as int == rgb_spec(y as int, u as int, v as int),
{
    let ly: i32 = y - 16;
    let cu: i32 = u - 128;
    let cv: i32 = v - 128;
    assert(-1220528 <= 76283 * ly <= 18231637) by (nonlinear_arith)
        requires -16 <= ly <= 239;
    assert(-13388160 <= 104595 * cv <= 13283565) by (nonlinear_arith)
        requires -128 <= cv <= 127;
    assert(-6819968 <= 53281 * cv <= 6766687) by (nonlinear_arith)
        requires -128 <= cv <= 127;
    assert(-3279872 <= 25624 * cu <= 3254248) by (nonlinear_arith)
        requires -128 <= cu <= 127;
    assert(-16928256 <= 132252 * cu <= 16796004) by (nonlinear_arith)
        requires -128 <= cu <= 127;
    let r = clamp(shr16(76283 * ly + 104_595 * cv)) as u32;
    let g = clamp(shr16(76283 * ly - 53281 * cv - 25624 * cu)) as u32;
    let b = clamp(shr16(76283 * ly + 132_252 * cu)) as u32;
    assert((b << 16) | (g << 8) | r == b * 65536 + g * 256 + r) by (bit_vector)
        requires b <= 255, g <= 255, r <= 255;
    (b << 16) | (g << 8) | r
}


/// Offset of the vertical timing register.
pub const VERTICAL_TIMING: u32 = 0x00;
/// Offset of the display configuration register.
pub const DISPLAY_CONFIG: u32 = 0x02;
pub const HORIZONTAL_TIMING_0_HI: u32 = 0x04;
pub const HORIZONTAL_TIMING_0_LO: u32 = 0x06;
pub const HORIZONTAL_TIMING_1_HI: u32 = 0x08;
pub const HORIZONTAL_TIMING_1_LO: u32 = 0x0A;
/// Pre- and post-blanking interval of odd fields.
pub const VERTICAL_TIMING_ODD_HI: u32 = 0x0C;
pub const VERTICAL_TIMING_ODD_LO: u32 = 0x0E;
/// Pre- and post-blanking interval of even fields.
pub const VERTICAL_TIMING_EVEN_HI: u32 = 0x10;
pub const VERTICAL_TIMING_EVEN_LO: u32 = 0x12;
pub const BURST_BLANKING_ODD_HI: u32 = 0x14;
pub const BURST_BLANKING_ODD_LO: u32 = 0x16;
pub const BURST_BLANKING_EVEN_HI: u32 = 0x18;
pub const BURST_BLANKING_EVEN_LO: u32 = 0x1A;
/// Base address of the top field (32-bit register).
pub const FB_TOP_LEFT_HI: u32 = 0x1C;
/// Vertical beam position, in lines, counting from 1.
pub const BEAM_POSITION_VERTICAL: u32 = 0x2C;
pub const DISPLAY_INTERRUPT_0_HI: u32 = 0x30;
pub const DISPLAY_INTERRUPT_0_LO: u32 = 0x32;
pub const DISPLAY_INTERRUPT_1_HI: u32 = 0x34;
pub const DISPLAY_INTERRUPT_1_LO: u32 = 0x36;
/// Number of source pixels to be scaled.
pub const SCALING_WIDTH: u32 = 0x48;
pub const FILTER_COEFFICIENT_0_HI: u32 = 0x4C;
pub const FILTER_COEFFICIENT_6_LO: u32 = 0x66;
/// Video clock select: 27 MHz or 54 MHz.
pub const CLOCK_SELECT: u32 = 0x6C;
/// Horizontal stepping control; accepted and ignored.
pub const UNKNOWN: u32 = 0x70;

/// Width of the produced raster.
pub const WIDTH: usize = 640;
/// Height of the produced raster.
pub const HEIGHT: usize = 480;
/// Pixels in one produced raster.
pub const FRAME_PIXELS: usize = 307200;
/// Bytes of packed YUV read for one raster: two pixels per four bytes.
pub const FRAME_BYTES: usize = 614400;
/// Lines per NTSC field, after which the beam returns to line 1.
pub const NTSC_LINES: u16 = 525;

/// An error of a VI register access.
#[derive(Debug, Clone, Copy, PartialEq, Eq, Structural)]
pub enum ViError {
    /// No register is mapped at this offset for an access of this width.
    UnmappedRegister(u32),
}

pub open spec fn bit16(b: bool) -> u16 {
    if b {
        1
    } else {
        0
    }
}

/// The display configuration register.
#[derive(Debug, Clone, Copy, PartialEq, Eq, Structural)]
pub struct DisplayConfig {
    /// 0: NTSC, 1: PAL, 2: MPAL, 3: DEBUG.
    pub format: u8,
    pub display_latch_0: u8,
    pub display_latch_1: u8,
    pub display_mode_3d: bool,
    pub interlaced: bool,
    pub reset: bool,
    pub enable: bool,
}

impl DisplayConfig {
    /// Every field fits its bit width in the register.
    pub open spec fn wf(self) -> bool {
        self.format < 4 && self.display_latch_0 < 4 && self.display_latch_1 < 4
    }

    pub open spec fn spec_encode(self) -> u16 {
        ((self.format as u16) << 8u16) | ((self.display_latch_0 as u16) << 6u16) | ((
        self.display_latch_1 as u16) << 4u16) | (bit16(self.display_mode_3d) << 3u16) | (bit16(
            self.interlaced,
        ) << 2u16) | (bit16(self.reset) << 1u16) | bit16(self.enable)
    }

    pub open spec fn spec_decode(value: u16) -> DisplayConfig {
        DisplayConfig {
            format: ((value >> 8u16) & 3) as u8,
            display_latch_0: ((value >> 6u16) & 3) as u8,
            display_latch_1: ((value >> 4u16) & 3) as u8,
            display_mode_3d: (value & 8) != 0,
            interlaced: (value & 4) != 0,
            reset: (value & 2) != 0,
            enable: (value & 1) != 0,
        }
    }

    /// The register after a reset: every field zero.
    pub fn new() -> (r: DisplayConfig)
        ensures
            r == (DisplayConfig {
                format: 0,
                display_latch_0: 0,
                display_latch_1: 0,
                display_mode_3d: false,
                interlaced: false,
                reset: false,
                enable: false,
            }),
            r == DisplayConfig::spec_decode(0),
            r.spec_encode() == 0,
    {
        proof {
            lemma_display_config_encode_decode(0);
            assert(((0u16 >> 8u16) & 3) == 0 && ((0u16 >> 6u16) & 3) == 0 && ((0u16 >> 4u16) & 3)
                == 0 && (0u16 & 8) == 0 && (0u16 & 4) == 0 && (0u16 & 2) == 0 && (0u16 & 1) == 0 && (0u16 & 0x3FF) == 0)
                by (bit_vector);
        }
        DisplayConfig {
            format: 0,
            display_latch_0: 0,
            display_latch_1: 0,
            display_mode_3d: false,
            interlaced: false,
            reset: false,
            enable: false,
        }
    }

    /// Unpacks the register from its raw value.
    pub fn decode(value: u16) -> (r: DisplayConfig)
        ensures
            r == DisplayConfig::spec_decode(value),
            r.wf(),
    {
        assert(((value >> 8u16) & 3) < 4 && ((value >> 6u16) & 3) < 4 && ((value >> 4u16) & 3)
            < 4) by (bit_vector);
        DisplayConfig {
            format: ((value >> 8) & 3) as u8,
            display_latch_0: ((value >> 6) & 3) as u8,
            display_latch_1: ((value >> 4) & 3) as u8,
            display_mode_3d: (value & 8) != 0,
            interlaced: (value & 4) != 0,
            reset: (value & 2) != 0,
            enable: (value & 1) != 0,
        }
    }

    /// Packs the register into its raw value.
    pub fn as_u16(&self) -> (r: u16)
        ensures
            r == self.spec_encode(),
    {
        let mut value: u16 = 0;
        value = value | ((self.format as u16) << 8);
        value = value | ((self.display_latch_0 as u16) << 6);
        value = value | ((self.display_latch_1 as u16) << 4);
        value = value | ((self.display_mode_3d as u16) << 3);
        value = value | ((self.interlaced as u16) << 2);
        value = value | ((self.reset as u16) << 1);
        value = value | (self.enable as u16);
        assert(value == self.spec_encode()) by {
            assert(0u16 | ((self.format as u16) << 8u16) == ((self.format as u16) << 8u16))
                by (bit_vector);
        }
        value
    }
}

/// Decoding an encoded display configuration gives it back.
pub proof fn lemma_display_config_round_trip(c: DisplayConfig)
    requires
        c.wf(),
    ensures
        DisplayConfig::spec_decode(c.spec_encode()) == c,
{
    let f = c.format as u16;
    let l0 = c.display_latch_0 as u16;
    let l1 = c.display_latch_1 as u16;
    let m = bit16(c.display_mode_3d);
    let i = bit16(c.interlaced);
    let r = bit16(c.reset);
    let e = bit16(c.enable);
    let v = c.spec_encode();
    assert(v == (f << 8u16) | (l0 << 6u16) | (l1 << 4u16) | (m << 3u16) | (i << 2u16) | (r
        << 1u16) | e);
    assert(((v >> 8u16) & 3) == f && ((v >> 6u16) & 3) == l0 && ((v >> 4u16) & 3) == l1 && ((v
        & 8) != 0) == (m == 1) && ((v & 4) != 0) == (i == 1) && ((v & 2) != 0) == (r == 1) && ((v
        & 1) != 0) == (e == 1)) by (bit_vector)
        requires
            v == (f << 8u16) | (l0 << 6u16) | (l1 << 4u16) | (m << 3u16) | (i << 2u16) | (r
                << 1u16) | e,
            f < 4,
            l0 < 4,
            l1 < 4,
            m <= 1,
            i <= 1,
            r <= 1,
            e <= 1,
    ;
}

/// Encoding a decoded display configuration keeps exactly the register's ten
/// defined bits of the raw value.
pub proof fn lemma_display_config_encode_decode(value: u16)
    ensures
        DisplayConfig::spec_decode(value).spec_encode() == value & 0x3FF,
{
    let c = DisplayConfig::spec_decode(value);
    let f = c.format as u16;
    let l0 = c.display_latch_0 as u16;
    let l1 = c.display_latch_1 as u16;
    assert(f == ((value >> 8u16) & 3) && l0 == ((value >> 6u16) & 3) && l1 == ((value >> 4u16)
        & 3)) by {
        assert(((value >> 8u16) & 3) < 4 && ((value >> 6u16) & 3) < 4 && ((value >> 4u16) & 3)
            < 4) by (bit_vector);
    }
    let m = bit16(c.display_mode_3d);
    let i = bit16(c.interlaced);
    let r = bit16(c.reset);
    let e = bit16(c.enable);
    assert(m == (value & 8) >> 3u16 && i == (value & 4) >> 2u16 && r == (value & 2) >> 1u16
        && e == (value & 1)) by {
        assert(((value & 8) != 0) == ((value & 8) >> 3u16 == 1) && ((value & 8) == 0) == ((value
            & 8) >> 3u16 == 0) && ((value & 4) != 0) == ((value & 4) >> 2u16 == 1) && ((value & 4)
            == 0) == ((value & 4) >> 2u16 == 0) && ((value & 2) != 0) == ((value & 2) >> 1u16 == 1)
            && ((value & 2) == 0) == ((value & 2) >> 1u16 == 0) && ((value & 1) != 0) == ((value
            & 1) == 1)) by (bit_vector);
    }
    assert((((value >> 8u16) & 3) << 8u16) | (((value >> 6u16) & 3) << 6u16) | (((value >> 4u16)
        & 3) << 4u16) | (((value & 8) >> 3u16) << 3u16) | (((value & 4) >> 2u16) << 2u16) | (((
    value & 2) >> 1u16) << 1u16) | (value & 1) == value & 0x3FF) by (bit_vector);
}

/// The vertical timing register; write-only.
#[derive(Debug, Clone, Copy, PartialEq, Eq, Structural)]
pub struct VerticalTiming {
    /// Active video lines per field.
    pub active_video: u16,
    /// Equalization pulse, in half lines.
    pub equalization: u8,
}

impl VerticalTiming {
    pub fn new() -> (r: VerticalTiming)
        ensures
            r.active_video == 0,
            r.equalization == 0,
    {
        VerticalTiming { active_video: 0, equalization: 0 }
    }

    pub open spec fn spec_decode(value: u16) -> VerticalTiming {
        VerticalTiming { active_video: (value >> 4u16) & 0x3FF, equalization: (value & 0xF) as u8 }
    }

    /// Unpacks the register from its raw value.
    pub fn decode(value: u16) -> (r: VerticalTiming)
        ensures
            r == VerticalTiming::spec_decode(value),
            r.equalization as u16 == value & 0xF,
    {
        assert(value & 0xF < 16) by (bit_vector);
        VerticalTiming { active_video: (value >> 4) & 0x3FF, equalization: (value & 0xF) as u8 }
    }
}

/// The two horizontal timing registers; write-only, each half set on its own.
#[derive(Debug, Clone, Copy, PartialEq, Eq, Structural)]
pub struct HorizontalTiming {
    pub horizontal_sync_start: u8,
    pub horizontal_sync_end: u8,
    pub halfline_width: u16,
    pub halfline_blank_start: u16,
    pub horizontal_blank_end: u16,
    pub horizontal_sync_width: u8,
}

impl HorizontalTiming {
    pub fn new() -> (r: HorizontalTiming)
        ensures
            r == (HorizontalTiming {
                horizontal_sync_start: 0,
                horizontal_sync_end: 0,
                halfline_width: 0,
                halfline_blank_start: 0,
                horizontal_blank_end: 0,
                horizontal_sync_width: 0,
            }),
    {
        HorizontalTiming {
            horizontal_sync_start: 0,
            horizontal_sync_end: 0,
            halfline_width: 0,
            halfline_blank_start: 0,
            horizontal_blank_end: 0,
            horizontal_sync_width: 0,
        }
    }

    pub open spec fn spec_set_hi(self, val: u16) -> HorizontalTiming {
        HorizontalTiming {
            horizontal_sync_start: ((val >> 8u16) & 0x7F) as u8,
            horizontal_sync_end: (val & 0x7F) as u8,
            ..self
        }
    }

    pub open spec fn spec_set_lo(self, val: u16) -> HorizontalTiming {
        HorizontalTiming { halfline_width: val & 0x1FF, ..self }
    }

    pub open spec fn spec_set_hi_1(self, val: u16) -> HorizontalTiming {
        HorizontalTiming {
            halfline_blank_start: (val >> 1u16) & 0x3FF,
            horizontal_blank_end: self.horizontal_blank_end | ((val & 1) << 9u16),
            ..self
        }
    }

    pub open spec fn spec_set_lo_1(self, val: u16) -> HorizontalTiming {
        HorizontalTiming {
            horizontal_blank_end: val >> 7u16,
            horizontal_sync_width: (val & 0x7F) as u8,
            ..self
        }
    }

    /// Sync start (bits 8..15, seven bits) and sync end (bits 0..7, seven bits).
    pub fn set_hi(&mut self, val: u16)
        ensures
            *final(self) == old(self).spec_set_hi(val),
    {
        self.horizontal_sync_start = ((val >> 8) & 0x7F) as u8;
        self.horizontal_sync_end = (val & 0x7F) as u8;
    }

    /// Half-line width: the low nine bits.
    pub fn set_lo(&mut self, val: u16)
        ensures
            *final(self) == old(self).spec_set_lo(val),
    {
        self.halfline_width = val & 0x1FF;
    }

    /// Half-line blank start (bits 1..10) and the top bit of the blank end (bit 0),
    /// which is merged into the blank end already held.
    pub fn set_hi_1(&mut self, val: u16)
        ensures
            *final(self) == old(self).spec_set_hi_1(val),
    {
        self.halfline_blank_start = (val >> 1) & 0x3FF;
        self.horizontal_blank_end = self.horizontal_blank_end | ((val & 1) << 9);
    }

    /// Blank end (bits 7..15) and sync width (bits 0..6).
    pub fn set_lo_1(&mut self, val: u16)
        ensures
            *final(self) == old(self).spec_set_lo_1(val),
    {
        self.horizontal_blank_end = val >> 7;
        self.horizontal_sync_width = (val & 0x7F) as u8;
    }
}

/// The blanking interval registers of one field parity; write-only.
#[derive(Debug, Clone, Copy, PartialEq, Eq, Structural)]
pub struct VBlankTiming {
    pub post_blanking: u16,
    pub pre_blanking: u16,
}

impl VBlankTiming {
    pub fn new() -> (r: VBlankTiming)
        ensures
            r.post_blanking == 0,
            r.pre_blanking == 0,
    {
        VBlankTiming { post_blanking: 0, pre_blanking: 0 }
    }

    /// The post-blanking interval.
    pub fn set_hi(&mut self, val: u16)
        ensures
            *final(self) == (VBlankTiming { post_blanking: val, ..*old(self) }),
    {
        self.post_blanking = val;
    }

    /// The pre-blanking interval.
    pub fn set_lo(&mut self, val: u16)
        ensures
            *final(self) == (VBlankTiming { pre_blanking: val, ..*old(self) }),
    {
        self.pre_blanking = val;
    }
}

/// The pixel at index `k` of the raster scanned out of `ram` from `base`: pixels
/// `2q` and `2q + 1` come from the quad (Y1, V, Y2, U) at `base + 4q` and share its
/// chroma.
pub open spec fn pixel(ram: Seq<u8>, base: int, k: int) -> u32 {
    let q = base + 4 * (k / 2);
    let y = if k % 2 == 0 {
        ram[q]
    } else {
        ram[q + 2]
    };
    rgb_spec(y as int, ram[q + 3] as int, ram[q + 1] as int) as u32
}

/// The raster scanned out of `ram` from `base`.
pub open spec fn frame_spec(ram: Seq<u8>, base: int) -> Seq<u32> {
    Seq::new(FRAME_PIXELS as nat, |k: int| pixel(ram, base, k))
}

/// Converts the packed YUV raster at `base` in `ram` to packed RGB.
pub fn convert_frame(ram: &[u8], base: u32) -> (frame: Vec<u32>)
    requires
        base + FRAME_BYTES <= ram@.len(),
    ensures
        frame@ == frame_spec(ram@, base as int),
{
    let mut frame: Vec<u32> = Vec::new();
    let mut q: usize = 0;
    let start: usize = base as usize;
    let len: usize = ram.len();
    while q < FRAME_PIXELS / 2
        invariant
            start == base,
            len == ram@.len(),
            start + FRAME_BYTES <= ram@.len(),
            q <= FRAME_PIXELS / 2,
            frame@ == Seq::new(2 * q as nat, |k: int| pixel(ram@, base as int, k)),
        decreases FRAME_PIXELS / 2 - q,
    {
        assert(4 * q + 4 <= FRAME_BYTES);
        let at: usize = start + 4 * q;
        let y1 = ram[at] as i32;
        let v = ram[at + 1] as i32;
        let y2 = ram[at + 2] as i32;
        let u = ram[at + 3] as i32;
        frame.push(yuv_to_rgb(y1, u, v));
        frame.push(yuv_to_rgb(y2, u, v));
        proof {
            let ghost n = 2 * q + 2;
            assert forall|k: int| 0 <= k < n implies frame@[k] == pixel(ram@, base as int, k) by {
                if k == 2 * q {
                    assert(k / 2 == q && k % 2 == 0);
                } else if k == 2 * q + 1 {
                    assert(k / 2 == q && k % 2 == 1);
                }
            }
            assert(frame@ =~= Seq::new((2 * (q + 1)) as nat, |k: int| pixel(ram@, base as int, k)));
        }
        q = q + 1;
    }
    frame
}

/// The state of a video interface, as its contracts see it.
pub struct ViView {
    pub vertical_timing: VerticalTiming,
    pub horizontal_timing: HorizontalTiming,
    pub display_config: DisplayConfig,
    /// The vertical beam position, 1 after a reset.
    pub beam: u16,
    pub vertical_timing_odd: VBlankTiming,
    pub vertical_timing_even: VBlankTiming,
    /// false: 27 MHz, true: 54 MHz.
    pub clock_select: bool,
    /// Address of the top field's packed YUV raster in memory.
    pub top_field_base: u32,
    /// The most recently produced raster.
    pub frame: Seq<u32>,
    /// A raster was produced that has not been taken yet.
    pub frame_pending: bool,
}

/// The beam position one line further on; a 16-bit counter that leaves 0 out.
pub open spec fn next_beam(b: u16) -> u16 {
    if b == 0xFFFF {
        1
    } else {
        (b + 1) as u16
    }
}

/// The next advance ends an NTSC field and scans the raster out.
pub open spec fn scanout_due(v: ViView) -> bool {
    v.display_config.enable && v.display_config.format == 0 && next_beam(v.beam) > NTSC_LINES
}

/// The state after the advance that precedes every register read.
pub open spec fn advanced(v: ViView, ram: Seq<u8>) -> ViView {
    if !v.display_config.enable {
        v
    } else if scanout_due(v) {
        ViView { beam: 1, frame: frame_spec(ram, v.top_field_base as int), frame_pending: true, ..v }
    } else {
        ViView { beam: next_beam(v.beam), ..v }
    }
}

/// What a 16-bit read of `register` returns in state `v`.
pub open spec fn read_spec(v: ViView, register: u32) -> Result<u16, ViError> {
    if register == DISPLAY_CONFIG {
        Ok(v.display_config.spec_encode())
    } else if register == BEAM_POSITION_VERTICAL {
        Ok(v.beam)
    } else if register == DISPLAY_INTERRUPT_0_HI || register == DISPLAY_INTERRUPT_1_HI {
        Ok(0)
    } else {
        Err(ViError::UnmappedRegister(register))
    }
}

/// Registers that take 16-bit writes and keep nothing of them.
pub open spec fn is_inert_register(register: u32) -> bool {
    ||| BURST_BLANKING_ODD_HI <= register <= BURST_BLANKING_EVEN_LO && register % 2 == 0
    ||| DISPLAY_INTERRUPT_0_HI <= register <= DISPLAY_INTERRUPT_1_LO && register % 2 == 0
    ||| FILTER_COEFFICIENT_0_HI <= register <= FILTER_COEFFICIENT_6_LO && register % 2 == 0
    ||| register == SCALING_WIDTH
    ||| register == UNKNOWN
}

/// Registers that take 16-bit writes.
pub open spec fn is_writable_u16(register: u32) -> bool {
    ||| register <= VERTICAL_TIMING_EVEN_LO && register % 2 == 0
    ||| register == CLOCK_SELECT
    ||| is_inert_register(register)
}

/// The state after a 16-bit write of `val` to a writable `register`.
pub open spec fn written_u16(v: ViView, register: u32, val: u16) -> ViView {
    if register == VERTICAL_TIMING {
        ViView { vertical_timing: VerticalTiming::spec_decode(val), ..v }
    } else if register == DISPLAY_CONFIG {
        ViView { display_config: DisplayConfig::spec_decode(val), ..v }
    } else if register == HORIZONTAL_TIMING_0_HI {
        ViView { horizontal_timing: v.horizontal_timing.spec_set_hi(val), ..v }
    } else if register == HORIZONTAL_TIMING_0_LO {
        ViView { horizontal_timing: v.horizontal_timing.spec_set_lo(val), ..v }
    } else if register == HORIZONTAL_TIMING_1_HI {
        ViView { horizontal_timing: v.horizontal_timing.spec_set_hi_1(val), ..v }
    } else if register == HORIZONTAL_TIMING_1_LO {
        ViView { horizontal_timing: v.horizontal_timing.spec_set_lo_1(val), ..v }
    } else if register == VERTICAL_TIMING_ODD_HI {
        ViView {
            vertical_timing_odd: VBlankTiming { post_blanking: val, ..v.vertical_timing_odd },
            ..v
        }
    } else if register == VERTICAL_TIMING_ODD_LO {
        ViView {
            vertical_timing_odd: VBlankTiming { pre_blanking: val, ..v.vertical_timing_odd },
            ..v
        }
    } else if register == VERTICAL_TIMING_EVEN_HI {
        ViView {
            vertical_timing_even: VBlankTiming { post_blanking: val, ..v.vertical_timing_even },
            ..v
        }
    } else if register == VERTICAL_TIMING_EVEN_LO {
        ViView {
            vertical_timing_even: VBlankTiming { pre_blanking: val, ..v.vertical_timing_even },
            ..v
        }
    } else if register == CLOCK_SELECT {
        ViView { clock_select: val != 0, ..v }
    } else {
        v
    }
}

/// The video interface: timing and configuration registers, the beam position,
/// and the last raster scanned out of memory.
pub struct VideoInterface {
    vertical_timing: VerticalTiming,
    horizontal_timing: HorizontalTiming,
    display_config: DisplayConfig,
    vertical_beam_position: u16,
    vertical_timing_odd: VBlankTiming,
    vertical_timing_even: VBlankTiming,
    clock_select: bool,
    top_field_base_l: u32,
    buffer: Vec<u32>,
    frame_pending: bool,
}

impl View for VideoInterface {
    type V = ViView;

    closed spec fn view(&self) -> ViView {
        ViView {
            vertical_timing: self.vertical_timing,
            horizontal_timing: self.horizontal_timing,
            display_config: self.display_config,
            beam: self.vertical_beam_position,
            vertical_timing_odd: self.vertical_timing_odd,
            vertical_timing_even: self.vertical_timing_even,
            clock_select: self.clock_select,
            top_field_base: self.top_field_base_l,
            frame: self.buffer@,
            frame_pending: self.frame_pending,
        }
    }
}

/// The state of a video interface after a reset.
pub open spec fn initial_view() -> ViView {
    ViView {
        vertical_timing: VerticalTiming { active_video: 0, equalization: 0 },
        horizontal_timing: HorizontalTiming {
            horizontal_sync_start: 0,
            horizontal_sync_end: 0,
            halfline_width: 0,
            halfline_blank_start: 0,
            horizontal_blank_end: 0,
            horizontal_sync_width: 0,
        },
        display_config: DisplayConfig {
            format: 0,
            display_latch_0: 0,
            display_latch_1: 0,
            display_mode_3d: false,
            interlaced: false,
            reset: false,
            enable: false,
        },
        beam: 1,
        vertical_timing_odd: VBlankTiming { post_blanking: 0, pre_blanking: 0 },
        vertical_timing_even: VBlankTiming { post_blanking: 0, pre_blanking: 0 },
        clock_select: false,
        top_field_base: 0,
        frame: Seq::new(FRAME_PIXELS as nat, |k: int| 0u32),
        frame_pending: false,
    }
}

impl VideoInterface {
    /// The raster always holds a full frame.
    pub open spec fn wf(&self) -> bool {
        self@.frame.len() == FRAME_PIXELS
    }

    /// The memory reachable by a scan-out: the whole raster from the top-field base.
    pub open spec fn covers(&self, ram: Seq<u8>) -> bool {
        self@.top_field_base + FRAME_BYTES <= ram.len()
    }

    /// A video interface after a reset: display off, beam at line 1, black raster.
    pub fn new() -> (r: VideoInterface)
        ensures
            r.wf(),
            r@ == initial_view(),
    {
        let mut buffer: Vec<u32> = Vec::new();
        let mut k: usize = 0;
        while k < FRAME_PIXELS
            invariant
                k <= FRAME_PIXELS,
                buffer@ == Seq::new(k as nat, |i: int| 0u32),
            decreases FRAME_PIXELS - k,
        {
            buffer.push(0);
            k = k + 1;
            assert(buffer@ =~= Seq::new(k as nat, |i: int| 0u32));
        }
        VideoInterface {
            vertical_timing: VerticalTiming::new(),
            horizontal_timing: HorizontalTiming::new(),
            display_config: DisplayConfig::new(),
            vertical_beam_position: 1,
            vertical_timing_odd: VBlankTiming::new(),
            vertical_timing_even: VBlankTiming::new(),
            clock_select: false,
            top_field_base_l: 0,
            buffer,
            frame_pending: false,
        }
    }

    /// Advances the beam by one line while the display is enabled; at the end of an
    /// NTSC field the beam returns to line 1 and the raster is scanned out of `ram`.
    /// Returns whether a raster was produced.
    pub fn update(&mut self, ram: &[u8]) -> (converted: bool)
        requires
            old(self).wf(),
            scanout_due(old(self)@) ==> old(self).covers(ram@),
        ensures
            final(self).wf(),
            final(self)@ == advanced(old(self)@, ram@),
            converted == scanout_due(old(self)@),
    {
        if self.display_config.enable {
            let next: u16 = if self.vertical_beam_position == 0xFFFF {
                1
            } else {
                self.vertical_beam_position + 1
            };
            if self.display_config.format == 0 && next > NTSC_LINES {
                self.vertical_beam_position = 1;
                self.buffer = convert_frame(ram, self.top_field_base_l);
                self.frame_pending = true;
                return true;
            }
            self.vertical_beam_position = next;
        }
        false
    }

    /// A 16-bit register read. Every read first advances the beam (see `update`);
    /// an unmapped register is reported after that advance.
    pub fn read_u16(&mut self, register: u32, ram: &[u8]) -> (r: Result<u16, ViError>)
        requires
            old(self).wf(),
            scanout_due(old(self)@) ==> old(self).covers(ram@),
        ensures
            final(self).wf(),
            final(self)@ == advanced(old(self)@, ram@),
            r == read_spec(final(self)@, register),
    {
        self.update(ram);
        if register == DISPLAY_CONFIG {
            Ok(self.display_config.as_u16())
        } else if register == BEAM_POSITION_VERTICAL {
            Ok(self.vertical_beam_position)
        } else if register == DISPLAY_INTERRUPT_0_HI || register == DISPLAY_INTERRUPT_1_HI {
            Ok(0)
        } else {
            Err(ViError::UnmappedRegister(register))
        }
    }

    /// A 16-bit register write; an unmapped register changes nothing.
    pub fn write_u16(&mut self, register: u32, val: u16) -> (r: Result<(), ViError>)
        requires
            old(self).wf(),
        ensures
            final(self).wf(),
            r is Ok <==> is_writable_u16(register),
            r is Ok ==> final(self)@ == written_u16(old(self)@, register, val),
            r is Err ==> r == Err::<(), ViError>(ViError::UnmappedRegister(register))
                && final(self)@ == old(self)@,
    {
        if register == VERTICAL_TIMING {
            self.vertical_timing = VerticalTiming::decode(val);
        } else if register == DISPLAY_CONFIG {
            self.display_config = DisplayConfig::decode(val);
        } else if register == HORIZONTAL_TIMING_0_HI {
            self.horizontal_timing.set_hi(val);
        } else if register == HORIZONTAL_TIMING_0_LO {
            self.horizontal_timing.set_lo(val);
        } else if register == HORIZONTAL_TIMING_1_HI {
            self.horizontal_timing.set_hi_1(val);
        } else if register == HORIZONTAL_TIMING_1_LO {
            self.horizontal_timing.set_lo_1(val);
        } else if register == VERTICAL_TIMING_ODD_HI {
            self.vertical_timing_odd.set_hi(val);
        } else if register == VERTICAL_TIMING_ODD_LO {
            self.vertical_timing_odd.set_lo(val);
        } else if register == VERTICAL_TIMING_EVEN_HI {
            self.vertical_timing_even.set_hi(val);
        } else if register == VERTICAL_TIMING_EVEN_LO {
            self.vertical_timing_even.set_lo(val);
        } else if register == CLOCK_SELECT {
            self.clock_select = val != 0;
        } else if !inert_register(register) {
            return Err(ViError::UnmappedRegister(register));
        }
        Ok(())
    }

    /// A 32-bit register write: only the top-field base, of which the low 24 bits
    /// are kept. An unmapped register changes nothing.
    pub fn write_u32(&mut self, register: u32, val: u32) -> (r: Result<(), ViError>)
        requires
            old(self).wf(),
        ensures
            final(self).wf(),
            register == FB_TOP_LEFT_HI ==> r is Ok && final(self)@ == (ViView {
                top_field_base: val & 0x00FF_FFFF,
                ..old(self)@
            }),
            register != FB_TOP_LEFT_HI ==> r == Err::<(), ViError>(
                ViError::UnmappedRegister(register),
            ) && final(self)@ == old(self)@,
    {
        if register == FB_TOP_LEFT_HI {
            self.top_field_base_l = val & 0x00FF_FFFF;
            Ok(())
        } else {
            Err(ViError::UnmappedRegister(register))
        }
    }

    /// Reports whether a raster was produced since the last call, and clears that.
    pub fn take_frame(&mut self) -> (r: bool)
        ensures
            r == old(self)@.frame_pending,
            final(self)@ == (ViView { frame_pending: false, ..old(self)@ }),
    {
        let r = self.frame_pending;
        self.frame_pending = false;
        r
    }

    /// Whether the next advance (the next register read) scans out a raster, and so
    /// reads memory.
    pub fn next_read_scans_out(&self) -> (r: bool)
        ensures
            r == scanout_due(self@),
    {
        let next: u16 = if self.vertical_beam_position == 0xFFFF {
            1
        } else {
            self.vertical_beam_position + 1
        };
        self.display_config.enable && self.display_config.format == 0 && next > NTSC_LINES
    }

    /// The most recently produced raster, one packed RGB value per pixel.
    pub fn buffer(&self) -> (r: &Vec<u32>)
        ensures
            r@ == self@.frame,
    {
        &self.buffer
    }

    pub fn beam_position(&self) -> (r: u16)
        ensures
            r == self@.beam,
    {
        self.vertical_beam_position
    }

    pub fn display_config(&self) -> (r: DisplayConfig)
        ensures
            r == self@.display_config,
    {
        self.display_config
    }

    pub fn top_field_base(&self) -> (r: u32)
        ensures
            r == self@.top_field_base,
    {
        self.top_field_base_l
    }
}

impl Default for VideoInterface {
    fn default() -> (r: VideoInterface)
        ensures
            r.wf(),
            r@ == initial_view(),
    {
        VideoInterface::new()
    }
}

fn inert_register(register: u32) -> (r: bool)
    ensures
        r == is_inert_register(register),
{
    (BURST_BLANKING_ODD_HI <= register && register <= BURST_BLANKING_EVEN_LO && register % 2 == 0)
        || (DISPLAY_INTERRUPT_0_HI <= register && register <= DISPLAY_INTERRUPT_1_LO && register % 2
        == 0) || (FILTER_COEFFICIENT_0_HI <= register && register <= FILTER_COEFFICIENT_6_LO
        && register % 2 == 0) || register == SCALING_WIDTH || register == UNKNOWN
}

/// The state after `n` register reads, each advancing the beam.
pub open spec fn advance_n(v: ViView, ram: Seq<u8>, n: nat) -> ViView
    decreases n,
{
    if n == 0 {
        v
    } else {
        advanced(advance_n(v, ram, (n - 1) as nat), ram)
    }
}

/// How many of the first `n` advances from `v` end a field and scan out a raster.
pub open spec fn scanouts(v: ViView, ram: Seq<u8>, n: nat) -> nat
    decreases n,
{
    if n == 0 {
        0
    } else {
        scanouts(v, ram, (n - 1) as nat) + if scanout_due(advance_n(v, ram, (n - 1) as nat)) {
            1nat
        } else {
            0nat
        }
    }
}

/// With the display enabled in NTSC format and the beam on line `b` of the field,
/// the `k`-th read (k <= 525) sees line `b + k`, or `b + k - 525` once the field has
/// ended: from line 1 the reads see 2, 3, ..., 525, 1. No read but the one that
/// passes line 525 scans out a raster, and the configuration never changes.
pub proof fn lemma_ntsc_advances(v: ViView, ram: Seq<u8>, k: nat)
    requires
        v.display_config.enable,
        v.display_config.format == 0,
        1 <= v.beam <= NTSC_LINES,
        k <= NTSC_LINES,
    ensures
        advance_n(v, ram, k).display_config == v.display_config,
        advance_n(v, ram, k).beam == if v.beam + k <= NTSC_LINES {
            v.beam + k
        } else {
            v.beam + k - NTSC_LINES
        },
        scanouts(v, ram, k) == if v.beam + k <= NTSC_LINES {
            0int
        } else {
            1int
        },
    decreases k,
{
    if k > 0 {
        lemma_ntsc_advances(v, ram, (k - 1) as nat);
    }
}

/// With the display enabled in NTSC format, a beam on any line of the field is
/// back on that line after 525 reads, and exactly one of those reads (the one
/// that takes the beam past line 525) returns it to line 1 and scans out a raster.
/// Each read moves the beam by exactly one line.
pub proof fn lemma_ntsc_field_period(v: ViView, ram: Seq<u8>)
    requires
        v.display_config.enable,
        v.display_config.format == 0,
        1 <= v.beam <= NTSC_LINES,
    ensures
        advance_n(v, ram, NTSC_LINES as nat).beam == v.beam,
        scanouts(v, ram, NTSC_LINES as nat) == 1,
        v.beam < NTSC_LINES ==> advanced(v, ram).beam == v.beam + 1 && !scanout_due(v),
        v.beam == NTSC_LINES ==> advanced(v, ram).beam == 1 && scanout_due(v),
{
    lemma_ntsc_advances(v, ram, NTSC_LINES as nat);
}

/// The packed quad (Y1, V, Y2, U) at quad index `q` of the raster from `base`.
pub open spec fn quad_at(ram: Seq<u8>, base: int, q: int) -> (u8, u8, u8, u8) {
    (ram[base + 4 * q], ram[base + 4 * q + 1], ram[base + 4 * q + 2], ram[base + 4 * q + 3])
}

/// Memory that repeats one quad (Y1, V, Y2, U) over the whole raster scans out to
/// `yuv_to_rgb(Y1, U, V)` on every even pixel and `yuv_to_rgb(Y2, U, V)` on every
/// odd one; with Y1 == Y2 every pixel has that one value.
pub proof fn lemma_constant_quad_frame(ram: Seq<u8>, base: int, y1: u8, v: u8, y2: u8, u: u8)
    requires
        forall|q: int|
            0 <= q < FRAME_PIXELS / 2 ==> #[trigger] quad_at(ram, base, q) == (y1, v, y2, u),
    ensures
        frame_spec(ram, base).len() == FRAME_PIXELS,
        forall|k: int|
            0 <= k < FRAME_PIXELS ==> #[trigger] frame_spec(ram, base)[k] == if k % 2 == 0 {
                rgb_spec(y1 as int, u as int, v as int) as u32
            } else {
                rgb_spec(y2 as int, u as int, v as int) as u32
            },
        y1 == y2 ==> forall|k: int|
            0 <= k < FRAME_PIXELS ==> #[trigger] frame_spec(ram, base)[k] == rgb_spec(
                y1 as int,
                u as int,
                v as int,
            ) as u32,
{
    assert forall|k: int| 0 <= k < FRAME_PIXELS implies #[trigger] frame_spec(ram, base)[k] == if k
        % 2 == 0 {
        rgb_spec(y1 as int, u as int, v as int) as u32
    } else {
        rgb_spec(y2 as int, u as int, v as int) as u32
    } by {
        let q = k / 2;
        assert(quad_at(ram, base, q) == (y1, v, y2, u));
    }
}

} // verus!
