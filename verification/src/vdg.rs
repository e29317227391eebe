//! The Video Display Generator: renders the visible region of system RAM
//! into a 256 by 192 RGB framebuffer across five semigraphics modes, eight
//! graphics modes, and the alphanumeric interpretation inside SG4.

use vstd::prelude::*;

verus! {

/// The geometry of a mode: the pixel size of one cell and how many bits of
/// VRAM color each cell (one bit meaning luminance only).
#[derive(Clone, Copy, PartialEq, Eq, Structural, Debug)]
pub struct VdgModeDetails {
    pub cell_x: usize,
    pub cell_y: usize,
    pub color_bits: usize,
}

/// The display modes. Alpha modes are not wired up on this machine:
/// alphanumeric characters render through SG4.
#[derive(Clone, Copy, PartialEq, Eq, Structural, Debug)]
pub enum VdgMode {
    SG4,
    SG6,
    SG8,
    SG12,
    SG24,
    CG1,
    RG1,
    CG2,
    RG2,
    CG3,
    RG3,
    CG6,
    RG6,
}

impl VdgMode {
    /// The geometry of each mode.
    pub open spec fn details_spec(self) -> VdgModeDetails {
        match self {
            VdgMode::SG4 => VdgModeDetails { cell_x: 4, cell_y: 6, color_bits: 3 },
            VdgMode::SG6 => VdgModeDetails { cell_x: 4, cell_y: 4, color_bits: 2 },
            VdgMode::SG8 => VdgModeDetails { cell_x: 4, cell_y: 3, color_bits: 3 },
            VdgMode::SG12 => VdgModeDetails { cell_x: 4, cell_y: 2, color_bits: 3 },
            VdgMode::SG24 => VdgModeDetails { cell_x: 4, cell_y: 1, color_bits: 3 },
            VdgMode::CG1 => VdgModeDetails { cell_x: 4, cell_y: 3, color_bits: 2 },
            VdgMode::RG1 => VdgModeDetails { cell_x: 2, cell_y: 3, color_bits: 1 },
            VdgMode::CG2 => VdgModeDetails { cell_x: 2, cell_y: 3, color_bits: 2 },
            VdgMode::RG2 => VdgModeDetails { cell_x: 2, cell_y: 2, color_bits: 1 },
            VdgMode::CG3 => VdgModeDetails { cell_x: 2, cell_y: 2, color_bits: 2 },
            VdgMode::RG3 => VdgModeDetails { cell_x: 2, cell_y: 1, color_bits: 1 },
            VdgMode::CG6 => VdgModeDetails { cell_x: 2, cell_y: 1, color_bits: 2 },
            VdgMode::RG6 => VdgModeDetails { cell_x: 1, cell_y: 1, color_bits: 1 },
        }
    }

    pub fn get_details(&self) -> (d: VdgModeDetails)
        ensures
            d == self.details_spec(),
            1 <= d.cell_x <= 4 && 1 <= d.cell_y <= 6 && 1 <= d.color_bits <= 3,
    {
        match self {
            VdgMode::SG4 => VdgModeDetails { cell_x: 4, cell_y: 6, color_bits: 3 },
            VdgMode::SG6 => VdgModeDetails { cell_x: 4, cell_y: 4, color_bits: 2 },
            VdgMode::SG8 => VdgModeDetails { cell_x: 4, cell_y: 3, color_bits: 3 },
            VdgMode::SG12 => VdgModeDetails { cell_x: 4, cell_y: 2, color_bits: 3 },
            VdgMode::SG24 => VdgModeDetails { cell_x: 4, cell_y: 1, color_bits: 3 },
            VdgMode::CG1 => VdgModeDetails { cell_x: 4, cell_y: 3, color_bits: 2 },
            VdgMode::RG1 => VdgModeDetails { cell_x: 2, cell_y: 3, color_bits: 1 },
            VdgMode::CG2 => VdgModeDetails { cell_x: 2, cell_y: 3, color_bits: 2 },
            VdgMode::RG2 => VdgModeDetails { cell_x: 2, cell_y: 2, color_bits: 1 },
            VdgMode::CG3 => VdgModeDetails { cell_x: 2, cell_y: 2, color_bits: 2 },
            VdgMode::RG3 => VdgModeDetails { cell_x: 2, cell_y: 1, color_bits: 1 },
            VdgMode::CG6 => VdgModeDetails { cell_x: 2, cell_y: 1, color_bits: 2 },
            VdgMode::RG6 => VdgModeDetails { cell_x: 1, cell_y: 1, color_bits: 1 },
        }
    }

    /// The mode selected by the PIA's five VDG bits (the CSS bit stripped)
    /// and the SAM's three mode bits, exactly per the closed hardware table.
    pub open spec fn from_bits_spec(pia: u8, sam: u8) -> Option<VdgMode> {
        let p = pia & 0b11110;
        let gagm0 = p & 0b10010;
        if sam == 0 && gagm0 == 0 {
            Some(VdgMode::SG4)
        } else if sam == 0 && gagm0 == 2 {
            Some(VdgMode::SG6)
        } else if sam == 1 && p == 0b10000 {
            Some(VdgMode::CG1)
        } else if sam == 1 && p == 0b10010 {
            Some(VdgMode::RG1)
        } else if sam == 2 && gagm0 == 0 {
            Some(VdgMode::SG8)
        } else if sam == 2 && p == 0b10100 {
            Some(VdgMode::CG2)
        } else if sam == 3 && p == 0b10110 {
            Some(VdgMode::RG2)
        } else if sam == 4 && gagm0 == 0 {
            Some(VdgMode::SG12)
        } else if sam == 4 && p == 0b11000 {
            Some(VdgMode::CG3)
        } else if sam == 5 && p == 0b11010 {
            Some(VdgMode::RG3)
        } else if sam == 6 && gagm0 == 0 {
            Some(VdgMode::SG24)
        } else if sam == 6 && p == 0b11100 {
            Some(VdgMode::CG6)
        } else if sam == 6 && p == 0b11110 {
            Some(VdgMode::RG6)
        } else {
            None
        }
    }

    /// Combines the PIA and SAM mode bits into a mode; an unrecognized
    /// combination is `None`.
    pub fn try_from_pia_and_sam(pia: u8, sam: u8) -> (r: Option<VdgMode>)
        ensures
            r == VdgMode::from_bits_spec(pia, sam),
    {
        let p = pia & 0b11110;
        let gagm0 = p & 0b10010;
        if sam == 0 && gagm0 == 0 {
            Some(VdgMode::SG4)
        } else if sam == 0 && gagm0 == 2 {
            Some(VdgMode::SG6)
        } else if sam == 1 && p == 0b10000 {
            Some(VdgMode::CG1)
        } else if sam == 1 && p == 0b10010 {
            Some(VdgMode::RG1)
        } else if sam == 2 && gagm0 == 0 {
            Some(VdgMode::SG8)
        } else if sam == 2 && p == 0b10100 {
            Some(VdgMode::CG2)
        } else if sam == 3 && p == 0b10110 {
            Some(VdgMode::RG2)
        } else if sam == 4 && gagm0 == 0 {
            Some(VdgMode::SG12)
        } else if sam == 4 && p == 0b11000 {
            Some(VdgMode::CG3)
        } else if sam == 5 && p == 0b11010 {
            Some(VdgMode::RG3)
        } else if sam == 6 && gagm0 == 0 {
            Some(VdgMode::SG24)
        } else if sam == 6 && p == 0b11100 {
            Some(VdgMode::CG6)
        } else if sam == 6 && p == 0b11110 {
            Some(VdgMode::RG6)
        } else {
            None
        }
    }
}

/// The fixed nine-color palette.
#[derive(Clone, Copy, PartialEq, Eq, Structural, Debug)]
pub enum Color {
    Black,
    Green,
    Yellow,
    Blue,
    Red,
    Buff,
    Cyan,
    Magenta,
    Orange,
}

impl Color {
    /// The packed 0x00RRGGBB value of each palette entry.
    pub open spec fn rgb_spec(self) -> u32 {
        match self {
            Color::Black => 0,
            Color::Green => 0x0020e000,
            Color::Yellow => 0x00fff000,
            Color::Blue => 0x000000ff,
            Color::Red => 0x00f00000,
            Color::Buff => 0x00e0e0e0,
            Color::Cyan => 0x0000efff,
            Color::Magenta => 0x00d000d0,
            Color::Orange => 0x00f06000,
        }
    }

    pub fn to_rgb(self) -> (v: u32)
        ensures
            v == self.rgb_spec(),
    {
        match self {
            Color::Black => 0,
            Color::Green => 0x0020e000,
            Color::Yellow => 0x00fff000,
            Color::Blue => 0x000000ff,
            Color::Red => 0x00f00000,
            Color::Buff => 0x00e0e0e0,
            Color::Cyan => 0x0000efff,
            Color::Magenta => 0x00d000d0,
            Color::Orange => 0x00f06000,
        }
    }

    /// The palette entry of a color code; anything out of range is black.
    pub open spec fn from_code_spec(code: u8) -> Color {
        if code == 1 {
            Color::Green
        } else if code == 2 {
            Color::Yellow
        } else if code == 3 {
            Color::Blue
        } else if code == 4 {
            Color::Red
        } else if code == 5 {
            Color::Buff
        } else if code == 6 {
            Color::Cyan
        } else if code == 7 {
            Color::Magenta
        } else if code == 8 {
            Color::Orange
        } else {
            Color::Black
        }
    }

    pub fn from_code(color_code: u8) -> (c: Color)
        ensures
            c == Color::from_code_spec(color_code),
    {
        match color_code {
            1 => Color::Green,
            2 => Color::Yellow,
            3 => Color::Blue,
            4 => Color::Red,
            5 => Color::Buff,
            6 => Color::Cyan,
            7 => Color::Magenta,
            8 => Color::Orange,
            _ => Color::Black,
        }
    }

    /// A semigraphics 3-bit foreground color.
    pub fn from_3bits(bits: u8) -> (c: Color)
        requires
            bits < 8,
        ensures
            c == Color::from_code_spec((bits + 1) as u8),
    {
        Color::from_code(bits + 1)
    }

    /// A graphics 2-bit color; CSS selects between the two 4-color palettes.
    pub fn from_2bits(bits: u8, css: bool) -> (c: Color)
        requires
            bits < 4,
        ensures
            c == Color::from_code_spec(
                (1 + (bits | (if css {
                    4u8
                } else {
                    0u8
                }))) as u8,
            ),
    {
        proof {
            let b = bits;
            assert(b < 4 ==> (b | 4) < 8 && (b | 0) < 8) by (bit_vector);
        }
        Color::from_code(1 + (bits | (if css {
            4
        } else {
            0
        })))
    }
}

/// A character cell: where its glyph starts in the font bitmap, and whether
/// foreground and background are swapped.
#[derive(Clone, Copy, PartialEq, Eq, Structural, Debug)]
pub struct Char {
    pub font_index: usize,
    pub inverted: bool,
}

impl Char {
    /// Interprets a byte as ASCII: control codes map to space, 0x20-0x3f
    /// directly, 0x40-0x7f to their low five bits with inversion above 0x5f;
    /// bytes with the high bit set are not characters.
    pub open spec fn from_ascii_spec(byte: u8) -> Option<Char> {
        if byte >= 0x80 {
            None
        } else {
            let i: u8 = if byte < 0x20 {
                0x20
            } else if byte < 0x40 {
                byte
            } else {
                byte & 0x1f
            };
            Some(Char { font_index: (i * 12) as usize, inverted: byte > 0x5f })
        }
    }

    pub fn try_from_ascii(byte: u8) -> (r: Option<Char>)
        ensures
            r == Char::from_ascii_spec(byte),
            r matches Some(c) ==> c.font_index + 12 <= 768,
    {
        if byte >= 0x80 {
            return None;
        }
        let i: u8 = if byte < 0x20 {
            0x20
        } else if byte < 0x40 {
            byte
        } else {
            byte & 0x1f
        };
        proof {
            let b = byte;
            assert(0x40 <= b < 0x80 ==> (b & 0x1f) < 0x40) by (bit_vector);
        }
        Some(Char { font_index: (i as usize) * 12, inverted: byte > 0x5f })
    }

    /// Interprets a byte as a raw CoCo code: 0x00-0x3f directly, 0x40-0x7f
    /// inverted; bytes with the high bit set are not characters.
    pub open spec fn from_raw_spec(byte: u8) -> Option<Char> {
        if byte >= 0x80 {
            None
        } else if byte < 0x40 {
            Some(Char { font_index: (byte * 12) as usize, inverted: false })
        } else {
            Some(Char { font_index: ((byte - 0x40) * 12) as usize, inverted: true })
        }
    }

    pub fn try_from_raw(byte: u8) -> (r: Option<Char>)
        ensures
            r == Char::from_raw_spec(byte),
            r matches Some(c) ==> c.font_index + 12 <= 768,
    {
        if byte >= 0x80 {
            None
        } else if byte < 0x40 {
            Some(Char { font_index: (byte as usize) * 12, inverted: false })
        } else {
            Some(Char { font_index: ((byte - 0x40) as usize) * 12, inverted: true })
        }
    }
}

/// Whether a packed pixel value is one of the nine palette entries.
pub open spec fn is_palette_rgb(v: u32) -> bool {
    v == 0 || v == 0x0020e000 || v == 0x00fff000 || v == 0x000000ff || v == 0x00f00000 || v
        == 0x00e0e0e0 || v == 0x0000efff || v == 0x00d000d0 || v == 0x00f06000
}

/// Every palette color's packed value is a palette value.
pub proof fn lemma_palette_member()
    ensures
        forall|c: Color| is_palette_rgb(#[trigger] c.rgb_spec()),
{
    assert forall|c: Color| is_palette_rgb(#[trigger] c.rgb_spec()) by {
        match c {
            Color::Black => {},
            Color::Green => {},
            Color::Yellow => {},
            Color::Blue => {},
            Color::Red => {},
            Color::Buff => {},
            Color::Cyan => {},
            Color::Magenta => {},
            Color::Orange => {},
        }
    }
}

/// Every pixel of `now` either kept its value from `was` or holds one of
/// the nine palette colors.
pub open spec fn pal_ok(was: Seq<u32>, now: Seq<u32>) -> bool {
    now.len() == was.len() && forall|j: int|
        0 <= j < was.len() ==> (#[trigger] now[j] == was[j] || is_palette_rgb(now[j]))
}

/// The framebuffer after eight pixels are drawn from a bit pattern at
/// `index`, most significant bit leftmost: a set bit takes the foreground
/// color, a clear bit the background; positions past the buffer are clipped.
pub open spec fn draw8_spec(d: Seq<u32>, index: int, bits: u8, fg: Color, bg: Color) -> Seq<u32> {
    Seq::new(
        d.len(),
        |j: int|
            if index <= j < index + 8 {
                if bits & (0x80u8 >> ((j - index) as u8)) != 0 {
                    fg.rgb_spec()
                } else {
                    bg.rgb_spec()
                }
            } else {
                d[j]
            },
    )
}

/// The framebuffer after one character block is drawn: twelve font rows at
/// 256-pixel stride, with foreground and background swapped for an inverted
/// glyph; a byte that is no character leaves the buffer alone.
pub open spec fn char_rows_spec(
    d: Seq<u32>,
    index: int,
    font: Seq<u8>,
    fi: int,
    fg: Color,
    bg: Color,
    rows: int,
) -> Seq<u32>
    decreases rows,
{
    if rows <= 0 {
        d
    } else {
        let prev = char_rows_spec(d, index, font, fi, fg, bg, rows - 1);
        let byte = if 0 <= fi + rows - 1 < font.len() {
            font[fi + rows - 1]
        } else {
            0
        };
        draw8_spec(prev, index + 256 * (rows - 1), byte, fg, bg)
    }
}

pub open spec fn char_block_spec(
    d: Seq<u32>,
    index: int,
    glyph: u8,
    ascii: bool,
    font: Seq<u8>,
    fg: Color,
    bg: Color,
) -> Seq<u32> {
    let ch = if ascii {
        Char::from_ascii_spec(glyph)
    } else {
        Char::from_raw_spec(glyph)
    };
    match ch {
        Some(c) => {
            let fg2 = if c.inverted {
                bg
            } else {
                fg
            };
            let bg2 = if c.inverted {
                fg
            } else {
                bg
            };
            char_rows_spec(d, index, font, c.font_index as int, fg2, bg2, 12)
        },
        None => d,
    }
}

/// The eight-pixel pattern of one semigraphic pixel row: the block's
/// luminance bit pair for the cell row selects none, the right half, the
/// left half, or all of the row.
pub open spec fn sg_row_pattern(glyph: u8, cell_rows: int, cell_row: int) -> u8 {
    let shift = 2 * (cell_rows - cell_row - 1);
    let lum = if 0 <= shift < 8 {
        (glyph >> shift as u8) & 3
    } else {
        0
    };
    if lum == 0 {
        0
    } else if lum == 1 {
        0x0f
    } else if lum == 2 {
        0xf0
    } else {
        0xff
    }
}

/// The foreground color of a semigraphic block: a 3-bit color from bits 4-6
/// in the three-bit modes, else a 2-bit color from bits 6-7 with CSS.
pub open spec fn sg_fg_spec(glyph: u8, color_bits: int, css: bool) -> Color {
    if color_bits == 3 {
        Color::from_code_spec((((glyph & 0x70) >> 4) + 1) as u8)
    } else {
        Color::from_code_spec(
            (1 + (((glyph & 0xc0) >> 6) | (if css {
                4u8
            } else {
                0u8
            }))) as u8,
        )
    }
}

/// The framebuffer after `k` pixel rows of a semigraphic block are drawn at
/// 256-pixel stride over a black background.
pub open spec fn sg_rows_spec(
    d: Seq<u32>,
    index: int,
    glyph: u8,
    fg: Color,
    cell_y: int,
    cell_rows: int,
    k: int,
) -> Seq<u32>
    decreases k,
{
    if k <= 0 || cell_y <= 0 {
        d
    } else {
        let prev = sg_rows_spec(d, index, glyph, fg, cell_y, cell_rows, k - 1);
        draw8_spec(
            prev,
            index + 256 * (k - 1),
            sg_row_pattern(glyph, cell_rows, (k - 1) / cell_y),
            fg,
            Color::Black,
        )
    }
}

pub open spec fn sg_block_spec(
    d: Seq<u32>,
    index: int,
    glyph: u8,
    color_bits: int,
    cell_y: int,
    css: bool,
) -> Seq<u32> {
    let cell_rows = 12int / cell_y;
    sg_rows_spec(
        d,
        index,
        glyph,
        sg_fg_spec(glyph, color_bits, css),
        cell_y,
        cell_rows,
        cell_rows * cell_y,
    )
}

/// The framebuffer after one SG4 block: bytes below 0x80 are characters in
/// green on black, the rest two-by-two semigraphics.
pub open spec fn sg4_block_spec(
    d: Seq<u32>,
    index: int,
    glyph: u8,
    ascii: bool,
    font: Seq<u8>,
    css: bool,
) -> Seq<u32> {
    if glyph < 0x80 {
        char_block_spec(d, index, glyph, ascii, font, Color::Green, Color::Black)
    } else {
        sg_block_spec(d, index, glyph, 3, 6, css)
    }
}

/// The framebuffer after the first `n` blocks of an SG4 or SG6 frame: block
/// `i` renders the VRAM byte at `vram + i` into the 8 by 12 pixel block at
/// row `i / 32`, column `i % 32`.
pub open spec fn text_frame_spec(
    d: Seq<u32>,
    ram: Seq<u8>,
    vram: int,
    mode: VdgMode,
    ascii: bool,
    font: Seq<u8>,
    css: bool,
    n: int,
) -> Seq<u32>
    decreases n,
{
    if n <= 0 {
        d
    } else {
        let prev = text_frame_spec(d, ram, vram, mode, ascii, font, css, n - 1);
        let i = n - 1;
        let index = ((i / 32) * 12) * 256 + (i % 32) * 8;
        let glyph = if 0 <= vram + i < ram.len() {
            ram[vram + i]
        } else {
            0
        };
        if mode == VdgMode::SG4 {
            sg4_block_spec(prev, index, glyph, ascii, font, css)
        } else {
            sg_block_spec(prev, index, glyph, 2, 4, css)
        }
    }
}

/// The VDG. It holds no reference into system RAM: the caller hands the RAM
/// image to `render`, which reads the visible region at `vram_offset`.
#[derive(Debug)]
pub struct Vdg {
    pub mode: VdgMode,
    pub dirty: bool,
    /// The length of the RAM image the VDG renders from.
    pub ram_len: usize,
    pub vram_offset: usize,
    /// Interpret character bytes as ASCII rather than raw CoCo codes.
    pub ascii: bool,
    /// The 64-glyph, 12-row font bitmap.
    pub font: Vec<u8>,
}

impl Vdg {
    pub open spec fn wf(self) -> bool {
        self.font@.len() == 768
    }

    /// A VDG over a RAM image of the given length, in SG4 and marked dirty.
    pub fn new(ram_len: usize, vram_offset: usize) -> (v: Vdg)
        ensures
            v.wf(),
            v.mode == VdgMode::SG4,
            v.dirty,
            v.ram_len == ram_len,
            v.vram_offset == vram_offset,
            !v.ascii,
    {
        Vdg { mode: VdgMode::SG4, dirty: true, ram_len, vram_offset, ascii: false, font: font_map() }
    }

    /// Changes the display mode; a real change marks the screen dirty.
    pub fn set_mode(&mut self, mode: VdgMode)
        ensures
            final(self).mode == mode,
            final(self).dirty == (old(self).dirty || mode != old(self).mode),
            *final(self) == (Vdg { mode, dirty: final(self).dirty, ..*old(self) }),
    {
        if !(self.mode == mode) {
            self.dirty = true;
            self.mode = mode;
        }
    }

    pub fn interpret_chars_as_ascii(&mut self, ascii: bool)
        ensures
            *final(self) == (Vdg { ascii, ..*old(self) }),
    {
        self.ascii = ascii;
    }

    /// Moves the base of the visible region; a real change marks the screen
    /// dirty. The region must fit inside the RAM image.
    pub fn set_vram_offset(&mut self, vram_offset: usize)
        requires
            vram_offset + 0x1800 <= old(self).ram_len,
        ensures
            final(self).vram_offset == vram_offset,
            final(self).dirty == (old(self).dirty || vram_offset != old(self).vram_offset),
            *final(self) == (Vdg {
                vram_offset,
                dirty: final(self).dirty,
                ..*old(self)
            }),
    {
        if vram_offset != self.vram_offset {
            self.vram_offset = vram_offset;
            self.dirty = true;
        }
    }

    pub fn get_mode(&self) -> (m: VdgMode)
        ensures
            m == self.mode,
    {
        self.mode
    }

    pub fn set_dirty(&mut self)
        ensures
            *final(self) == (Vdg { dirty: true, ..*old(self) }),
    {
        self.dirty = true;
    }

    /// Renders the visible region of `ram` into the 256 by 192 framebuffer,
    /// one `0x00RRGGBB` value per pixel, and clears the dirty flag. The
    /// screen is always redrawn, so this returns true: the buffer changed.
    pub fn render(&mut self, ram: &Vec<u8>, display: &mut Vec<u32>, css: bool) -> (drawn: bool)
        requires
            old(self).wf(),
            old(self).vram_offset + 0x1800 <= ram@.len(),
            old(display)@.len() == 49152,
        ensures
            final(self).wf(),
            final(display)@.len() == old(display)@.len(),
            *final(self) == (Vdg { dirty: false, ..*old(self) }),
            drawn,
            (old(self).mode == VdgMode::SG4 || old(self).mode == VdgMode::SG6)
                ==> final(display)@ == text_frame_spec(
                old(display)@,
                ram@,
                old(self).vram_offset as int,
                old(self).mode,
                old(self).ascii,
                old(self).font@,
                css,
                512,
            ),
            !(old(self).mode == VdgMode::SG4 || old(self).mode == VdgMode::SG6) ==> forall|j: int|
                0 <= j < old(display)@.len()
                    ==> (#[trigger] final(display)@[j] == old(display)@[j] || is_palette_rgb(
                    final(display)@[j],
                )),
    {
        self.dirty = false;
        match self.mode {
            VdgMode::SG4 | VdgMode::SG6 => {
                let mut i: usize = 0;
                while i < 512
                    invariant
                        self.wf(),
                        self.vram_offset + 0x1800 <= ram@.len(),
                        display@.len() == old(display)@.len(),
                        *self == (Vdg { dirty: false, ..*old(self) }),
                        self.mode == VdgMode::SG4 || self.mode == VdgMode::SG6,
                        0 <= i <= 512,
                        display@ == text_frame_spec(
                            old(display)@,
                            ram@,
                            self.vram_offset as int,
                            self.mode,
                            self.ascii,
                            self.font@,
                            css,
                            i as int,
                        ),
                    decreases 512 - i,
                {
                    let index = ((i / 32) * 12) * 256 + (i % 32) * 8;
                    let rl = ram.len();
                    let glyph = if self.vram_offset < rl && i < rl - self.vram_offset {
                        ram[self.vram_offset + i]
                    } else {
                        0
                    };
                    if matches!(self.mode, VdgMode::SG4) {
                        self.draw_sg4_block(display, index, glyph, css);
                    } else {
                        self.draw_sg_block(display, index, glyph, css);
                    }
                    i = i + 1;
                }
            },
            VdgMode::SG8 | VdgMode::SG12 | VdgMode::SG24 => {
                self.render_sg_extended(ram, display);
            },
            _ => {
                self.render_graphics(ram, display, css);
            },
        }
        true
    }

    /// Renders the pure graphics modes: each VRAM byte holds a run of one-
    /// or two-bit cells, emitted left to right, top to bottom.
    fn render_graphics(&self, ram: &Vec<u8>, display: &mut Vec<u32>, css: bool)
        requires
            self.vram_offset + 0x1800 <= ram@.len(),
        ensures
            final(display)@.len() == old(display)@.len(),
            pal_ok(old(display)@, final(display)@),
    {
        let md = self.mode.get_details();
        let cells_per_src_byte = 8 / md.color_bits;
        let cells_per_row = 256 / md.cell_x;
        let cells_per_col = 192 / md.cell_y;
        proof {
            assert(2 <= 8 as usize / md.color_bits <= 8 && 256 as usize / md.cell_x <= 256 && 192
                as usize / md.cell_y <= 192) by (nonlinear_arith)
                requires
                    1 <= md.color_bits <= 3 && 1 <= md.cell_x <= 4 && 1 <= md.cell_y <= 6,
            ;
        }
        let src_bytes_per_row = cells_per_row / cells_per_src_byte;
        proof {
            assert(cells_per_row / cells_per_src_byte <= 128) by (nonlinear_arith)
                requires
                    cells_per_row <= 256 && cells_per_src_byte >= 2,
            ;
        }
        let mut dst_index: usize = 0;
        let mut src_row: usize = 0;
        while src_row < cells_per_col
            invariant
                self.vram_offset + 0x1800 <= ram@.len(),
                display@.len() == old(display)@.len(),
                pal_ok(old(display)@, display@),
                1 <= md.cell_x <= 4 && 1 <= md.cell_y <= 6 && 1 <= md.color_bits <= 3,
                cells_per_src_byte == 8usize / md.color_bits,
                cells_per_row == 256usize / md.cell_x,
                cells_per_col == 192usize / md.cell_y,
                src_bytes_per_row == cells_per_row / cells_per_src_byte,
                cells_per_col <= 192 && src_bytes_per_row <= 128,
            decreases cells_per_col - src_row,
        {
            let mut cell_line: usize = 0;
            while cell_line < md.cell_y
                invariant
                    self.vram_offset + 0x1800 <= ram@.len(),
                    display@.len() == old(display)@.len(),
                    pal_ok(old(display)@, display@),
                    1 <= md.cell_x <= 4 && 1 <= md.cell_y <= 6 && 1 <= md.color_bits <= 3,
                    cells_per_src_byte == 8usize / md.color_bits,
                    cells_per_row == 256usize / md.cell_x,
                    cells_per_col == 192usize / md.cell_y,
                    src_bytes_per_row == cells_per_row / cells_per_src_byte,
                    cells_per_col <= 192 && src_bytes_per_row <= 128,
                    src_row < cells_per_col,
                decreases md.cell_y - cell_line,
            {
                let mut src_col: usize = 0;
                while src_col < src_bytes_per_row
                    invariant
                        self.vram_offset + 0x1800 <= ram@.len(),
                        display@.len() == old(display)@.len(),
                        pal_ok(old(display)@, display@),
                        1 <= md.cell_x <= 4 && 1 <= md.cell_y <= 6 && 1 <= md.color_bits <= 3,
                        cells_per_src_byte == 8usize / md.color_bits,
                        cells_per_row == 256usize / md.cell_x,
                        cells_per_col == 192usize / md.cell_y,
                        src_bytes_per_row == cells_per_row / cells_per_src_byte,
                        cells_per_col <= 192 && src_bytes_per_row <= 128,
                        src_row < cells_per_col,
                    decreases src_bytes_per_row - src_col,
                {
                    proof {
                        assert(src_row * src_bytes_per_row <= 191 * 128) by (nonlinear_arith)
                            requires
                                src_row <= 191 && src_bytes_per_row <= 128,
                        ;
                    }
                    let rel = src_col + src_row * src_bytes_per_row;
                    let rl = ram.len();
                    let mut src_data: u16 = if self.vram_offset < rl && rel < rl
                        - self.vram_offset {
                        ram[self.vram_offset + rel] as u16
                    } else {
                        0
                    };
                    let mut cell: usize = 0;
                    while cell < cells_per_src_byte
                        invariant
                            display@.len() == old(display)@.len(),
                            pal_ok(old(display)@, display@),
                            1 <= md.cell_x <= 4 && 1 <= md.color_bits <= 3,
                            cells_per_src_byte == 8usize / md.color_bits,
                        decreases cells_per_src_byte - cell,
                    {
                        let color: Color;
                        if md.color_bits == 1 {
                            src_data = (src_data << 1) & 0xffff;
                            color = if src_data & 0x0100 == 0 {
                                Color::Black
                            } else {
                                Color::Green
                            };
                        } else {
                            src_data = (src_data << 2) & 0xffff;
                            let bits = ((src_data & 0x300) >> 8) as u8;
                            proof {
                                let sd = src_data;
                                assert(((sd & 0x300) >> 8) < 4) by (bit_vector);
                            }
                            color = Color::from_2bits(bits, css);
                        }
                        let mut px: usize = 0;
                        while px < md.cell_x
                            invariant
                                display@.len() == old(display)@.len(),
                                pal_ok(old(display)@, display@),
                            decreases md.cell_x - px,
                        {
                            if dst_index < display.len() {
                                let v = color.to_rgb();
                                display.set(dst_index, v);
                                proof {
                                    lemma_palette_member();
                                }
                                dst_index = dst_index + 1;
                            }
                            px = px + 1;
                        }
                        cell = cell + 1;
                    }
                    src_col = src_col + 1;
                }
                cell_line = cell_line + 1;
            }
            src_row = src_row + 1;
        }
    }

    /// Renders the extended semigraphics modes SG8, SG12 and SG24: each
    /// block is a stack of byte-defined cell rows holding either a character
    /// or a two-by-two luminance pattern with a 3-bit color.
    fn render_sg_extended(&self, ram: &Vec<u8>, display: &mut Vec<u32>)
        requires
            self.wf(),
            self.vram_offset + 0x1800 <= ram@.len(),
        ensures
            final(display)@.len() == old(display)@.len(),
            pal_ok(old(display)@, final(display)@),
    {
        let md = self.mode.get_details();
        let cell_rows = 12 / md.cell_y;
        proof {
            assert(12 as usize / md.cell_y <= 12) by (nonlinear_arith)
                requires
                    md.cell_y >= 1,
            ;
        }
        let mut block_col: usize = 0;
        while block_col < 32
            invariant
                self.wf(),
                self.vram_offset + 0x1800 <= ram@.len(),
                display@.len() == old(display)@.len(),
                pal_ok(old(display)@, display@),
                1 <= md.cell_y <= 6,
                cell_rows == 12usize / md.cell_y,
                cell_rows <= 12,
            decreases 32 - block_col,
        {
            let mut block_row: usize = 0;
            while block_row < 16
                invariant
                    self.wf(),
                    self.vram_offset + 0x1800 <= ram@.len(),
                    display@.len() == old(display)@.len(),
                    pal_ok(old(display)@, display@),
                    1 <= md.cell_y <= 6,
                    cell_rows == 12usize / md.cell_y,
                    cell_rows <= 12,
                    block_col < 32,
                decreases 16 - block_row,
            {
                let mut cell_row: usize = 0;
                while cell_row < cell_rows
                    invariant
                        self.wf(),
                        self.vram_offset + 0x1800 <= ram@.len(),
                        display@.len() == old(display)@.len(),
                        pal_ok(old(display)@, display@),
                        1 <= md.cell_y <= 6,
                        cell_rows == 12usize / md.cell_y,
                        cell_rows <= 12,
                        block_col < 32,
                        block_row < 16,
                    decreases cell_rows - cell_row,
                {
                    proof {
                        assert(block_row * cell_rows <= 15 * 12) by (nonlinear_arith)
                            requires
                                block_row <= 15 && cell_rows <= 12,
                        ;
                    }
                    let rel = block_col + (block_row * cell_rows + cell_row) * 32;
                    let rl = ram.len();
                    let cell_data = if self.vram_offset < rl && rel < rl - self.vram_offset {
                        ram[self.vram_offset + rel]
                    } else {
                        0
                    };
                    let ch = Char::try_from_ascii(cell_data);
                    let mut pix_row: usize = 0;
                    while pix_row < md.cell_y
                        invariant
                            self.wf(),
                            display@.len() == old(display)@.len(),
                            pal_ok(old(display)@, display@),
                            1 <= md.cell_y <= 6,
                            cell_rows == 12usize / md.cell_y,
                            cell_rows <= 12,
                            block_col < 32,
                            block_row < 16,
                            cell_row < cell_rows,
                            ch == Char::from_ascii_spec(cell_data),
                            ch matches Some(c) ==> c.font_index + 12 <= 768,
                        decreases md.cell_y - pix_row,
                    {
                        let fg_color: Color;
                        let bg_color: Color;
                        let pattern: u8;
                        if let Some(c) = &ch {
                            if c.inverted {
                                fg_color = Color::Black;
                                bg_color = Color::Green;
                            } else {
                                fg_color = Color::Green;
                                bg_color = Color::Black;
                            }
                            proof {
                                assert(cell_row * md.cell_y <= 11 * 6) by (nonlinear_arith)
                                    requires
                                        cell_row <= 11 && md.cell_y <= 6,
                                ;
                            }
                            let fi = c.font_index + pix_row + cell_row * md.cell_y;
                            pattern = if fi < self.font.len() {
                                !self.font[fi]
                            } else {
                                0
                            };
                        } else {
                            let mut p: u8 = 0;
                            if cell_data & 1 == 1 {
                                p = p | 0xf;
                            }
                            if cell_data & 2 == 2 {
                                p = p | 0xf0;
                            }
                            let bits = (cell_data & 0x70) >> 4;
                            proof {
                                let cd = cell_data;
                                assert(((cd & 0x70) >> 4) < 8) by (bit_vector);
                            }
                            fg_color = Color::from_3bits(bits);
                            bg_color = Color::Black;
                            pattern = p;
                        }
                        proof {
                            assert(cell_row * md.cell_y <= 11 * 6) by (nonlinear_arith)
                                requires
                                    cell_row <= 11 && md.cell_y <= 6,
                            ;
                        }
                        let dst_index = 256 * (block_row * 12 + cell_row * md.cell_y + pix_row)
                            + block_col * 8;
                        let ghost before = display@;
                        Vdg::draw_8_pixels(display, dst_index, pattern, fg_color, bg_color);
                        proof {
                            lemma_palette_member();
                            assert(pal_ok(before, display@));
                        }
                        pix_row = pix_row + 1;
                    }
                    cell_row = cell_row + 1;
                }
                block_row = block_row + 1;
            }
            block_col = block_col + 1;
        }
    }

    /// Draws one SG4 block: bytes below 0x80 are characters, the rest are
    /// two-by-two semigraphic patterns.
    fn draw_sg4_block(&self, display: &mut Vec<u32>, index: usize, glyph: u8, css: bool)
        requires
            self.wf(),
            self.mode == VdgMode::SG4,
            index <= 0x20000,
        ensures
            final(display)@.len() == old(display)@.len(),
            final(display)@ == sg4_block_spec(
                old(display)@,
                index as int,
                glyph,
                self.ascii,
                self.font@,
                css,
            ),
    {
        if glyph < 0x80 {
            self.draw_char_block(display, index, glyph, Color::Green, Color::Black);
        } else {
            self.draw_sg_block(display, index, glyph, css);
        }
    }

    /// Draws one character block from the internal font, twelve rows of
    /// eight pixels, honoring the inversion bit.
    fn draw_char_block(&self, display: &mut Vec<u32>, index: usize, glyph: u8, fg: Color, bg: Color)
        requires
            self.wf(),
            index <= 0x20000,
        ensures
            final(display)@.len() == old(display)@.len(),
            final(display)@ == char_block_spec(
                old(display)@,
                index as int,
                glyph,
                self.ascii,
                self.font@,
                fg,
                bg,
            ),
    {
        let ch = if self.ascii {
            Char::try_from_ascii(glyph)
        } else {
            Char::try_from_raw(glyph)
        };
        if let Some(c) = ch {
            let fg2 = if c.inverted {
                bg
            } else {
                fg
            };
            let bg2 = if c.inverted {
                fg
            } else {
                bg
            };
            let mut r: usize = 0;
            while r < 12
                invariant
                    self.wf(),
                    index <= 0x20000,
                    c.font_index + 12 <= 768,
                    0 <= r <= 12,
                    display@.len() == old(display)@.len(),
                    display@ == char_rows_spec(
                        old(display)@,
                        index as int,
                        self.font@,
                        c.font_index as int,
                        fg2,
                        bg2,
                        r as int,
                    ),
                decreases 12 - r,
            {
                Vdg::draw_8_pixels(display, index + 256 * r, self.font[c.font_index + r], fg2, bg2);
                r = r + 1;
            }
        }
    }

    /// Draws one semigraphic block: the glyph's luminance bit pairs become
    /// full- or half-width rows in the block's foreground color.
    fn draw_sg_block(&self, display: &mut Vec<u32>, index: usize, glyph: u8, css: bool)
        requires
            index <= 0x20000,
        ensures
            final(display)@.len() == old(display)@.len(),
            final(display)@ == sg_block_spec(
                old(display)@,
                index as int,
                glyph,
                self.mode.details_spec().color_bits as int,
                self.mode.details_spec().cell_y as int,
                css,
            ),
    {
        let md = self.mode.get_details();
        let fg_color = if md.color_bits == 3 {
            let bits = (glyph & 0x70) >> 4;
            proof {
                let g = glyph;
                assert(((g & 0x70) >> 4) < 8) by (bit_vector);
            }
            Color::from_3bits(bits)
        } else {
            let bits = (glyph & 0xc0) >> 6;
            proof {
                let g = glyph;
                assert(((g & 0xc0) >> 6) < 4) by (bit_vector);
            }
            Color::from_2bits(bits, css)
        };
        let cell_rows = 12 / md.cell_y;
        proof {
            assert(cell_rows * md.cell_y <= 12) by (nonlinear_arith)
                requires
                    cell_rows == 12usize / md.cell_y && 1 <= md.cell_y <= 6,
            ;
        }
        let total = cell_rows * md.cell_y;
        let mut r: usize = 0;
        while r < total
            invariant
                1 <= md.cell_y <= 6,
                md == self.mode.details_spec(),
                cell_rows == 12usize / md.cell_y,
                total == cell_rows * md.cell_y,
                total <= 12,
                index <= 0x20000,
                0 <= r <= total,
                fg_color == sg_fg_spec(glyph, md.color_bits as int, css),
                display@.len() == old(display)@.len(),
                display@ == sg_rows_spec(
                    old(display)@,
                    index as int,
                    glyph,
                    fg_color,
                    md.cell_y as int,
                    cell_rows as int,
                    r as int,
                ),
            decreases total - r,
        {
            let cell_row = r / md.cell_y;
            proof {
                assert(r / md.cell_y < cell_rows) by (nonlinear_arith)
                    requires
                        r < cell_rows * md.cell_y && md.cell_y >= 1,
                ;
            }
            let shift = 2 * (cell_rows - cell_row - 1);
            let lum = if shift < 8 {
                (glyph >> (shift as u8)) & 3
            } else {
                0
            };
            let pattern: u8 = if lum == 0 {
                0
            } else if lum == 1 {
                0x0f
            } else if lum == 2 {
                0xf0
            } else {
                0xff
            };
            Vdg::draw_8_pixels(display, index + 256 * r, pattern, fg_color, Color::Black);
            r = r + 1;
        }
    }

    fn draw_8_pixels(display: &mut Vec<u32>, index: usize, bits: u8, fg: Color, bg: Color)
        ensures
            final(display)@.len() == old(display)@.len(),
            final(display)@ == draw8_spec(old(display)@, index as int, bits, fg, bg),
    {
        let mut i: usize = 0;
        while i < 8
            invariant
                0 <= i <= 8,
                display@.len() == old(display)@.len(),
                forall|j: int|
                    0 <= j < old(display)@.len() ==> #[trigger] display@[j] == (if index <= j
                        < index + i {
                        if bits & (0x80u8 >> ((j - index) as u8)) != 0 {
                            fg.rgb_spec()
                        } else {
                            bg.rgb_spec()
                        }
                    } else {
                        old(display)@[j]
                    }),
            decreases 8 - i,
        {
            if index < display.len() && i < display.len() - index {
                if bits & (0x80u8 >> (i as u8)) != 0 {
                    let v = fg.to_rgb();
                    display.set(index + i, v);
                } else {
                    let v = bg.to_rgb();
                    display.set(index + i, v);
                }
            }
            i = i + 1;
        }
        proof {
            assert(display@ =~= draw8_spec(old(display)@, index as int, bits, fg, bg));
        }
    }
}

/// The 64-glyph internal font: twelve byte rows per glyph, the top six bits
/// of each row mapping to the six used pixels of the cell.
pub fn font_map() -> (f: Vec<u8>)
    ensures
        f@.len() == 768,
        // the space glyph (code 0x20) is fully blank
        forall|i: int| 0x180 <= i < 0x18c ==> #[trigger] f@[i] == 0,
        // a recognizable sample: the top shape row of the 'A' glyph
        f@[15] == 0x08,
{
    let f: Vec<u8> = vec![
        0x00, 0x00, 0x00, 0x1C, 0x22, 0x2A, 0x2A, 0x2C, 0x20, 0x1E, 0x00, 0x00,
        0x00, 0x00, 0x00, 0x08, 0x14, 0x22, 0x22, 0x3E, 0x22, 0x22, 0x00, 0x00,
        0x00, 0x00, 0x00, 0x3C, 0x22, 0x22, 0x3C, 0x22, 0x22, 0x3C, 0x00, 0x00,
        0x00, 0x00, 0x00, 0x1C, 0x22, 0x20, 0x20, 0x20, 0x22, 0x1C, 0x00, 0x00,
        0x00, 0x00, 0x00, 0x3C, 0x22, 0x22, 0x22, 0x22, 0x22, 0x3C, 0x00, 0x00,
        0x00, 0x00, 0x00, 0x3E, 0x20, 0x20, 0x3C, 0x20, 0x20, 0x3E, 0x00, 0x00,
        0x00, 0x00, 0x00, 0x3E, 0x20, 0x20, 0x3C, 0x20, 0x20, 0x20, 0x00, 0x00,
        0x00, 0x00, 0x00, 0x1C, 0x22, 0x20, 0x20, 0x26, 0x22, 0x1C, 0x00, 0x00,
        0x00, 0x00, 0x00, 0x22, 0x22, 0x22, 0x3E, 0x22, 0x22, 0x22, 0x00, 0x00,
        0x00, 0x00, 0x00, 0x1C, 0x08, 0x08, 0x08, 0x08, 0x08, 0x1C, 0x00, 0x00,
        0x00, 0x00, 0x00, 0x02, 0x02, 0x02, 0x02, 0x02, 0x22, 0x1C, 0x00, 0x00,
        0x00, 0x00, 0x00, 0x22, 0x24, 0x28, 0x30, 0x28, 0x24, 0x22, 0x00, 0x00,
        0x00, 0x00, 0x00, 0x20, 0x20, 0x20, 0x20, 0x20, 0x20, 0x3E, 0x00, 0x00,
        0x00, 0x00, 0x00, 0x22, 0x36, 0x2A, 0x2A, 0x22, 0x22, 0x22, 0x00, 0x00,
        0x00, 0x00, 0x00, 0x22, 0x32, 0x32, 0x2A, 0x26, 0x26, 0x22, 0x00, 0x00,
        0x00, 0x00, 0x00, 0x1C, 0x22, 0x22, 0x22, 0x22, 0x22, 0x1C, 0x00, 0x00,
        0x00, 0x00, 0x00, 0x3C, 0x22, 0x22, 0x3C, 0x20, 0x20, 0x20, 0x00, 0x00,
        0x00, 0x00, 0x00, 0x1C, 0x22, 0x22, 0x22, 0x2A, 0x24, 0x1A, 0x00, 0x00,
        0x00, 0x00, 0x00, 0x3C, 0x22, 0x22, 0x3C, 0x28, 0x24, 0x22, 0x00, 0x00,
        0x00, 0x00, 0x00, 0x1C, 0x22, 0x20, 0x1C, 0x02, 0x22, 0x1C, 0x00, 0x00,
        0x00, 0x00, 0x00, 0x3E, 0x08, 0x08, 0x08, 0x08, 0x08, 0x08, 0x00, 0x00,
        0x00, 0x00, 0x00, 0x22, 0x22, 0x22, 0x22, 0x22, 0x22, 0x1C, 0x00, 0x00,
        0x00, 0x00, 0x00, 0x22, 0x22, 0x22, 0x14, 0x14, 0x08, 0x08, 0x00, 0x00,
        0x00, 0x00, 0x00, 0x22, 0x22, 0x22, 0x2A, 0x2A, 0x2A, 0x14, 0x00, 0x00,
        0x00, 0x00, 0x00, 0x22, 0x22, 0x14, 0x08, 0x14, 0x22, 0x22, 0x00, 0x00,
        0x00, 0x00, 0x00, 0x22, 0x22, 0x14, 0x08, 0x08, 0x08, 0x08, 0x00, 0x00,
        0x00, 0x00, 0x00, 0x3E, 0x02, 0x04, 0x08, 0x10, 0x20, 0x3E, 0x00, 0x00,
        0x00, 0x00, 0x00, 0x1C, 0x10, 0x10, 0x10, 0x10, 0x10, 0x1C, 0x00, 0x00,
        0x00, 0x00, 0x00, 0x20, 0x20, 0x10, 0x08, 0x04, 0x02, 0x02, 0x00, 0x00,
        0x00, 0x00, 0x00, 0x1C, 0x04, 0x04, 0x04, 0x04, 0x04, 0x1C, 0x00, 0x00,
        0x00, 0x00, 0x00, 0x08, 0x1C, 0x2A, 0x08, 0x08, 0x08, 0x08, 0x00, 0x00,
        0x00, 0x00, 0x00, 0x00, 0x08, 0x10, 0x3E, 0x10, 0x08, 0x00, 0x00, 0x00,
        0x00, 0x00, 0x00, 0x00, 0x00, 0x00, 0x00, 0x00, 0x00, 0x00, 0x00, 0x00,
        0x00, 0x00, 0x00, 0x08, 0x08, 0x08, 0x08, 0x08, 0x00, 0x08, 0x00, 0x00,
        0x00, 0x00, 0x00, 0x14, 0x14, 0x14, 0x00, 0x00, 0x00, 0x00, 0x00, 0x00,
        0x00, 0x00, 0x00, 0x14, 0x14, 0x3E, 0x14, 0x3E, 0x14, 0x14, 0x00, 0x00,
        0x00, 0x00, 0x00, 0x08, 0x1E, 0x28, 0x1C, 0x0A, 0x3C, 0x08, 0x00, 0x00,
        0x00, 0x00, 0x00, 0x32, 0x32, 0x04, 0x08, 0x10, 0x26, 0x26, 0x00, 0x00,
        0x00, 0x00, 0x00, 0x10, 0x28, 0x28, 0x10, 0x2A, 0x24, 0x1A, 0x00, 0x00,
        0x00, 0x00, 0x00, 0x08, 0x08, 0x08, 0x00, 0x00, 0x00, 0x00, 0x00, 0x00,
        0x00, 0x00, 0x00, 0x04, 0x08, 0x10, 0x10, 0x10, 0x08, 0x04, 0x00, 0x00,
        0x00, 0x00, 0x00, 0x10, 0x08, 0x04, 0x04, 0x04, 0x08, 0x10, 0x00, 0x00,
        0x00, 0x00, 0x00, 0x00, 0x08, 0x2A, 0x1C, 0x2A, 0x08, 0x00, 0x00, 0x00,
        0x00, 0x00, 0x00, 0x00, 0x08, 0x08, 0x3E, 0x08, 0x08, 0x00, 0x00, 0x00,
        0x00, 0x00, 0x00, 0x00, 0x00, 0x00, 0x00, 0x00, 0x00, 0x08, 0x08, 0x10,
        0x00, 0x00, 0x00, 0x00, 0x00, 0x00, 0x3E, 0x00, 0x00, 0x00, 0x00, 0x00,
        0x00, 0x00, 0x00, 0x00, 0x00, 0x00, 0x00, 0x00, 0x00, 0x08, 0x00, 0x00,
        0x00, 0x00, 0x00, 0x02, 0x02, 0x04, 0x08, 0x10, 0x20, 0x20, 0x00, 0x00,
        0x00, 0x00, 0x00, 0x1C, 0x22, 0x26, 0x2A, 0x32, 0x22, 0x1C, 0x00, 0x00,
        0x00, 0x00, 0x00, 0x08, 0x18, 0x08, 0x08, 0x08, 0x08, 0x1C, 0x00, 0x00,
        0x00, 0x00, 0x00, 0x1C, 0x22, 0x02, 0x1C, 0x20, 0x20, 0x3E, 0x00, 0x00,
        0x00, 0x00, 0x00, 0x3E, 0x02, 0x04, 0x0C, 0x02, 0x22, 0x1C, 0x00, 0x00,
        0x00, 0x00, 0x00, 0x04, 0x0C, 0x14, 0x24, 0x3E, 0x04, 0x04, 0x00, 0x00,
        0x00, 0x00, 0x00, 0x3E, 0x20, 0x3C, 0x02, 0x02, 0x22, 0x1C, 0x00, 0x00,
        0x00, 0x00, 0x00, 0x0E, 0x10, 0x20, 0x3C, 0x22, 0x22, 0x1C, 0x00, 0x00,
        0x00, 0x00, 0x00, 0x3E, 0x02, 0x02, 0x04, 0x08, 0x10, 0x20, 0x00, 0x00,
        0x00, 0x00, 0x00, 0x1C, 0x22, 0x22, 0x1C, 0x22, 0x22, 0x1C, 0x00, 0x00,
        0x00, 0x00, 0x00, 0x1C, 0x22, 0x22, 0x1E, 0x02, 0x04, 0x38, 0x00, 0x00,
        0x00, 0x00, 0x00, 0x00, 0x00, 0x08, 0x00, 0x08, 0x00, 0x00, 0x00, 0x00,
        0x00, 0x00, 0x00, 0x00, 0x00, 0x08, 0x00, 0x08, 0x08, 0x10, 0x00, 0x00,
        0x00, 0x00, 0x00, 0x06, 0x08, 0x10, 0x20, 0x10, 0x08, 0x06, 0x00, 0x00,
        0x00, 0x00, 0x00, 0x00, 0x00, 0x3E, 0x00, 0x3E, 0x00, 0x00, 0x00, 0x00,
        0x00, 0x00, 0x00, 0x30, 0x08, 0x04, 0x02, 0x04, 0x08, 0x30, 0x00, 0x00,
        0x00, 0x00, 0x00, 0x1C, 0x22, 0x02, 0x04, 0x08, 0x00, 0x08, 0x00, 0x00,
    ];
    f
}

} // verus!
