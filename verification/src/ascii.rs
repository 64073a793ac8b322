use vstd::prelude::*;

verus! {

/// A glyph palette: an ordered set of characters from darkest to lightest.
#[derive(Debug, Clone, Copy, PartialEq, Eq, Structural)]
pub enum CharacterSet {
    Dense,
    Simple,
    Blocks,
    Minimal,
}

impl CharacterSet {
    /// The characters of this palette, darkest first.
    pub open spec fn chars_spec(self) -> Seq<char> {
        match self {
            CharacterSet::Dense => seq!['@', '#', 'S', '%', '?', '*', '+', ';', ':', ',', '.', ' '],
            CharacterSet::Simple => seq!['@', '#', '*', '+', '-', '.', ' '],
            CharacterSet::Blocks => seq![
                '\u{2588}', '\u{2589}', '\u{258A}', '\u{258B}', '\u{258C}', '\u{258D}',
                '\u{258E}', '\u{258F}', ' ',
            ],
            CharacterSet::Minimal => seq!['\u{2588}', '\u{2593}', '\u{2592}', '\u{2591}', ' '],
        }
    }

    pub fn chars(&self) -> (r: Vec<char>)
        ensures
            r@ == self.chars_spec(),
            1 <= r@.len() <= 12,
    {
        let r = match self {
            CharacterSet::Dense => vec!['@', '#', 'S', '%', '?', '*', '+', ';', ':', ',', '.', ' '],
            CharacterSet::Simple => vec!['@', '#', '*', '+', '-', '.', ' '],
            CharacterSet::Blocks => vec![
                '\u{2588}', '\u{2589}', '\u{258A}', '\u{258B}', '\u{258C}', '\u{258D}',
                '\u{258E}', '\u{258F}', ' ',
            ],
            CharacterSet::Minimal => vec!['\u{2588}', '\u{2593}', '\u{2592}', '\u{2591}', ' '],
        };
        proof {
            assert(r@ =~= self.chars_spec());
        }
        r
    }

    /// The next palette in the ring.
    pub open spec fn next_spec(self) -> CharacterSet {
        match self {
            CharacterSet::Dense => CharacterSet::Simple,
            CharacterSet::Simple => CharacterSet::Blocks,
            CharacterSet::Blocks => CharacterSet::Minimal,
            CharacterSet::Minimal => CharacterSet::Dense,
        }
    }

    /// The previous palette in the ring.
    pub open spec fn previous_spec(self) -> CharacterSet {
        match self {
            CharacterSet::Dense => CharacterSet::Minimal,
            CharacterSet::Simple => CharacterSet::Dense,
            CharacterSet::Blocks => CharacterSet::Simple,
            CharacterSet::Minimal => CharacterSet::Blocks,
        }
    }

    pub fn next(&self) -> (r: CharacterSet)
        ensures
            r == self.next_spec(),
    {
        match self {
            CharacterSet::Dense => CharacterSet::Simple,
            CharacterSet::Simple => CharacterSet::Blocks,
            CharacterSet::Blocks => CharacterSet::Minimal,
            CharacterSet::Minimal => CharacterSet::Dense,
        }
    }

    pub fn previous(&self) -> (r: CharacterSet)
        ensures
            r == self.previous_spec(),
    {
        match self {
            CharacterSet::Dense => CharacterSet::Minimal,
            CharacterSet::Simple => CharacterSet::Dense,
            CharacterSet::Blocks => CharacterSet::Simple,
            CharacterSet::Minimal => CharacterSet::Blocks,
        }
    }

    pub fn name(&self) -> (r: &'static str)
        ensures
            r@ == self.name_spec(),
    {
        match self {
            CharacterSet::Dense => "Dense",
            CharacterSet::Simple => "Simple",
            CharacterSet::Blocks => "Blocks",
            CharacterSet::Minimal => "Minimal",
        }
    }

    /// The characters of this palette as one string, darkest first.
    pub fn chars_str(&self) -> (r: &'static str)
        ensures
            r@ == self.chars_spec(),
            1 <= r@.len() <= 12,
    {
        match self {
            CharacterSet::Dense => {
                let r: &'static str = "@#S%?*+;:,. ";
                proof {
                    reveal_strlit("@#S%?*+;:,. ");
                    assert(r@ =~= self.chars_spec());
                }
                r
            },
            CharacterSet::Simple => {
                let r: &'static str = "@#*+-. ";
                proof {
                    reveal_strlit("@#*+-. ");
                    assert(r@ =~= self.chars_spec());
                }
                r
            },
            CharacterSet::Blocks => {
                let r: &'static str = "\u{2588}\u{2589}\u{258A}\u{258B}\u{258C}\u{258D}\u{258E}\u{258F} ";
                proof {
                    reveal_strlit("\u{2588}\u{2589}\u{258A}\u{258B}\u{258C}\u{258D}\u{258E}\u{258F} ");
                    assert(r@ =~= self.chars_spec());
                }
                r
            },
            CharacterSet::Minimal => {
                let r: &'static str = "\u{2588}\u{2593}\u{2592}\u{2591} ";
                proof {
                    reveal_strlit("\u{2588}\u{2593}\u{2592}\u{2591} ");
                    assert(r@ =~= self.chars_spec());
                }
                r
            },
        }
    }

    pub open spec fn name_spec(self) -> Seq<char> {
        match self {
            CharacterSet::Dense => "Dense"@,
            CharacterSet::Simple => "Simple"@,
            CharacterSet::Blocks => "Blocks"@,
            CharacterSet::Minimal => "Minimal"@,
        }
    }
}

/// The palettes form a cyclic ring: stepping forward and then backward,
/// or backward and then forward, returns to the same palette.
pub proof fn lemma_palette_ring(cs: CharacterSet)
    ensures
        cs.next_spec().previous_spec() == cs,
        cs.previous_spec().next_spec() == cs,
{
}

} // verus!

verus! {

/// An RGB triple used as a foreground color for one output cell.
#[derive(Debug, Clone, Copy, PartialEq, Eq)]
pub struct RgbColor {
    pub r: u8,
    pub g: u8,
    pub b: u8,
}

/// One output cell: a glyph plus an optional foreground color.
#[derive(Debug, Clone, Copy, PartialEq, Eq)]
pub struct ColoredChar {
    pub ch: char,
    pub fg: Option<RgbColor>,
}

/// The cell produced for a buffer that fails the frame-length check.
pub open spec fn error_cell() -> ColoredChar {
    ColoredChar { ch: 'E', fg: None }
}

/// Perceptual luminance of an RGB triple, in fixed point:
/// (77*r + 150*g + 29*b) / 256, which approximates 0.30R + 0.59G + 0.11B.
/// For channels in [0, 255] the result is in [0, 255].
pub open spec fn luminance_spec(r: int, g: int, b: int) -> int {
    (77 * r + 150 * g + 29 * b) / 256
}

/// Index into a palette of `n` glyphs for a pixel of luminance `lum`:
/// (255 - lum) * (n - 1) / 255, clamped to [0, n-1].
/// Darker pixels map to higher indices (lighter-ink glyphs come first).
pub open spec fn glyph_index_spec(lum: int, n: int) -> int {
    let i = (255 - lum) * (n - 1) / 255;
    if i > n - 1 { n - 1 } else { i }
}

/// A frame is valid when it holds exactly width * height interleaved
/// 3-byte pixels and both dimensions are positive.
pub open spec fn valid_frame(len: int, fw: int, fh: int) -> bool {
    fw >= 1 && fh >= 1 && len == fw * fh * 3
}

/// Channel `c` of the source pixel at column `x`, row `y`.
pub open spec fn src_px(frame: Seq<u8>, fw: int, x: int, y: int, c: int) -> int {
    frame[(y * fw + x) * 3 + c] as int
}

/// Average of channel `c` over the 2x2 sample block whose top-left corner
/// is (sx, sy), with sample coordinates clamped to the frame bounds.
pub open spec fn avg_channel(frame: Seq<u8>, fw: int, fh: int, sx: int, sy: int, c: int) -> int {
    (src_px(frame, fw, vstd::math::min(sx, fw - 1), vstd::math::min(sy, fh - 1), c)
        + src_px(frame, fw, vstd::math::min(sx + 1, fw - 1), vstd::math::min(sy, fh - 1), c)
        + src_px(frame, fw, vstd::math::min(sx, fw - 1), vstd::math::min(sy + 1, fh - 1), c)
        + src_px(frame, fw, vstd::math::min(sx + 1, fw - 1), vstd::math::min(sy + 1, fh - 1), c))
        / 4
}

/// The output cell for target coordinate (x, y): the 2x2 area average around
/// the corresponding source pixel, mapped through the palette, with the
/// averaged color attached when color mode is on.
pub open spec fn cell_spec(
    frame: Seq<u8>,
    fw: int,
    fh: int,
    tw: int,
    th: int,
    palette: Seq<char>,
    color: bool,
    x: int,
    y: int,
) -> ColoredChar {
    let sx = x * fw / tw;
    let sy = y * fh / th;
    let r = avg_channel(frame, fw, fh, sx, sy, 0);
    let g = avg_channel(frame, fw, fh, sx, sy, 1);
    let b = avg_channel(frame, fw, fh, sx, sy, 2);
    let lum = luminance_spec(r, g, b);
    let idx = glyph_index_spec(lum, palette.len() as int);
    ColoredChar {
        ch: palette[idx],
        fg: if color {
            Some(RgbColor { r: r as u8, g: g as u8, b: b as u8 })
        } else {
            None
        },
    }
}

/// One scaled target dimension: d * s / 10 (s is the scale factor in tenths),
/// clamped below to 1 and above to u32::MAX.
pub open spec fn scaled_dim_spec(d: int, s: int) -> int {
    let v = d * s / 10;
    if v < 1 {
        1
    } else if v > u32::MAX as int {
        u32::MAX as int
    } else {
        v
    }
}

/// Conversion configuration: selected palette, target area, color mode, and
/// a scale factor held in tenths (10 means 1.0). The scale factor is kept
/// within [1, 20] tenths, that is [0.1, 2.0].
#[derive(Debug, Clone)]
pub struct AsciiConverter {
    pub character_set: CharacterSet,
    pub width: u32,
    pub height: u32,
    pub color_enabled: bool,
    pub scale_tenths: u16,
}

impl AsciiConverter {
    /// The scale factor stays within [0.1, 2.0], held as tenths.
    pub open spec fn wf(self) -> bool {
        1 <= self.scale_tenths <= 20
    }

    pub fn new(character_set: CharacterSet, width: u32, height: u32) -> (r: Self)
        ensures
            r == (AsciiConverter {
                character_set,
                width,
                height,
                color_enabled: false,
                scale_tenths: 10u16,
            }),
            r.wf(),
    {
        AsciiConverter { character_set, width, height, color_enabled: false, scale_tenths: 10 }
    }

    pub fn new_dense(width: u32, height: u32) -> (r: Self)
        ensures
            r == AsciiConverter::new_spec(CharacterSet::Dense, width, height),
            r.wf(),
    {
        Self::new(CharacterSet::Dense, width, height)
    }

    pub fn new_simple(width: u32, height: u32) -> (r: Self)
        ensures
            r == AsciiConverter::new_spec(CharacterSet::Simple, width, height),
            r.wf(),
    {
        Self::new(CharacterSet::Simple, width, height)
    }

    pub fn new_blocks(width: u32, height: u32) -> (r: Self)
        ensures
            r == AsciiConverter::new_spec(CharacterSet::Blocks, width, height),
            r.wf(),
    {
        Self::new(CharacterSet::Blocks, width, height)
    }

    pub open spec fn new_spec(character_set: CharacterSet, width: u32, height: u32) -> Self {
        AsciiConverter { character_set, width, height, color_enabled: false, scale_tenths: 10u16 }
    }

    pub fn character_set(&self) -> (r: CharacterSet)
        ensures
            r == self.character_set,
    {
        self.character_set
    }

    pub fn set_character_set(&mut self, character_set: CharacterSet)
        ensures
            *final(self) == (AsciiConverter { character_set, ..*old(self) }),
    {
        self.character_set = character_set;
    }

    pub fn width(&self) -> (r: u32)
        ensures
            r == self.width,
    {
        self.width
    }

    pub fn height(&self) -> (r: u32)
        ensures
            r == self.height,
    {
        self.height
    }

    pub fn resize(&mut self, width: u32, height: u32)
        ensures
            *final(self) == (AsciiConverter { width, height, ..*old(self) }),
    {
        self.width = width;
        self.height = height;
    }

    pub fn color_enabled(&self) -> (r: bool)
        ensures
            r == self.color_enabled,
    {
        self.color_enabled
    }

    pub fn set_color_enabled(&mut self, enabled: bool)
        ensures
            *final(self) == (AsciiConverter { color_enabled: enabled, ..*old(self) }),
    {
        self.color_enabled = enabled;
    }

    pub fn toggle_color(&mut self)
        ensures
            *final(self) == (AsciiConverter { color_enabled: !old(self).color_enabled, ..*old(self) }),
    {
        self.color_enabled = !self.color_enabled;
    }

    /// The scale factor in tenths (10 stands for a factor of 1.0).
    pub fn scale_tenths(&self) -> (r: u16)
        ensures
            r == self.scale_tenths,
    {
        self.scale_tenths
    }

    /// Sets the scale factor in tenths, clamped into [1, 20] ([0.1, 2.0]).
    pub fn set_scale_tenths(&mut self, tenths: u16)
        ensures
            *final(self) == (AsciiConverter {
                scale_tenths: (if tenths < 1 { 1u16 } else if tenths > 20 { 20u16 } else { tenths }),
                ..*old(self)
            }),
            final(self).wf(),
    {
        let clamped: u16 = if tenths < 1 {
            1
        } else if tenths > 20 {
            20
        } else {
            tenths
        };
        self.scale_tenths = clamped;
    }

    /// Raises the scale factor by one tenth, saturating at 2.0.
    pub fn increase_scale(&mut self)
        requires
            old(self).wf(),
        ensures
            *final(self) == (AsciiConverter {
                scale_tenths: (if old(self).scale_tenths + 1 > 20 { 20u16 } else { (old(self).scale_tenths + 1) as u16 }),
                ..*old(self)
            }),
            final(self).wf(),
    {
        if self.scale_tenths < 20 {
            self.scale_tenths = self.scale_tenths + 1;
        }
    }

    /// Lowers the scale factor by one tenth, saturating at 0.1.
    pub fn decrease_scale(&mut self)
        requires
            old(self).wf(),
        ensures
            *final(self) == (AsciiConverter {
                scale_tenths: (if old(self).scale_tenths - 1 < 1 { 1u16 } else { (old(self).scale_tenths - 1) as u16 }),
                ..*old(self)
            }),
            final(self).wf(),
    {
        if self.scale_tenths > 1 {
            self.scale_tenths = self.scale_tenths - 1;
        }
    }

    pub fn next_character_set(&mut self)
        ensures
            *final(self) == (AsciiConverter {
                character_set: old(self).character_set.next_spec(),
                ..*old(self)
            }),
    {
        let next = self.character_set.next();
        self.character_set = next;
    }

    pub fn previous_character_set(&mut self)
        ensures
            *final(self) == (AsciiConverter {
                character_set: old(self).character_set.previous_spec(),
                ..*old(self)
            }),
    {
        let prev = self.character_set.previous();
        self.character_set = prev;
    }

    /// The target grid dimensions: each display dimension scaled by the
    /// scale factor, floored, and clamped to at least 1.
    pub fn get_scaled_dimensions(&self) -> (r: (u32, u32))
        ensures
            r.0 as int == scaled_dim_spec(self.width as int, self.scale_tenths as int),
            r.1 as int == scaled_dim_spec(self.height as int, self.scale_tenths as int),
            r.0 >= 1,
            r.1 >= 1,
    {
        let w: u32 = scaled_dim(self.width, self.scale_tenths);
        let h: u32 = scaled_dim(self.height, self.scale_tenths);
        (w, h)
    }
}

impl Default for AsciiConverter {
    fn default() -> (r: Self)
        ensures
            r == AsciiConverter::new_spec(CharacterSet::Dense, 80u32, 24u32),
    {
        Self::new_dense(80, 24)
    }
}

fn scaled_dim(d: u32, s: u16) -> (r: u32)
    ensures
        r as int == scaled_dim_spec(d as int, s as int),
{
    proof {
        assert((d as int) * (s as int) <= 0xffff_ffff * 0xffff) by (nonlinear_arith)
            requires
                0 <= d <= 0xffff_ffffu64,
                0 <= s <= 0xffffu64,
        ;
    }
    let v: u64 = (d as u64) * (s as u64) / 10;
    if v < 1 {
        1
    } else if v > u32::MAX as u64 {
        u32::MAX
    } else {
        v as u32
    }
}

} // verus!

verus! {

/// Tests the frame-buffer invariant: positive dimensions and exactly
/// width * height * 3 bytes.
pub fn frame_ok(len: usize, fw: u32, fh: u32) -> (b: bool)
    ensures
        b == valid_frame(len as int, fw as int, fh as int),
{
    if fw == 0 || fh == 0 {
        return false;
    }
    proof {
        assert((fw as int) * (fh as int) <= 0xffff_ffff * 0xffff_ffff) by (nonlinear_arith)
            requires
                0 <= fw <= 0xffff_ffffu64,
                0 <= fh <= 0xffff_ffffu64,
        ;
    }
    let prod: u64 = (fw as u64) * (fh as u64);
    if prod > u64::MAX / 3 {
        proof {
            assert(!valid_frame(len as int, fw as int, fh as int));
        }
        return false;
    }
    let need: u64 = prod * 3;
    (len as u64) == need
}

/// Channel `c` of the source pixel at (x, y); the caller shows the index is
/// inside the buffer.
fn sample(frame: &[u8], fw: u32, x: u32, y: u32, c: u32) -> (v: u8)
    requires
        ((y as int) * (fw as int) + (x as int)) * 3 + (c as int) < frame@.len(),
    ensures
        v as int == src_px(frame@, fw as int, x as int, y as int, c as int),
{
    let flen: usize = frame.len();
    proof {
        assert(flen as int <= u64::MAX as int);
        assert(0 <= ((y as int) * (fw as int) + (x as int)) * 3 + (c as int)) by (nonlinear_arith)
            requires
                0 <= y && 0 <= fw && 0 <= x && 0 <= c,
        ;
    }
    let idx: u64 = ((y as u64) * (fw as u64) + (x as u64)) * 3 + (c as u64);
    frame[idx as usize]
}

/// A pixel coordinate clamped to the frame stays below the frame size, and
/// its interleaved byte index stays inside a valid buffer.
proof fn lemma_px_in_bounds(fw: int, fh: int, x: int, y: int)
    requires
        1 <= fw,
        1 <= fh,
        0 <= x < fw,
        0 <= y < fh,
    ensures
        0 <= (y * fw + x) * 3 + 2 < fw * fh * 3,
{
    assert((y * fw + x) * 3 + 2 < fw * fh * 3) by (nonlinear_arith)
        requires
            1 <= fw && 1 <= fh && 0 <= x < fw && 0 <= y < fh,
    ;
    assert(0 <= (y * fw + x) * 3) by (nonlinear_arith)
        requires
            0 <= x && 0 <= y && 0 <= fw,
    ;
}

/// The nearest source column/row for a target coordinate stays inside the
/// source: x * fw / tw < fw whenever x < tw.
proof fn lemma_src_coord_bound(x: int, f: int, t: int)
    requires
        0 <= x < t,
        1 <= f,
    ensures
        0 <= x * f / t < f,
{
    assert(0 <= x * f / t < f) by (nonlinear_arith)
        requires
            0 <= x < t && 1 <= f,
    ;
}

/// The glyph index before clamping never exceeds n - 1 for luminance in
/// [0, 255].
proof fn lemma_glyph_index_bound(lum: int, n: int)
    requires
        0 <= lum <= 255,
        1 <= n,
    ensures
        0 <= (255 - lum) * (n - 1) / 255 <= n - 1,
        glyph_index_spec(lum, n) == (255 - lum) * (n - 1) / 255,
{
    assert(0 <= (255 - lum) * (n - 1) / 255 <= n - 1) by (nonlinear_arith)
        requires
            0 <= lum <= 255 && 1 <= n,
    ;
}

/// The averaged channels and the glyph index for one target coordinate,
/// computed with 2x2 clamped area sampling exactly as `cell_spec` states;
/// `n` is the palette length.
fn cell_parts(
    frame: &[u8],
    fw: u32,
    fh: u32,
    tw: u32,
    th: u32,
    n: usize,
    x: u32,
    y: u32,
) -> (r: (u32, u32, u32, usize))
    requires
        valid_frame(frame@.len() as int, fw as int, fh as int),
        1 <= tw,
        1 <= th,
        x < tw,
        y < th,
        1 <= n <= 12,
    ensures
        ({
            let sx = (x as int) * (fw as int) / (tw as int);
            let sy = (y as int) * (fh as int) / (th as int);
            &&& r.0 as int == avg_channel(frame@, fw as int, fh as int, sx, sy, 0)
            &&& r.1 as int == avg_channel(frame@, fw as int, fh as int, sx, sy, 1)
            &&& r.2 as int == avg_channel(frame@, fw as int, fh as int, sx, sy, 2)
            &&& r.0 <= 255 && r.1 <= 255 && r.2 <= 255
            &&& r.3 as int == glyph_index_spec(
                luminance_spec(r.0 as int, r.1 as int, r.2 as int),
                n as int,
            )
            &&& r.3 < n
        }),
{
    proof {
        lemma_src_coord_bound(x as int, fw as int, tw as int);
        lemma_src_coord_bound(y as int, fh as int, th as int);
        assert((x as int) * (fw as int) <= 0xffff_ffff * 0xffff_ffff) by (nonlinear_arith)
            requires
                0 <= x <= 0xffff_ffffu64 && 0 <= fw <= 0xffff_ffffu64,
        ;
        assert((y as int) * (fh as int) <= 0xffff_ffff * 0xffff_ffff) by (nonlinear_arith)
            requires
                0 <= y <= 0xffff_ffffu64 && 0 <= fh <= 0xffff_ffffu64,
        ;
    }
    let sx: u32 = ((x as u64) * (fw as u64) / (tw as u64)) as u32;
    let sy: u32 = ((y as u64) * (fh as u64) / (th as u64)) as u32;
    let x0: u32 = if sx < fw - 1 { sx } else { fw - 1 };
    let x1: u32 = if sx + 1 < fw - 1 { sx + 1 } else { fw - 1 };
    let y0: u32 = if sy < fh - 1 { sy } else { fh - 1 };
    let y1: u32 = if sy + 1 < fh - 1 { sy + 1 } else { fh - 1 };
    proof {
        lemma_px_in_bounds(fw as int, fh as int, x0 as int, y0 as int);
        lemma_px_in_bounds(fw as int, fh as int, x1 as int, y0 as int);
        lemma_px_in_bounds(fw as int, fh as int, x0 as int, y1 as int);
        lemma_px_in_bounds(fw as int, fh as int, x1 as int, y1 as int);
    }
    let r_sum: u32 = sample(frame, fw, x0, y0, 0) as u32 + sample(frame, fw, x1, y0, 0) as u32
        + sample(frame, fw, x0, y1, 0) as u32 + sample(frame, fw, x1, y1, 0) as u32;
    let g_sum: u32 = sample(frame, fw, x0, y0, 1) as u32 + sample(frame, fw, x1, y0, 1) as u32
        + sample(frame, fw, x0, y1, 1) as u32 + sample(frame, fw, x1, y1, 1) as u32;
    let b_sum: u32 = sample(frame, fw, x0, y0, 2) as u32 + sample(frame, fw, x1, y0, 2) as u32
        + sample(frame, fw, x0, y1, 2) as u32 + sample(frame, fw, x1, y1, 2) as u32;
    let r_avg: u32 = r_sum / 4;
    let g_avg: u32 = g_sum / 4;
    let b_avg: u32 = b_sum / 4;
    let lum: u32 = (77 * r_avg + 150 * g_avg + 29 * b_avg) / 256;
    proof {
        assert(r_avg <= 255 && g_avg <= 255 && b_avg <= 255);
        assert(lum <= 255);
        lemma_glyph_index_bound(lum as int, n as int);
    }
    let gi64: u64 = ((255 - lum) as u64) * ((n - 1) as u64) / 255;
    let gi: usize = gi64 as usize;
    let gi: usize = if gi > n - 1 {
        n - 1
    } else {
        gi
    };
    (r_avg, g_avg, b_avg, gi)
}

/// The output cell for one target coordinate.
fn cell_for(
    frame: &[u8],
    fw: u32,
    fh: u32,
    tw: u32,
    th: u32,
    chars: &Vec<char>,
    color: bool,
    x: u32,
    y: u32,
) -> (c: ColoredChar)
    requires
        valid_frame(frame@.len() as int, fw as int, fh as int),
        1 <= tw,
        1 <= th,
        x < tw,
        y < th,
        1 <= chars@.len() <= 12,
    ensures
        c == cell_spec(
            frame@,
            fw as int,
            fh as int,
            tw as int,
            th as int,
            chars@,
            color,
            x as int,
            y as int,
        ),
{
    let p: (u32, u32, u32, usize) = cell_parts(frame, fw, fh, tw, th, chars.len(), x, y);
    let ch: char = chars[p.3];
    let fg: Option<RgbColor> = if color {
        Some(RgbColor { r: p.0 as u8, g: p.1 as u8, b: p.2 as u8 })
    } else {
        None
    };
    ColoredChar { ch, fg }
}

/// The grid that conversion owes for a valid frame under configuration `c`:
/// exactly the scaled target height of rows, each exactly the scaled target
/// width of cells, each cell as `cell_spec` states.
pub open spec fn converted_grid_ok(
    c: AsciiConverter,
    frame: Seq<u8>,
    fw: int,
    fh: int,
    out: Seq<Vec<ColoredChar>>,
) -> bool {
    let tw = scaled_dim_spec(c.width as int, c.scale_tenths as int);
    let th = scaled_dim_spec(c.height as int, c.scale_tenths as int);
    &&& out.len() == th
    &&& forall|y: int| 0 <= y < th ==> (#[trigger] out[y])@.len() == tw
    &&& forall|y: int, x: int|
        0 <= y < th && 0 <= x < tw ==> (#[trigger] out[y]@[x]) == cell_spec(
            frame,
            fw,
            fh,
            tw,
            th,
            c.character_set.chars_spec(),
            c.color_enabled,
            x,
            y,
        )
}

impl AsciiConverter {
    /// Converts a raw interleaved RGB frame to a grid of styled glyphs by
    /// 2x2 clamped area sampling. A buffer whose length is not
    /// width * height * 3 (or whose dimensions are zero) yields the single
    /// sentinel error cell and is never indexed.
    pub fn convert_rgb_frame_direct(
        &self,
        frame: &[u8],
        frame_width: u32,
        frame_height: u32,
    ) -> (out: Vec<Vec<ColoredChar>>)
        ensures
            valid_frame(frame@.len() as int, frame_width as int, frame_height as int)
                ==> converted_grid_ok(
                *self,
                frame@,
                frame_width as int,
                frame_height as int,
                out@,
            ),
            !valid_frame(frame@.len() as int, frame_width as int, frame_height as int) ==> (
            out@.len() == 1 && out@[0]@ =~= seq![error_cell()]),
    {
        if !frame_ok(frame.len(), frame_width, frame_height) {
            let row: Vec<ColoredChar> = vec![ColoredChar { ch: 'E', fg: None }];
            let out: Vec<Vec<ColoredChar>> = vec![row];
            return out;
        }
        let dims: (u32, u32) = self.get_scaled_dimensions();
        let tw: u32 = dims.0;
        let th: u32 = dims.1;
        let chars: Vec<char> = self.character_set.chars();
        let ghost tws = scaled_dim_spec(self.width as int, self.scale_tenths as int);
        let ghost ths = scaled_dim_spec(self.height as int, self.scale_tenths as int);
        let mut out: Vec<Vec<ColoredChar>> = Vec::new();
        let mut y: u32 = 0;
        while y < th
            invariant
                tw as int == tws,
                th as int == ths,
                1 <= tw,
                1 <= th,
                y <= th,
                chars@ == self.character_set.chars_spec(),
                1 <= chars@.len() <= 12,
                valid_frame(frame@.len() as int, frame_width as int, frame_height as int),
                out@.len() == y as int,
                forall|yy: int| 0 <= yy < y as int ==> (#[trigger] out@[yy])@.len() == tw as int,
                forall|yy: int, xx: int|
                    0 <= yy < y as int && 0 <= xx < tw as int ==> (#[trigger] out@[yy]@[xx])
                        == cell_spec(
                        frame@,
                        frame_width as int,
                        frame_height as int,
                        tw as int,
                        th as int,
                        self.character_set.chars_spec(),
                        self.color_enabled,
                        xx,
                        yy,
                    ),
            decreases th - y,
        {
            let mut row: Vec<ColoredChar> = Vec::new();
            let mut x: u32 = 0;
            while x < tw
                invariant
                    1 <= tw,
                    1 <= th,
                    x <= tw,
                    y < th,
                    chars@ == self.character_set.chars_spec(),
                    1 <= chars@.len() <= 12,
                    valid_frame(frame@.len() as int, frame_width as int, frame_height as int),
                    row@.len() == x as int,
                    forall|xx: int|
                        0 <= xx < x as int ==> (#[trigger] row@[xx]) == cell_spec(
                            frame@,
                            frame_width as int,
                            frame_height as int,
                            tw as int,
                            th as int,
                            self.character_set.chars_spec(),
                            self.color_enabled,
                            xx,
                            y as int,
                        ),
                decreases tw - x,
            {
                let c: ColoredChar = cell_for(
                    frame,
                    frame_width,
                    frame_height,
                    tw,
                    th,
                    &chars,
                    self.color_enabled,
                    x,
                    y,
                );
                row.push(c);
                x = x + 1;
            }
            out.push(row);
            y = y + 1;
        }
        out
    }
}

} // verus!

verus! {

/// For channels in [0, 255] the fixed-point luminance stays in [0, 255].
pub proof fn lemma_luminance_bounds(r: int, g: int, b: int)
    requires
        0 <= r <= 255,
        0 <= g <= 255,
        0 <= b <= 255,
    ensures
        0 <= luminance_spec(r, g, b) <= 255,
{
}

/// Monotonicity of the brightness mapping: of two luminance values, the
/// darker one (the smaller) is assigned a glyph index at least as large as
/// the brighter one, for every palette with at least one glyph. The index
/// is a pure function of luminance and palette length alone.
pub proof fn lemma_glyph_monotone(lum1: int, lum2: int, n: int)
    requires
        0 <= lum1 < lum2 <= 255,
        1 <= n,
    ensures
        glyph_index_spec(lum1, n) >= glyph_index_spec(lum2, n),
{
    vstd::arithmetic::mul::lemma_mul_inequality(255 - lum2, 255 - lum1, n - 1);
    vstd::arithmetic::div_mod::lemma_div_is_ordered(
        (255 - lum2) * (n - 1),
        (255 - lum1) * (n - 1),
        255,
    );
}

/// Monotonicity stated over whole pixels: a pixel of strictly smaller
/// luminance never receives a strictly smaller glyph index (darker pixels
/// keep same-or-denser glyphs), under any of the palettes.
pub proof fn lemma_pixel_monotone(
    r1: int,
    g1: int,
    b1: int,
    r2: int,
    g2: int,
    b2: int,
    n: int,
)
    requires
        0 <= r1 <= 255,
        0 <= g1 <= 255,
        0 <= b1 <= 255,
        0 <= r2 <= 255,
        0 <= g2 <= 255,
        0 <= b2 <= 255,
        luminance_spec(r1, g1, b1) < luminance_spec(r2, g2, b2),
        1 <= n,
    ensures
        glyph_index_spec(luminance_spec(r1, g1, b1), n) >= glyph_index_spec(
            luminance_spec(r2, g2, b2),
            n,
        ),
{
    lemma_luminance_bounds(r1, g1, b1);
    lemma_luminance_bounds(r2, g2, b2);
    lemma_glyph_monotone(luminance_spec(r1, g1, b1), luminance_spec(r2, g2, b2), n);
}

impl AsciiConverter {
    /// Converts a raw interleaved RGB frame to rows of glyphs, one `String`
    /// per target row, using the same sampling and brightness mapping as
    /// `convert_rgb_frame_direct` (color mode does not change the glyphs).
    /// An invalid buffer yields the single sentinel row.
    pub fn convert_rgb_frame(
        &self,
        frame: &[u8],
        frame_width: u32,
        frame_height: u32,
    ) -> (out: Vec<String>)
        ensures
            valid_frame(frame@.len() as int, frame_width as int, frame_height as int) ==> ({
                let tw = scaled_dim_spec(self.width as int, self.scale_tenths as int);
                let th = scaled_dim_spec(self.height as int, self.scale_tenths as int);
                &&& out@.len() == th
                &&& forall|y: int| 0 <= y < th ==> (#[trigger] out@[y])@.len() == tw
                &&& forall|y: int, x: int|
                    0 <= y < th && 0 <= x < tw ==> (#[trigger] out@[y]@[x]) == cell_spec(
                        frame@,
                        frame_width as int,
                        frame_height as int,
                        tw,
                        th,
                        self.character_set.chars_spec(),
                        self.color_enabled,
                        x,
                        y,
                    ).ch
            }),
            !valid_frame(frame@.len() as int, frame_width as int, frame_height as int) ==> (
            out@.len() == 1 && out@[0]@ == "Invalid frame data"@),
    {
        if !frame_ok(frame.len(), frame_width, frame_height) {
            let msg: String = String::from_str("Invalid frame data");
            let out: Vec<String> = vec![msg];
            return out;
        }
        let dims: (u32, u32) = self.get_scaled_dimensions();
        let tw: u32 = dims.0;
        let th: u32 = dims.1;
        let pal: &'static str = self.character_set.chars_str();
        let n: usize = pal.unicode_len();
        let ghost tws = scaled_dim_spec(self.width as int, self.scale_tenths as int);
        let ghost ths = scaled_dim_spec(self.height as int, self.scale_tenths as int);
        let mut out: Vec<String> = Vec::new();
        let mut y: u32 = 0;
        while y < th
            invariant
                tw as int == tws,
                th as int == ths,
                1 <= tw,
                1 <= th,
                y <= th,
                pal@ == self.character_set.chars_spec(),
                n == pal@.len(),
                1 <= n <= 12,
                valid_frame(frame@.len() as int, frame_width as int, frame_height as int),
                out@.len() == y as int,
                forall|yy: int| 0 <= yy < y as int ==> (#[trigger] out@[yy])@.len() == tw as int,
                forall|yy: int, xx: int|
                    0 <= yy < y as int && 0 <= xx < tw as int ==> (#[trigger] out@[yy]@[xx])
                        == cell_spec(
                        frame@,
                        frame_width as int,
                        frame_height as int,
                        tw as int,
                        th as int,
                        self.character_set.chars_spec(),
                        self.color_enabled,
                        xx,
                        yy,
                    ).ch,
            decreases th - y,
        {
            let mut row: String = String::new();
            let mut x: u32 = 0;
            while x < tw
                invariant
                    1 <= tw,
                    1 <= th,
                    x <= tw,
                    y < th,
                    pal@ == self.character_set.chars_spec(),
                    n == pal@.len(),
                    1 <= n <= 12,
                    valid_frame(frame@.len() as int, frame_width as int, frame_height as int),
                    row@.len() == x as int,
                    forall|xx: int|
                        0 <= xx < x as int ==> (#[trigger] row@[xx]) == cell_spec(
                            frame@,
                            frame_width as int,
                            frame_height as int,
                            tw as int,
                            th as int,
                            self.character_set.chars_spec(),
                            self.color_enabled,
                            xx,
                            y as int,
                        ).ch,
                decreases tw - x,
            {
                let p: (u32, u32, u32, usize) = cell_parts(
                    frame,
                    frame_width,
                    frame_height,
                    tw,
                    th,
                    n,
                    x,
                    y,
                );
                let gs: &str = pal.substring_char(p.3, p.3 + 1);
                row.append(gs);
                x = x + 1;
            }
            out.push(row);
            y = y + 1;
        }
        out
    }
}

} // verus!

verus! {

/// Conversion is a pure function of the frame and the configuration: any
/// two grids that conversion can produce for the same frame under the same
/// configuration are identical, row by row and cell by cell.
pub proof fn lemma_convert_deterministic(
    c: AsciiConverter,
    frame: Seq<u8>,
    fw: int,
    fh: int,
    out1: Seq<Vec<ColoredChar>>,
    out2: Seq<Vec<ColoredChar>>,
)
    requires
        converted_grid_ok(c, frame, fw, fh, out1),
        converted_grid_ok(c, frame, fw, fh, out2),
    ensures
        out1.len() == out2.len(),
        forall|y: int| 0 <= y < out1.len() ==> (#[trigger] out1[y])@ =~= out2[y]@,
{
    assert forall|y: int| 0 <= y < out1.len() implies (#[trigger] out1[y])@ =~= out2[y]@ by {
        let tw = scaled_dim_spec(c.width as int, c.scale_tenths as int);
        assert(out1[y]@.len() == tw);
        assert(out2[y]@.len() == tw);
        assert forall|x: int| 0 <= x < tw implies out1[y]@[x] == out2[y]@[x] by {
            assert(out1[y]@[x] == cell_spec(
                frame,
                fw,
                fh,
                tw,
                scaled_dim_spec(c.height as int, c.scale_tenths as int),
                c.character_set.chars_spec(),
                c.color_enabled,
                x,
                y,
            ));
        }
    }
}

} // verus!

verus! {

impl AsciiConverter {
    /// Converts a raw interleaved RGB frame to a grid of styled glyphs;
    /// the colored grid is exactly what `convert_rgb_frame_direct` owes,
    /// with the averaged color attached to each cell while color mode is
    /// on. An invalid buffer yields the single sentinel error cell.
    pub fn convert_rgb_frame_colored(
        &self,
        frame: &[u8],
        frame_width: u32,
        frame_height: u32,
    ) -> (out: Vec<Vec<ColoredChar>>)
        ensures
            valid_frame(frame@.len() as int, frame_width as int, frame_height as int)
                ==> converted_grid_ok(
                *self,
                frame@,
                frame_width as int,
                frame_height as int,
                out@,
            ),
            !valid_frame(frame@.len() as int, frame_width as int, frame_height as int) ==> (
            out@.len() == 1 && out@[0]@ =~= seq![error_cell()]),
    {
        self.convert_rgb_frame_direct(frame, frame_width, frame_height)
    }
}

} // verus!
