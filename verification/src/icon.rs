//! Glyph fitter and icon renderer.
//!
//! The generator owns a font and turns a battery state into an encoded icon:
//! it formats the display text, finds by binary search the largest font scale
//! (in tenths of a pixel unit) whose rendered width stays under the square
//! canvas side, centers the text, rasterizes it and encodes the canvas as an
//! icon container.
//!
//! Text width is modeled in whole pixels from the font's integer metrics: the
//! sum of the glyphs' horizontal advances in font units, scaled by the pixel
//! scale over the font's unit height. The per-glyph unit lookups, the
//! rasterization and the container encoding are the trusted boundary; the
//! summation, scaling, search and centering arithmetic are verified.

use vstd::prelude::*;
use vstd::arithmetic::div_mod::lemma_div_is_ordered;
use vstd::arithmetic::mul::lemma_mul_inequality;
use vstd::arithmetic::power2::{pow2, lemma2_to64};
use owned_ttf_parser::AsFaceRef;
use crate::text::{build_text, display_text};

verus! {

/// Side length of the square icon canvas, in pixels.
pub const CANVAS_SIDE: u32 = 64;

/// Byte length of the RGBA canvas buffer.
pub const CANVAS_BYTES: usize = 16384;

/// Lower end of the scale search range, in tenths of a pixel-scale unit.
pub const SCALE_MIN_TENTHS: u32 = 10;

/// Upper end of the scale search range, in tenths of a pixel-scale unit.
pub const SCALE_MAX_TENTHS: u32 = 2000;

/// Errors of the rendering pipeline.
#[derive(Clone, Copy, Debug, PartialEq, Eq, Structural)]
pub enum IconError {
    /// The font bytes could not be parsed, or their vertical metrics are
    /// degenerate. Fatal at startup.
    FontRejected,
    /// A percentage outside 0..=100 was passed into the pipeline.
    PercentageOutOfRange,
    /// The icon container encoder failed; the encode path of the fixed
    /// canvas has no failing step, so the pipeline never produces this.
    EncodeFailed,
}

/// Whether the font parser accepts the bytes.
pub uninterp spec fn font_parses(data: Seq<u8>) -> bool;

/// The glyph id the font assigns to a character, if any.
pub uninterp spec fn glyph_id_spec(font: Seq<u8>, c: char) -> Option<u16>;

/// The horizontal advance of a glyph, in font units, if the font has one.
pub uninterp spec fn glyph_advance_spec(font: Seq<u8>, glyph: u16) -> Option<u16>;

/// The font's ascender, in font units.
pub uninterp spec fn ascent_units_spec(font: Seq<u8>) -> int;

/// The font's ascender minus its descender, in font units: the height a
/// pixel scale is spread over.
pub uninterp spec fn height_units_spec(font: Seq<u8>) -> int;

/// The RGBA bytes of a canvas after the text is drawn on it.
pub uninterp spec fn drawn_pixels(
    font: Seq<u8>,
    canvas: Seq<u8>,
    x: int,
    y: int,
    scale_tenths: int,
    text: Seq<char>,
) -> Seq<u8>;

/// The icon-container encoding of a canvas.
pub uninterp spec fn ico_encoding(pixels: Seq<u8>) -> Seq<u8>;

/// The advance of the glyph a character maps to, in font units; characters
/// without a glyph fall back to glyph 0, and a missing advance counts as 0.
pub open spec fn char_advance_units(font: Seq<u8>, c: char) -> int {
    let id = match glyph_id_spec(font, c) {
        Some(g) => g,
        None => 0u16,
    };
    match glyph_advance_spec(font, id) {
        Some(a) => a as int,
        None => 0,
    }
}

/// Total advance of a text, in font units.
pub open spec fn text_advance_units(font: Seq<u8>, text: Seq<char>) -> int
    decreases text.len(),
{
    if text.len() == 0 {
        0
    } else {
        text_advance_units(font, text.drop_last()) + char_advance_units(font, text.last())
    }
}

/// Rendered text width in whole pixels at a scale given in tenths:
/// the unit advance scaled by `scale / height`, truncated, and capped at
/// the widest representable width.
pub open spec fn width_px(font: Seq<u8>, text: Seq<char>, scale_tenths: int) -> int {
    let raw = text_advance_units(font, text) * scale_tenths / (10 * height_units_spec(font));
    if raw > u64::MAX as int {
        u64::MAX as int
    } else {
        raw
    }
}

/// Font ascent in whole pixels at a scale given in tenths.
pub open spec fn ascent_px(font: Seq<u8>, scale_tenths: int) -> int {
    ascent_units_spec(font) * scale_tenths / (10 * height_units_spec(font))
}

/// The scale the binary search settles on for the interval `[low, high]`:
/// while the interval is wider than the tolerance of one tenth, measure at
/// the midpoint and keep the half whose widths straddle the canvas side.
pub open spec fn fit_from(font: Seq<u8>, text: Seq<char>, low: int, high: int) -> int
    decreases high - low,
{
    if high - low <= 1 {
        (low + high) / 2
    } else {
        let mid = (low + high) / 2;
        if width_px(font, text, mid) < CANVAS_SIDE {
            fit_from(font, text, mid, high)
        } else {
            fit_from(font, text, low, mid)
        }
    }
}

/// The fitted scale for a text, from the full search range.
pub open spec fn fitted_scale(font: Seq<u8>, text: Seq<char>) -> int {
    fit_from(font, text, SCALE_MIN_TENTHS as int, SCALE_MAX_TENTHS as int)
}

/// Number of measurements the search makes on `[low, high]`.
pub open spec fn fit_steps(font: Seq<u8>, text: Seq<char>, low: int, high: int) -> nat
    decreases high - low,
{
    if high - low <= 1 {
        0
    } else {
        let mid = (low + high) / 2;
        if width_px(font, text, mid) < CANVAS_SIDE {
            1 + fit_steps(font, text, mid, high)
        } else {
            1 + fit_steps(font, text, low, mid)
        }
    }
}

/// An all-transparent RGBA canvas.
pub open spec fn blank_canvas() -> Seq<u8> {
    Seq::new(CANVAS_BYTES as nat, |i: int| 0u8)
}

/// Division by two truncated toward zero: the rounding that casting the
/// real-valued midpoint to an integer coordinate gives.
pub open spec fn half_toward_zero(d: int) -> int {
    if d >= 0 {
        d / 2
    } else {
        -((-d) / 2)
    }
}

/// The drawing origin along one axis for an extent: half the leftover space,
/// truncated toward zero and clamped to the coordinate type.
pub open spec fn origin_coord(extent: int) -> int {
    let t = half_toward_zero(CANVAS_SIDE - extent);
    if t < i32::MIN as int {
        i32::MIN as int
    } else {
        t
    }
}

/// The encoded icon for a battery state: the display text, drawn centered at
/// its fitted scale on a blank canvas, encoded as an icon container.
pub open spec fn icon_bytes(font: Seq<u8>, percentage: int, charging: bool) -> Seq<u8> {
    let text = display_text(percentage, charging);
    let s = fitted_scale(font, text);
    let x = origin_coord(width_px(font, text, s));
    let y = origin_coord(ascent_px(font, s));
    ico_encoding(drawn_pixels(font, blank_canvas(), x, y, s, text))
}

/// Unit advances are never negative.
pub proof fn lemma_text_advance_nonneg(font: Seq<u8>, text: Seq<char>)
    ensures
        text_advance_units(font, text) >= 0,
    decreases text.len(),
{
    if text.len() > 0 {
        lemma_text_advance_nonneg(font, text.drop_last());
    }
}

/// Rendered width is non-decreasing in the scale, for any fixed text: the
/// assumption the binary search rests on, here a proved property of the
/// width model.
pub proof fn lemma_width_monotone(font: Seq<u8>, text: Seq<char>, s1: int, s2: int)
    requires
        height_units_spec(font) >= 1,
        0 <= s1 <= s2,
    ensures
        width_px(font, text, s1) <= width_px(font, text, s2),
{
    let t = text_advance_units(font, text);
    lemma_text_advance_nonneg(font, text);
    lemma_mul_inequality(s1, s2, t);
    lemma_div_is_ordered(t * s1, t * s2, 10 * height_units_spec(font));
}

/// Bisection correctness on a straddling interval: the result lies in the
/// interval, the width at the result stays under the canvas side, and one
/// tolerance step above it no longer does — except at the ends of the range,
/// which the search never measures.
proof fn lemma_fit_from(font: Seq<u8>, text: Seq<char>, low: int, high: int)
    requires
        SCALE_MIN_TENTHS <= low < high <= SCALE_MAX_TENTHS,
        low == SCALE_MIN_TENTHS || width_px(font, text, low) < CANVAS_SIDE,
        high == SCALE_MAX_TENTHS || width_px(font, text, high) >= CANVAS_SIDE,
    ensures
        low <= fit_from(font, text, low, high) < high,
        fit_from(font, text, low, high) == SCALE_MIN_TENTHS || width_px(
            font,
            text,
            fit_from(font, text, low, high),
        ) < CANVAS_SIDE,
        fit_from(font, text, low, high) + 1 == SCALE_MAX_TENTHS || width_px(
            font,
            text,
            fit_from(font, text, low, high) + 1,
        ) >= CANVAS_SIDE,
    decreases high - low,
{
    if high - low <= 1 {
        assert(fit_from(font, text, low, high) == low);
    } else {
        let mid = (low + high) / 2;
        if width_px(font, text, mid) < CANVAS_SIDE {
            lemma_fit_from(font, text, mid, high);
        } else {
            lemma_fit_from(font, text, low, mid);
        }
    }
}

/// The fitted scale lies in the search range; its width stays under the
/// canvas side and the width one tolerance step above it does not — except
/// at the two ends of the range, which the search never measures.
pub proof fn lemma_fit_bisection(font: Seq<u8>, text: Seq<char>)
    ensures
        SCALE_MIN_TENTHS <= fitted_scale(font, text) < SCALE_MAX_TENTHS,
        fitted_scale(font, text) == SCALE_MIN_TENTHS || width_px(
            font,
            text,
            fitted_scale(font, text),
        ) < CANVAS_SIDE,
        fitted_scale(font, text) + 1 == SCALE_MAX_TENTHS || width_px(
            font,
            text,
            fitted_scale(font, text) + 1,
        ) >= CANVAS_SIDE,
{
    lemma_fit_from(font, text, SCALE_MIN_TENTHS as int, SCALE_MAX_TENTHS as int);
}

/// The fitted scale is maximal up to the tolerance: at every scale beyond
/// one tolerance step above it — short of the top of the range, which the
/// search never measures — the text no longer fits the canvas side.
pub proof fn lemma_fit_maximal(font: Seq<u8>, text: Seq<char>, s: int)
    requires
        height_units_spec(font) >= 1,
        fitted_scale(font, text) + 1 <= s,
        fitted_scale(font, text) + 1 != SCALE_MAX_TENTHS,
    ensures
        width_px(font, text, s) >= CANVAS_SIDE,
{
    lemma_fit_bisection(font, text);
    lemma_width_monotone(font, text, fitted_scale(font, text) + 1, s);
}

/// A search on an interval no wider than `pow2(b)` measures at most `b`
/// times.
proof fn lemma_fit_steps_from(font: Seq<u8>, text: Seq<char>, low: int, high: int, b: nat)
    requires
        low < high,
        high - low <= pow2(b),
    ensures
        fit_steps(font, text, low, high) <= b,
    decreases b,
{
    if high - low > 1 {
        let mid = (low + high) / 2;
        assert(b >= 1) by {
            lemma2_to64();
            if b == 0 {
                assert(pow2(0) == 1);
            }
        }
        assert(pow2(b) == 2 * pow2((b - 1) as nat)) by {
            vstd::arithmetic::power2::lemma_pow2_unfold(b);
        }
        assert(high - mid <= pow2((b - 1) as nat));
        assert(mid - low <= pow2((b - 1) as nat));
        if width_px(font, text, mid) < CANVAS_SIDE {
            lemma_fit_steps_from(font, text, mid, high, (b - 1) as nat);
        } else {
            lemma_fit_steps_from(font, text, low, mid, (b - 1) as nat);
        }
    }
}

/// The search terminates in a bounded number of measurements: from the full
/// range it halves the interval each step and settles within 11.
pub proof fn lemma_fit_terminates(font: Seq<u8>, text: Seq<char>)
    ensures
        fit_steps(font, text, SCALE_MIN_TENTHS as int, SCALE_MAX_TENTHS as int) <= 11,
{
    lemma2_to64();
    lemma_fit_steps_from(font, text, SCALE_MIN_TENTHS as int, SCALE_MAX_TENTHS as int, 11);
}

#[verifier::external_type_specification]
#[verifier::external_body]
pub struct ExFontVec(ab_glyph::FontVec);

#[verifier::external_type_specification]
#[verifier::external_body]
pub struct ExOwnedFace(owned_ttf_parser::OwnedFace);

/// Renders battery-state icons with a font loaded once at startup.
pub struct BatteryIconGenerator {
    font: ab_glyph::FontVec,
    face: owned_ttf_parser::OwnedFace,
    data: Vec<u8>,
    ascent_units: i32,
    height_units: i32,
}

impl BatteryIconGenerator {
    /// The bytes the generator's font was parsed from.
    pub closed spec fn font_bytes(&self) -> Seq<u8> {
        self.data@
    }

    /// A well-formed generator caches its font's vertical metrics, and they
    /// are not degenerate.
    pub closed spec fn wf(&self) -> bool {
        &&& self.ascent_units as int == ascent_units_spec(self.data@)
        &&& self.height_units as int == height_units_spec(self.data@)
        &&& 0 <= self.ascent_units <= 0x7fff
        &&& 1 <= self.height_units <= 0xffff
    }

    /// A well-formed generator's font has a positive unit height and a
    /// non-negative ascender: the premises of the width lemmas, exported so
    /// callers can discharge them from well-formedness alone.
    pub proof fn lemma_wf_metrics(&self)
        requires
            self.wf(),
        ensures
            height_units_spec(self.font_bytes()) >= 1,
            ascent_units_spec(self.font_bytes()) >= 0,
    {
    }

    /// Relies on ab_glyph::FontVec::try_from_vec and
    /// owned_ttf_parser::OwnedFace::from_vec (the same TrueType parser
    /// underneath): acceptance and the metrics are deterministic functions
    /// of the bytes, so `font_parses` names acceptance by both
    /// constructions. The returned metrics are ttf-parser's ascender and
    /// ascender minus descender (hhea, or the OS/2 typographic metrics when
    /// the font selects them), both differences of i16 table fields.
    #[verifier::external_body]
    fn parse_font(font_data: Vec<u8>) -> (r: Option<Self>)
        ensures
            r is Some <==> font_parses(font_data@),
            r is Some ==> {
                &&& r.unwrap().font_bytes() == font_data@
                &&& r.unwrap().ascent_units as int == ascent_units_spec(font_data@)
                &&& r.unwrap().height_units as int == height_units_spec(font_data@)
                &&& -0x8000 <= r.unwrap().ascent_units <= 0x7fff
                &&& -0xffff <= r.unwrap().height_units <= 0xffff
            },
    {
        let font = ab_glyph::FontVec::try_from_vec(font_data.clone()).ok()?;
        let face = owned_ttf_parser::OwnedFace::from_vec(font_data.clone(), 0).ok()?;
        let ascent = face.as_face_ref().ascender() as i32;
        let descent = face.as_face_ref().descender() as i32;
        Some(BatteryIconGenerator {
            font,
            face,
            data: font_data,
            ascent_units: ascent,
            height_units: ascent - descent,
        })
    }

    /// Loads the font the generator draws with: succeeds exactly when the
    /// bytes parse as a font whose vertical metrics are not degenerate.
    /// Failure is fatal for the caller's startup.
    pub fn new(font_data: Vec<u8>) -> (r: Result<Self, IconError>)
        ensures
            r is Ok <==> font_parses(font_data@) && ascent_units_spec(font_data@) >= 0
                && height_units_spec(font_data@) >= 1,
            r is Ok ==> r.unwrap().wf() && r.unwrap().font_bytes() == font_data@,
            r is Err ==> r->Err_0 == IconError::FontRejected,
    {
        match Self::parse_font(font_data) {
            Some(g) => {
                if g.ascent_units >= 0 && g.height_units >= 1 {
                    Ok(g)
                } else {
                    Err(IconError::FontRejected)
                }
            },
            None => Err(IconError::FontRejected),
        }
    }

    /// Relies on ttf_parser::Face::glyph_index: the glyph id of a character
    /// is a function of the font data alone; None when the font maps no
    /// glyph to it.
    #[verifier::external_body]
    fn glyph_id_of(&self, c: char) -> (r: Option<u16>)
        ensures
            r == glyph_id_spec(self.font_bytes(), c),
    {
        self.face.as_face_ref().glyph_index(c).map(|g| g.0)
    }

    /// Relies on ttf_parser::Face::glyph_hor_advance: the horizontal advance
    /// of a glyph in font units is a function of the font data alone; None
    /// when the glyph is out of the font's range.
    #[verifier::external_body]
    fn advance_units_of(&self, glyph: u16) -> (r: Option<u16>)
        ensures
            r == glyph_advance_spec(self.font_bytes(), glyph),
    {
        self.face.as_face_ref().glyph_hor_advance(owned_ttf_parser::GlyphId(glyph))
    }

    /// The unit advance of one character, with the fallbacks of the model:
    /// glyph 0 for unmapped characters, advance 0 for missing metrics.
    fn char_advance(&self, c: char) -> (r: u16)
        ensures
            r as int == char_advance_units(self.font_bytes(), c),
    {
        let id = match self.glyph_id_of(c) {
            Some(g) => g,
            None => 0u16,
        };
        match self.advance_units_of(id) {
            Some(a) => a,
            None => 0u16,
        }
    }

    /// Measures a text at a scale in tenths: rendered width and font ascent,
    /// both in whole pixels.
    pub fn measure_text(&self, text: &str, scale_tenths: u32) -> (r: (u64, u64))
        requires
            self.wf(),
            SCALE_MIN_TENTHS <= scale_tenths <= SCALE_MAX_TENTHS,
        ensures
            r.0 as int == width_px(self.font_bytes(), text@, scale_tenths as int),
            r.1 as int == ascent_px(self.font_bytes(), scale_tenths as int),
    {
        let n = text.unicode_len();
        let mut acc: u128 = 0;
        let mut i: usize = 0;
        while i < n
            invariant
                self.wf(),
                n == text@.len(),
                i <= n,
                acc == text_advance_units(self.font_bytes(), text@.subrange(0, i as int)),
                acc <= i * 0x10000,
            decreases n - i,
        {
            let a = self.char_advance(text.get_char(i));
            proof {
                assert(text@.subrange(0, i + 1).drop_last() =~= text@.subrange(0, i as int));
                assert(text@.subrange(0, i + 1).last() == text@[i as int]);
            }
            acc = acc + a as u128;
            i = i + 1;
        }
        proof {
            assert(text@.subrange(0, n as int) =~= text@);
            lemma_mul_inequality(i as int, 0xffff_ffff_ffff_ffff, 0x10000);
            assert(acc * (scale_tenths as u128) <= 0xffff_ffff_ffff_ffff_0000 * 2000)
                by (nonlinear_arith)
                requires
                    acc <= 0xffff_ffff_ffff_ffff_0000u128,
                    scale_tenths <= 2000,
            ;
            assert((self.ascent_units as u64) * (scale_tenths as u64) <= 0x7fff * 2000)
                by (nonlinear_arith)
                requires
                    0 <= self.ascent_units <= 0x7fff,
                    scale_tenths <= 2000,
            ;
        }
        let h = self.height_units as u128;
        let w_raw = acc * (scale_tenths as u128) / (10 * h);
        let w: u64 = if w_raw > 0xffff_ffff_ffff_ffff { u64::MAX } else { w_raw as u64 };
        let a_raw = (self.ascent_units as u64) * (scale_tenths as u64) / (10
            * (self.height_units as u64));
        (w, a_raw)
    }

    /// Binary search for the largest scale, in tenths, whose rendered width
    /// stays under the canvas side, within a tolerance of one tenth.
    pub fn find_scale_for_width(&self, text: &str) -> (r: u32)
        requires
            self.wf(),
        ensures
            r as int == fitted_scale(self.font_bytes(), text@),
            SCALE_MIN_TENTHS <= r < SCALE_MAX_TENTHS,
    {
        let ghost steps_left: nat = fit_steps(
            self.font_bytes(),
            text@,
            SCALE_MIN_TENTHS as int,
            SCALE_MAX_TENTHS as int,
        );
        proof {
            lemma_fit_terminates(self.font_bytes(), text@);
        }
        let mut low: u32 = SCALE_MIN_TENTHS;
        let mut high: u32 = SCALE_MAX_TENTHS;
        let ghost mut measured: nat = 0;
        while high - low > 1
            invariant
                self.wf(),
                SCALE_MIN_TENTHS <= low < high <= SCALE_MAX_TENTHS,
                fit_from(self.font_bytes(), text@, low as int, high as int) == fitted_scale(
                    self.font_bytes(),
                    text@,
                ),
                measured + fit_steps(self.font_bytes(), text@, low as int, high as int)
                    == steps_left,
                measured <= 11,
                steps_left <= 11,
            decreases high - low,
        {
            let mid = (low + high) / 2;
            let (w, _) = self.measure_text(text, mid);
            if w < CANVAS_SIDE as u64 {
                low = mid;
            } else {
                high = mid;
            }
            proof {
                measured = measured + 1;
            }
        }
        (low + high) / 2
    }

    /// The top-left drawing origin that centers a box of the given width and
    /// height on the canvas, truncated toward zero.
    pub fn compute_position(&self, width: u64, height: u64) -> (r: (i32, i32))
        ensures
            r.0 as int == origin_coord(width as int),
            r.1 as int == origin_coord(height as int),
    {
        (Self::origin_for(width), Self::origin_for(height))
    }

    /// One axis of `compute_position`.
    fn origin_for(extent: u64) -> (r: i32)
        ensures
            r as int == origin_coord(extent as int),
    {
        let d: i128 = CANVAS_SIDE as i128 - extent as i128;
        let t: i128 = if d >= 0 {
            d / 2
        } else {
            -((-d) / 2)
        };
        if t < -0x8000_0000i128 {
            i32::MIN
        } else {
            t as i32
        }
    }

    /// A fresh all-transparent canvas.
    fn new_canvas() -> (r: Vec<u8>)
        ensures
            r@ == blank_canvas(),
    {
        let mut v: Vec<u8> = Vec::new();
        let mut i: usize = 0;
        while i < CANVAS_BYTES
            invariant
                i <= CANVAS_BYTES,
                v@.len() == i,
                forall|j: int| 0 <= j < i ==> v@[j] == 0u8,
            decreases CANVAS_BYTES - i,
        {
            v.push(0u8);
            i = i + 1;
        }
        proof {
            assert(v@ =~= blank_canvas());
        }
        v
    }

    /// Relies on imageproc::drawing::draw_text_mut with the generator's
    /// ab_glyph font: the drawn pixels are a function of the font data, the
    /// starting canvas, the position, the scale and the text alone, and the
    /// canvas keeps its size. The canvas travels as the raw RGBA bytes of
    /// the fixed square canvas; the text is drawn opaque black; the
    /// fractional pixel scale is the given number of tenths.
    #[verifier::external_body]
    fn draw_text(&self, canvas: Vec<u8>, x: i32, y: i32, scale_tenths: u32, text: &str) -> (r:
        Vec<u8>)
        requires
            canvas@.len() == CANVAS_BYTES,
        ensures
            r@ == drawn_pixels(
                self.font_bytes(),
                canvas@,
                x as int,
                y as int,
                scale_tenths as int,
                text@,
            ),
            r@.len() == canvas@.len(),
    {
        let mut img = image::RgbaImage::from_raw(CANVAS_SIDE, CANVAS_SIDE, canvas).unwrap();
        // The drawing call takes the fractional scale itself: tenths / 10,
        // rebuilt here from its decimal digits.
        let t = format!("{}.{}", scale_tenths / 10, scale_tenths % 10);
        let v = t.parse().unwrap();
        let scale = ab_glyph::PxScale { x: v, y: v };
        imageproc::drawing::draw_text_mut(
            &mut img,
            image::Rgba([0u8, 0u8, 0u8, 255u8]),
            x,
            y,
            scale,
            &self.font,
            text,
        );
        img.into_raw()
    }

    /// Relies on image::ImageBuffer::write_to with the ICO format: the
    /// encoded container bytes are a function of the pixel bytes alone, and
    /// for a fixed square RGBA canvas of the required length, written to an
    /// in-memory buffer, no step of the encode path can fail (the dimension
    /// and length checks pass by construction and the sink is infallible),
    /// so encoding succeeds. A failure would surface as EncodeFailed.
    #[verifier::external_body]
    fn encode_ico(canvas: &Vec<u8>) -> (r: Result<Vec<u8>, IconError>)
        requires
            canvas@.len() == CANVAS_BYTES,
        ensures
            r is Ok,
            r->Ok_0@ == ico_encoding(canvas@),
    {
        let img = image::RgbaImage::from_raw(CANVAS_SIDE, CANVAS_SIDE, canvas.clone()).unwrap();
        let mut out = std::io::Cursor::new(Vec::new());
        match img.write_to(&mut out, image::ImageFormat::Ico) {
            Ok(()) => Ok(out.into_inner()),
            Err(_) => Err(IconError::EncodeFailed),
        }
    }

    /// Draws the text at the given origin and scale on a blank canvas and
    /// encodes the result. Rendering always succeeds — encoding the fixed
    /// canvas has no failing step — and is deterministic: the bytes are a
    /// function of the font and the arguments, so repeated calls agree.
    pub fn render_icon(&self, x: i32, y: i32, scale_tenths: u32, text: &str) -> (r: Result<
        Vec<u8>,
        IconError,
    >)
        ensures
            r is Ok,
            r->Ok_0@ == ico_encoding(
                drawn_pixels(
                    self.font_bytes(),
                    blank_canvas(),
                    x as int,
                    y as int,
                    scale_tenths as int,
                    text@,
                ),
            ),
    {
        let canvas = Self::new_canvas();
        let drawn = self.draw_text(canvas, x, y, scale_tenths, text);
        Self::encode_ico(&drawn)
    }

    /// The whole pipeline for one battery state: validate the percentage,
    /// format the text, fit the scale, center, draw and encode. Rejects
    /// exactly the percentages above 100, without rendering; every in-range
    /// percentage yields the encoded icon.
    pub fn generate_icon(&self, percentage: u32, charging: bool) -> (r: Result<
        Vec<u8>,
        IconError,
    >)
        requires
            self.wf(),
        ensures
            percentage > 100 <==> (r matches Err(e) && e == IconError::PercentageOutOfRange),
            percentage <= 100 ==> r is Ok && r->Ok_0@ == icon_bytes(
                self.font_bytes(),
                percentage as int,
                charging,
            ),
    {
        if percentage > 100 {
            return Err(IconError::PercentageOutOfRange);
        }
        let text = build_text(percentage, charging);
        let scale = self.find_scale_for_width(text.as_str());
        let (width, height) = self.measure_text(text.as_str(), scale);
        let (x, y) = self.compute_position(width, height);
        self.render_icon(x, y, scale, text.as_str())
    }
}

} // verus!
