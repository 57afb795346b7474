//! Text layout and character-by-character reveal.
//!
//! A `Text` lays a string out on a fixed-cell font grid: spaces advance the
//! pen, newlines reset it to the next line, and every other character
//! becomes one glyph with its source cell in the font texture.  How many of
//! the glyphs are visible is a counter the reveal loop raises one per tick;
//! rendering the glyphs is the embedding application's concern.

use vstd::prelude::*;
use vstd::string::StrSliceExecFns;
use vstd::string::StringExecFns;

verus! {

/// Longest text a `Text` lays out, in characters.
pub const TEXT_LIMIT: usize = 10000;

/// Bound on a font cell's width or height, in pixels.
pub const CHAR_DIM_LIMIT: i32 = 64;

/// One glyph: the pixel offset of its cell in the font texture and the
/// pixel position of the glyph in the text block.
#[derive(Clone, Copy, Debug, PartialEq, Eq, Structural)]
pub struct Glyph {
    pub src_x: i32,
    pub src_y: i32,
    pub x: i32,
    pub y: i32,
}

/// The font cell a character is drawn from: the printable ASCII range maps
/// to its own code, the right-pointing cursor arrow and the horizontal
/// ellipsis have cells of their own, and everything else falls back to the
/// question mark.
pub open spec fn spec_glyph_code(c: char) -> int {
    if 0x21 <= c as int && c as int <= 0x7e {
        c as int
    } else if c as int == 0x25ba {
        16
    } else if c as int == 0x2026 {
        255
    } else {
        0x3f
    }
}

/// The glyph of character code `code` at pen position `(x, y)`, on a font
/// grid of sixteen columns of `cw` by `ch` cells.
pub open spec fn spec_glyph_at(code: int, cw: int, ch: int, x: int, y: int) -> Glyph {
    Glyph {
        src_x: ((code % 16) * cw) as i32,
        src_y: ((code / 16) * ch) as i32,
        x: x as i32,
        y: y as i32,
    }
}

/// The glyphs of `s` laid out from pen position `(x, y)`: a space advances
/// the pen by one cell, a newline returns it below the start of the line,
/// and any other character leaves a glyph and advances the pen.
pub open spec fn spec_layout(s: Seq<char>, cw: int, ch: int, x: int, y: int) -> Seq<Glyph>
    decreases s.len(),
{
    if s.len() == 0 {
        Seq::empty()
    } else if s[0] == ' ' {
        spec_layout(s.drop_first(), cw, ch, x + cw, y)
    } else if s[0] == '\n' {
        spec_layout(s.drop_first(), cw, ch, 0, y + ch)
    } else {
        seq![spec_glyph_at(spec_glyph_code(s[0]), cw, ch, x, y)] + spec_layout(
            s.drop_first(),
            cw,
            ch,
            x + cw,
            y,
        )
    }
}

/// A laid-out text block with a reveal counter.
pub struct Text {
    /// Screen position of the block's top-left corner.
    pub offset_x: i32,
    pub offset_y: i32,
    /// Font cell size.
    pub char_width: i32,
    pub char_height: i32,
    /// Extent of the laid-out glyphs.
    pub width: i32,
    pub height: i32,
    /// How many glyphs are visible.
    pub shown: usize,
    /// The laid-out glyphs.
    pub glyphs: Vec<Glyph>,
}

impl Text {
    /// Well-formedness: a sane font cell and no more visible glyphs than
    /// exist.
    pub open spec fn wf(self) -> bool {
        &&& 1 <= self.char_width <= CHAR_DIM_LIMIT
        &&& 1 <= self.char_height <= CHAR_DIM_LIMIT
        &&& self.shown <= self.glyphs.len()
        &&& self.glyphs.len() <= TEXT_LIMIT
        &&& 0 <= self.width
        &&& 0 <= self.height
    }

    /// An empty text block at the given position.
    pub fn new(x: i32, y: i32, char_width: i32, char_height: i32) -> (r: Text)
        requires
            1 <= char_width <= CHAR_DIM_LIMIT,
            1 <= char_height <= CHAR_DIM_LIMIT,
        ensures
            r.wf(),
            r.glyphs@ =~= Seq::<Glyph>::empty(),
            r.offset_x == x && r.offset_y == y,
            r.char_width == char_width && r.char_height == char_height,
            r.shown == 0 && r.width == 0 && r.height == 0,
    {
        Text {
            offset_x: x,
            offset_y: y,
            char_width,
            char_height,
            width: 0,
            height: 0,
            shown: 0,
            glyphs: Vec::new(),
        }
    }

    /// A text block at the given position holding `s`.
    pub fn from_str(x: i32, y: i32, char_width: i32, char_height: i32, s: &str) -> (r: Text)
        requires
            1 <= char_width <= CHAR_DIM_LIMIT,
            1 <= char_height <= CHAR_DIM_LIMIT,
            s@.len() <= TEXT_LIMIT,
        ensures
            r.wf(),
            r.glyphs@ == spec_layout(s@, char_width as int, char_height as int, 0, 0),
            r.shown == r.glyphs.len(),
            r.offset_x == x && r.offset_y == y,
            forall|i: int|
                0 <= i < r.glyphs@.len() ==> (#[trigger] r.glyphs@[i]).x + char_width <= r.width
                    && r.glyphs@[i].y + char_height <= r.height,
            r.glyphs@.len() == 0 ==> r.width == 0 && r.height == 0,
            r.glyphs@.len() > 0 ==> (exists|i: int|
                0 <= i < r.glyphs@.len() && (#[trigger] r.glyphs@[i]).x + char_width == r.width),
            r.glyphs@.len() > 0 ==> (exists|i: int|
                0 <= i < r.glyphs@.len() && (#[trigger] r.glyphs@[i]).y + char_height
                    == r.height),
    {
        let mut text = Text::new(x, y, char_width, char_height);
        text.set_text(s);
        text
    }

    /// Whether every glyph is visible.
    pub fn all_chars_shown(&self) -> (r: bool)
        ensures
            r == (self.shown >= self.glyphs.len()),
    {
        self.shown >= self.glyphs.len()
    }

    /// Hide every glyph.
    pub fn hide_all_chars(&mut self)
        ensures
            *final(self) == (Text { shown: 0, ..*old(self) }),
    {
        self.shown = 0;
    }

    /// Show every glyph.
    pub fn show_all_chars(&mut self)
        ensures
            *final(self) == (Text { shown: final(self).shown, ..*old(self) }),
            final(self).shown == old(self).glyphs.len(),
    {
        self.shown = self.glyphs.len();
    }

    /// Make one more glyph visible; the reveal loop calls this once per
    /// tick until every glyph shows.
    pub fn show_one_char(&mut self)
        ensures
            *final(self) == (Text { shown: final(self).shown, ..*old(self) }),
            final(self).shown == if old(self).shown < old(self).glyphs.len() {
                old(self).shown + 1
            } else {
                old(self).shown as int
            },
    {
        if self.shown < self.glyphs.len() {
            self.shown = self.shown + 1;
        }
    }

    /// Move the block.
    pub fn set_offset(&mut self, x: i32, y: i32)
        ensures
            *final(self) == (Text { offset_x: x, offset_y: y, ..*old(self) }),
    {
        self.offset_x = x;
        self.offset_y = y;
    }

    /// Pixel width of the laid-out block.
    pub fn width(&self) -> (r: i32)
        ensures
            r == self.width,
    {
        self.width
    }

    /// Pixel height of the laid-out block.
    pub fn height(&self) -> (r: i32)
        ensures
            r == self.height,
    {
        self.height
    }

    /// Lay out `s`, replacing the block's contents; every glyph starts
    /// visible.  The width and height cover exactly the glyphs laid out.
    pub fn set_text(&mut self, s: &str)
        requires
            old(self).wf(),
            s@.len() <= TEXT_LIMIT,
        ensures
            final(self).wf(),
            final(self).glyphs@ == spec_layout(
                s@,
                old(self).char_width as int,
                old(self).char_height as int,
                0,
                0,
            ),
            final(self).shown == final(self).glyphs.len(),
            final(self).offset_x == old(self).offset_x,
            final(self).offset_y == old(self).offset_y,
            final(self).char_width == old(self).char_width,
            final(self).char_height == old(self).char_height,
            forall|i: int|
                0 <= i < final(self).glyphs@.len() ==> (#[trigger] final(self).glyphs@[i]).x
                    + final(self).char_width <= final(self).width && final(self).glyphs@[i].y
                    + final(self).char_height <= final(self).height,
            // the extent is the exact bounding box: empty text has none, and
            // otherwise some glyph attains each edge
            final(self).glyphs@.len() == 0 ==> final(self).width == 0 && final(self).height == 0,
            final(self).glyphs@.len() > 0 ==> (exists|i: int|
                0 <= i < final(self).glyphs@.len() && (#[trigger] final(self).glyphs@[i]).x
                    + final(self).char_width == final(self).width),
            final(self).glyphs@.len() > 0 ==> (exists|i: int|
                0 <= i < final(self).glyphs@.len() && (#[trigger] final(self).glyphs@[i]).y
                    + final(self).char_height == final(self).height),
    {
        let cw = self.char_width;
        let ch = self.char_height;
        let len = s.unicode_len();
        let mut glyphs: Vec<Glyph> = Vec::new();
        let mut x: i32 = 0;
        let mut y: i32 = 0;
        let mut width: i32 = 0;
        let mut height: i32 = 0;
        let mut i: usize = 0;
        proof {
            assert(s@.skip(0) =~= s@);
        }
        while i < len
            invariant
                i <= len,
                len == s@.len() <= TEXT_LIMIT,
                1 <= cw <= CHAR_DIM_LIMIT,
                1 <= ch <= CHAR_DIM_LIMIT,
                0 <= x <= i * cw,
                0 <= y <= i * ch,
                0 <= width <= i * cw + cw,
                0 <= height <= i * ch + ch,
                glyphs.len() <= i,
                spec_layout(s@, cw as int, ch as int, 0, 0) == glyphs@ + spec_layout(
                    s@.skip(i as int),
                    cw as int,
                    ch as int,
                    x as int,
                    y as int,
                ),
                forall|k: int|
                    0 <= k < glyphs@.len() ==> (#[trigger] glyphs@[k]).x + cw <= width && glyphs@[
                        k
                    ].y + ch <= height,
                glyphs@.len() == 0 ==> width == 0 && height == 0,
                glyphs@.len() > 0 ==> (exists|k: int|
                    0 <= k < glyphs@.len() && (#[trigger] glyphs@[k]).x + cw == width),
                glyphs@.len() > 0 ==> (exists|k: int|
                    0 <= k < glyphs@.len() && (#[trigger] glyphs@[k]).y + ch == height),
            decreases len - i,
        {
            let c = s.get_char(i);
            let code = c as u32;
            proof {
                assert(s@.skip(i as int)[0] == s@[i as int]);
                assert(s@.skip(i as int).drop_first() =~= s@.skip(i as int + 1));
                assert(i * cw + cw == (i + 1) * cw) by (nonlinear_arith);
                assert(i * ch + ch == (i + 1) * ch) by (nonlinear_arith);
                assert((i + 1) * cw <= 640000) by (nonlinear_arith)
                    requires
                        0 <= i < 10000,
                        0 < cw <= 64,
                ;
                assert((i + 1) * ch <= 640000) by (nonlinear_arith)
                    requires
                        0 <= i < 10000,
                        0 < ch <= 64,
                ;
            }
            if code == 0x20 {
                x = x + cw;
            } else if code == 0x0a {
                x = 0;
                y = y + ch;
            } else {
                let cell: i32 = if 0x21 <= code && code <= 0x7e {
                    code as i32
                } else if code == 0x25ba {
                    16
                } else if code == 0x2026 {
                    255
                } else {
                    0x3f
                };
                proof {
                    assert(0 <= (cell % 16) * cw <= 960 && 0 <= (cell / 16) * ch <= 960)
                        by (nonlinear_arith)
                        requires
                            0 <= cell <= 255,
                            0 < cw <= 64,
                            0 < ch <= 64,
                    ;
                }
                let glyph = Glyph {
                    src_x: (cell % 16) * cw,
                    src_y: (cell / 16) * ch,
                    x,
                    y,
                };
                proof {
                    assert(cell == spec_glyph_code(s@[i as int]));
                    assert(glyph == spec_glyph_at(
                        spec_glyph_code(s@[i as int]),
                        cw as int,
                        ch as int,
                        x as int,
                        y as int,
                    ));
                }
                let ghost before_push = glyphs@;
                let ghost width_before: int = width as int;
                let ghost height_before: int = height as int;
                glyphs.push(glyph);
                if x + cw > width {
                    width = x + cw;
                }
                if y + ch > height {
                    height = y + ch;
                }
                proof {
                    let last = glyphs@.len() - 1;
                    assert(glyphs@[last] == glyph);
                    if glyph.x + cw == width {
                        assert(glyphs@[last].x + cw == width);
                    } else {
                        assert(width == width_before && before_push.len() > 0);
                        let k = choose|k: int|
                            0 <= k < before_push.len() && before_push[k].x + cw == width_before;
                        assert(glyphs@[k] == before_push[k]);
                        assert(glyphs@[k].x + cw == width);
                    }
                    if glyph.y + ch == height {
                        assert(glyphs@[last].y + ch == height);
                    } else {
                        assert(height == height_before && before_push.len() > 0);
                        let k = choose|k: int|
                            0 <= k < before_push.len() && before_push[k].y + ch == height_before;
                        assert(glyphs@[k] == before_push[k]);
                        assert(glyphs@[k].y + ch == height);
                    }
                }
                x = x + cw;
            }
            i = i + 1;
        }
        proof {
            assert(s@.skip(len as int) =~= Seq::<char>::empty());
            assert(glyphs@ + Seq::<Glyph>::empty() =~= glyphs@);
        }
        self.glyphs = glyphs;
        self.shown = self.glyphs.len();
        self.width = width;
        self.height = height;
    }
}

/// The decimal digits of `n`, most significant first.
pub open spec fn spec_decimal(n: int) -> Seq<char>
    recommends
        n >= 0,
    decreases n,
{
    if n < 10 {
        seq![(0x30 + if 0 <= n { n } else { 0 }) as char]
    } else {
        spec_decimal(n / 10).push((0x30 + n % 10) as char)
    }
}

/// One decimal digit as a string slice.
fn digit_str(d: u32) -> (r: &'static str)
    requires
        d < 10,
    ensures
        r@ =~= seq![(0x30 + d) as char],
{
    proof {
        reveal_strlit("0");
        reveal_strlit("1");
        reveal_strlit("2");
        reveal_strlit("3");
        reveal_strlit("4");
        reveal_strlit("5");
        reveal_strlit("6");
        reveal_strlit("7");
        reveal_strlit("8");
        reveal_strlit("9");
    }
    match d {
        0 => "0",
        1 => "1",
        2 => "2",
        3 => "3",
        4 => "4",
        5 => "5",
        6 => "6",
        7 => "7",
        8 => "8",
        _ => "9",
    }
}

/// `n` written in decimal.
pub fn u32_to_string(n: u32) -> (r: String)
    ensures
        r@ == spec_decimal(n as int),
    decreases n,
{
    if n < 10 {
        String::from_str(digit_str(n))
    } else {
        let prefix = u32_to_string(n / 10);
        prefix.concat(digit_str(n % 10))
    }
}

} // verus!
