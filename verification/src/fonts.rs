//! Fonts: the glyph-atlas layout and the font registry.
//!
//! A font is rasterised once into a square atlas texture of fixed-size
//! cells, column by column.  Rasterisation itself happens in the platform
//! layer (it is all floating-point coverage work); the core owns the
//! deterministic part: which characters the atlas holds, where each one's
//! cell sits, and the registry screens fetch loaded fonts from.  The
//! registry is an explicit object handed to whoever needs it, so there is
//! no hidden initialisation order to get wrong.

use vstd::prelude::*;

verus! {

/// Edge length of one glyph cell in the atlas, in pixels.
pub const FONT_RASTER_SIZE: u32 = 300;

/// Number of cells along each edge of the atlas.
pub const GRID_SIZE: u32 = 9;

/// Where one glyph sits in the atlas: the cell origin and the rasterised
/// extent within the cell, in pixels.
#[derive(Clone, Copy, Debug, PartialEq, Eq, Structural)]
pub struct GlyphRect {
    pub x: u32,
    pub y: u32,
    pub width: u32,
    pub height: u32,
}

/// One loaded font: the texture holding its rasterised atlas and the
/// placement of every character, in atlas fill order.
#[derive(Debug)]
pub struct FontData {
    pub texture_id: u32,
    pub char_map: Vec<(char, GlyphRect)>,
}

/// The characters every atlas holds, in the order their cells are
/// filled.
pub open spec fn spec_font_chars() -> Seq<char> {
    seq![
        'A', 'B', 'C', 'D', 'E', 'F', 'G', 'H', 'I', 'J', 'K', 'L', 'M', 'N', 'O', 'P', 'Q', 'R',
        'S', 'T', 'U', 'V', 'W', 'X', 'Y', 'Z', 'a', 'b', 'c', 'd', 'e', 'f', 'g', 'h', 'i', 'j',
        'k', 'l', 'm', 'n', 'o', 'p', 'q', 'r', 's', 't', 'u', 'v', 'w', 'x', 'y', 'z', '0', '1',
        '2', '3', '4', '5', '6', '7', '8', '9', ',', '.', '!', '?', '*',
    ]
}

/// Executable twin of [`spec_font_chars`].
#[verifier::rlimit(50)]
pub fn font_chars() -> (r: Vec<char>)
    ensures
        r@ == spec_font_chars(),
{
    let mut r: Vec<char> = Vec::new();
    r.push('A');
    r.push('B');
    r.push('C');
    r.push('D');
    r.push('E');
    r.push('F');
    r.push('G');
    r.push('H');
    r.push('I');
    r.push('J');
    r.push('K');
    r.push('L');
    r.push('M');
    r.push('N');
    r.push('O');
    r.push('P');
    r.push('Q');
    r.push('R');
    r.push('S');
    r.push('T');
    r.push('U');
    r.push('V');
    r.push('W');
    r.push('X');
    r.push('Y');
    r.push('Z');
    r.push('a');
    r.push('b');
    r.push('c');
    r.push('d');
    r.push('e');
    r.push('f');
    r.push('g');
    r.push('h');
    r.push('i');
    r.push('j');
    r.push('k');
    r.push('l');
    r.push('m');
    r.push('n');
    r.push('o');
    r.push('p');
    r.push('q');
    r.push('r');
    r.push('s');
    r.push('t');
    r.push('u');
    r.push('v');
    r.push('w');
    r.push('x');
    r.push('y');
    r.push('z');
    r.push('0');
    r.push('1');
    r.push('2');
    r.push('3');
    r.push('4');
    r.push('5');
    r.push('6');
    r.push('7');
    r.push('8');
    r.push('9');
    r.push(',');
    r.push('.');
    r.push('!');
    r.push('?');
    r.push('*');
    proof {
        assert(r@ =~= spec_font_chars());
    }
    r
}

/// The placement of the glyph filled `k`-th into the atlas: cells are
/// filled column by column, and the rasterised extent comes from the
/// rasteriser.
pub open spec fn spec_glyph_rect(k: int, size: (u32, u32)) -> GlyphRect {
    GlyphRect {
        x: ((k / (GRID_SIZE as int)) * (FONT_RASTER_SIZE as int)) as u32,
        y: ((k % (GRID_SIZE as int)) * (FONT_RASTER_SIZE as int)) as u32,
        width: size.0,
        height: size.1,
    }
}

/// Lay the atlas out: pair every character with its cell, taking each
/// glyph's rasterised extent from `sizes` (one entry per character, in
/// atlas fill order).
pub fn build_char_map(sizes: &Vec<(u32, u32)>) -> (r: Vec<(char, GlyphRect)>)
    requires
        sizes@.len() == spec_font_chars().len(),
    ensures
        r@.len() == spec_font_chars().len(),
        forall|k: int|
            0 <= k < r@.len() ==> (#[trigger] r@[k]).0 == spec_font_chars()[k] && r@[k].1
                == spec_glyph_rect(k, sizes@[k]),
{
    let chars = font_chars();
    let mut r: Vec<(char, GlyphRect)> = Vec::new();
    let mut k: usize = 0;
    while k < chars.len()
        invariant
            chars@ == spec_font_chars(),
            sizes@.len() == spec_font_chars().len(),
            k <= chars@.len(),
            r@.len() == k,
            forall|j: int|
                0 <= j < k ==> (#[trigger] r@[j]).0 == spec_font_chars()[j] && r@[j].1
                    == spec_glyph_rect(j, sizes@[j]),
        decreases chars@.len() - k,
    {
        let size = sizes[k];
        let column = (k as u32) / GRID_SIZE;
        let row = (k as u32) % GRID_SIZE;
        let rect = GlyphRect {
            x: column * FONT_RASTER_SIZE,
            y: row * FONT_RASTER_SIZE,
            width: size.0,
            height: size.1,
        };
        r.push((chars[k], rect));
        k = k + 1;
    }
    r
}

impl FontData {
    /// Width of the whole atlas texture, in pixels.
    pub fn full_width(&self) -> (r: u32)
        ensures
            r == FONT_RASTER_SIZE * GRID_SIZE,
    {
        FONT_RASTER_SIZE * GRID_SIZE
    }

    /// Width of one glyph cell, in pixels.
    pub fn single_width(&self) -> (r: u32)
        ensures
            r == FONT_RASTER_SIZE,
    {
        FONT_RASTER_SIZE
    }

    /// Height of the whole atlas texture, in pixels.
    pub fn full_height(&self) -> (r: u32)
        ensures
            r == FONT_RASTER_SIZE * GRID_SIZE,
    {
        FONT_RASTER_SIZE * GRID_SIZE
    }

    /// Height of one glyph cell, in pixels.
    pub fn single_height(&self) -> (r: u32)
        ensures
            r == FONT_RASTER_SIZE,
    {
        FONT_RASTER_SIZE
    }

    /// A copy that shares nothing with the original.
    pub fn duplicate(&self) -> (r: FontData)
        ensures
            r.texture_id == self.texture_id,
            r.char_map@ == self.char_map@,
    {
        let mut char_map: Vec<(char, GlyphRect)> = Vec::new();
        let mut k: usize = 0;
        while k < self.char_map.len()
            invariant
                k <= self.char_map@.len(),
                char_map@ == self.char_map@.take(k as int),
            decreases self.char_map@.len() - k,
        {
            char_map.push(self.char_map[k]);
            proof {
                assert(char_map@ =~= self.char_map@.take(k + 1int));
            }
            k = k + 1;
        }
        proof {
            assert(char_map@ =~= self.char_map@);
        }
        FontData { texture_id: self.texture_id, char_map }
    }
}

/// The font registry: named fonts, looked up by the screens' widgets.  A
/// name registered twice resolves to its latest registration.
pub struct FontLoader {
    pub fonts: Vec<(String, FontData)>,
}

/// The index `get_font` resolves a name to: the latest entry under that
/// name, if any.
pub open spec fn spec_find_font(fonts: Seq<(String, FontData)>, name: Seq<char>) -> Option<int>
    decreases fonts.len(),
{
    if fonts.len() == 0 {
        None
    } else if fonts.last().0@ == name {
        Some(fonts.len() - 1)
    } else {
        spec_find_font(fonts.drop_last(), name)
    }
}

impl FontLoader {
    /// A registry holding the built-in font under its well-known name.
    pub fn new(queensides: FontData) -> (r: Self)
        ensures
            r.fonts@.len() == 1,
            r.fonts@[0].0@ == "queensides"@,
            r.fonts@[0].1.texture_id == queensides.texture_id,
            r.fonts@[0].1.char_map@ == queensides.char_map@,
    {
        let mut fonts: Vec<(String, FontData)> = Vec::new();
        fonts.push(("queensides".to_owned(), queensides));
        FontLoader { fonts }
    }

    /// Register a font under a name; it shadows any earlier entry with
    /// the same name.
    pub fn register(&mut self, name: String, font: FontData)
        ensures
            final(self).fonts@ == old(self).fonts@.push((name, font)),
    {
        self.fonts.push((name, font));
    }

    /// Look a font up by name: a copy of the latest registration, if the
    /// name is known.
    pub fn get_font(&self, name: &str) -> (r: Option<FontData>)
        ensures
            match spec_find_font(self.fonts@, name@) {
                Some(k) => r is Some && r->0.texture_id == self.fonts@[k].1.texture_id
                    && r->0.char_map@ == self.fonts@[k].1.char_map@,
                None => r is None,
            },
    {
        let wanted: String = name.to_owned();
        let mut k: usize = self.fonts.len();
        proof {
            assert(self.fonts@.take(self.fonts@.len() as int) =~= self.fonts@);
        }
        while k > 0
            invariant
                k <= self.fonts@.len(),
                wanted@ == name@,
                spec_find_font(self.fonts@, name@) == spec_find_font(
                    self.fonts@.take(k as int),
                    name@,
                ),
            decreases k,
        {
            k = k - 1;
            if self.fonts[k].0 == wanted {
                proof {
                    assert(self.fonts@.take(k + 1int).last() == self.fonts@[k as int]);
                }
                return Some(self.fonts[k].1.duplicate());
            }
            proof {
                assert(self.fonts@.take(k + 1int).drop_last() =~= self.fonts@.take(k as int));
                assert(self.fonts@.take(k + 1int).last() == self.fonts@[k as int]);
            }
        }
        proof {
            assert(self.fonts@.take(0int).len() == 0);
        }
        None
    }
}

/// Build the registry from the fonts the platform layer has rasterised
/// and uploaded, in registration order.
pub fn load_fonts(queensides: FontData) -> (r: FontLoader)
    ensures
        r.fonts@.len() == 1,
        r.fonts@[0].0@ == "queensides"@,
        r.fonts@[0].1.texture_id == queensides.texture_id,
        r.fonts@[0].1.char_map@ == queensides.char_map@,
{
    FontLoader::new(queensides)
}

/// Look a font up in a registry by name.
pub fn get_font(loader: &FontLoader, name: &str) -> (r: Option<FontData>)
    ensures
        match spec_find_font(loader.fonts@, name@) {
            Some(k) => r is Some && r->0.texture_id == loader.fonts@[k].1.texture_id
                && r->0.char_map@ == loader.fonts@[k].1.char_map@,
            None => r is None,
        },
{
    loader.get_font(name)
}

} // verus!
