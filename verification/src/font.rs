use vstd::prelude::*;
use std::collections::HashMap;
use crate::geometry::Rect;

verus! {

broadcast use vstd::std_specs::hash::group_hash_axioms;

/// Width of a glyph, in pixels.
pub const CHAR_WIDTH: i32 = 8;

/// Height of a glyph, in pixels.
pub const CHAR_HEIGHT: i32 = 14;

/// Blank pixels between two rows of text.
pub const LINE_SPACING: i32 = 2;

/// Blank pixels around the grid.
pub const MARGIN: i32 = 4;

/// The characters of the font image, from left to right.
pub const CHARLIST: &'static str =
    "ABCDEFGHIJKLMNOPQRSTUVWXYZabcdefghijklmnopqrstuvwxyz 0123456789,.\"'?!@_*#$%&()+-/:;<=>[\\]^`{|}~";

/// An opaque colour, by its red, green and blue parts.
#[derive(Clone, Copy, Debug, PartialEq, Eq, Structural)]
pub struct Color {
    pub r: u8,
    pub g: u8,
    pub b: u8,
}

/// The three rectangles that drawing one character takes, in pixels.
#[derive(Clone, Copy, Debug, PartialEq, Eq, Structural)]
pub struct Placement {
    /// Where the glyph lies in the font image.
    pub source: Rect,
    /// Where the glyph goes on the screen.
    pub dest: Rect,
    /// What to fill with the background colour first: the cell, with half
    /// the line spacing above and below.
    pub backdrop: Rect,
}

/// The place in the font image of the glyph number `index`.
pub open spec fn glyph_cell(index: int) -> Rect {
    Rect { x: (index * CHAR_WIDTH) as i32, y: 0, w: CHAR_WIDTH, h: CHAR_HEIGHT }
}

/// The last index below `n` at which `c` stands in `order`, if any.
pub open spec fn last_index_of(order: Seq<char>, c: char, n: int) -> Option<int>
    decreases n,
{
    if n <= 0 {
        None
    } else if order[n - 1] == c {
        Some(n - 1)
    } else {
        last_index_of(order, c, n - 1)
    }
}

/// The glyph table of a font image that holds the characters of `order`
/// side by side: each character that occurs, with the place of its last
/// occurrence.
pub open spec fn atlas_of(order: Seq<char>) -> Map<char, Rect> {
    Map::new(
        |c: char| last_index_of(order, c, order.len() as int) is Some,
        |c: char| glyph_cell(last_index_of(order, c, order.len() as int)->0),
    )
}

/// The glyph table of the font image.
pub open spec fn atlas() -> Map<char, Rect> {
    atlas_of(CHARLIST@)
}

/// Whether the pixels of cell `(x, y)` can be written as `i32`.
pub open spec fn cell_fits(x: int, y: int) -> bool {
    &&& i32::MIN <= MARGIN + x * CHAR_WIDTH <= i32::MAX
    &&& i32::MIN <= MARGIN + y * (CHAR_HEIGHT + LINE_SPACING) - LINE_SPACING / 2
    &&& MARGIN + y * (CHAR_HEIGHT + LINE_SPACING) <= i32::MAX
}

/// Where the glyph of cell `(x, y)` goes on the screen.
pub open spec fn cell_rect(x: int, y: int) -> Rect {
    Rect {
        x: (MARGIN + x * CHAR_WIDTH) as i32,
        y: (MARGIN + y * (CHAR_HEIGHT + LINE_SPACING)) as i32,
        w: CHAR_WIDTH,
        h: CHAR_HEIGHT,
    }
}

/// What the background of cell `(x, y)` covers on the screen.
pub open spec fn backdrop_rect(x: int, y: int) -> Rect {
    Rect {
        x: (MARGIN + x * CHAR_WIDTH) as i32,
        y: (MARGIN + y * (CHAR_HEIGHT + LINE_SPACING) - LINE_SPACING / 2) as i32,
        w: CHAR_WIDTH,
        h: (CHAR_HEIGHT + LINE_SPACING) as i32,
    }
}

/// A character occurs below `n` exactly when it has a last index there, and
/// that index holds it.
proof fn lemma_last_index_of(order: Seq<char>, c: char, n: int)
    requires
        0 <= n <= order.len(),
    ensures
        last_index_of(order, c, n) is Some <==> exists|i: int| 0 <= i < n && order[i] == c,
        last_index_of(order, c, n) matches Some(i) ==> 0 <= i < n && order[i] == c,
    decreases n,
{
    if n > 0 && order[n - 1] != c {
        lemma_last_index_of(order, c, n - 1);
    }
}

/// The glyph table of a list holds exactly the characters that occur in the
/// list, each with the place of one of its occurrences.
pub proof fn lemma_atlas_holds_the_list(order: Seq<char>, c: char)
    ensures
        atlas_of(order).contains_key(c) <==> order.contains(c),
        atlas_of(order).contains_key(c) ==> exists|i: int|
            0 <= i < order.len() && order[i] == c && atlas_of(order)[c] == glyph_cell(i),
{
    lemma_last_index_of(order, c, order.len() as int);
    if atlas_of(order).contains_key(c) {
        let i = last_index_of(order, c, order.len() as int)->0;
        assert(0 <= i < order.len() && order[i] == c && atlas_of(order)[c] == glyph_cell(i));
    }
}

/// Different characters have different codes.
proof fn lemma_codes_differ(a: char, b: char)
    requires
        a != b,
    ensures
        a as u32 != b as u32,
{
    vstd::utf8::char_u32_cast(a, a as u32);
    vstd::utf8::char_u32_cast(b, b as u32);
}

/// What a font is: its glyph table and the colour behind the glyphs.
pub struct FontsModel {
    pub charmap: Map<char, Rect>,
    pub background: Color,
}

/// The glyph table of the font image, and the colour to draw behind glyphs.
pub struct Fonts {
    charmap: HashMap<u32, Rect>,
    background: Color,
}

impl View for Fonts {
    type V = FontsModel;

    closed spec fn view(&self) -> FontsModel {
        FontsModel {
            charmap: Map::new(
                |c: char| self.charmap@.contains_key(c as u32),
                |c: char| self.charmap@[c as u32],
            ),
            background: self.background,
        }
    }
}

impl Fonts {
    /// The font of the image, on a black background.
    pub fn new() -> (fonts: Fonts)
        ensures
            fonts@ == (FontsModel { charmap: atlas(), background: Color { r: 0, g: 0, b: 0 } }),
    {
        proof {
            reveal_strlit(
                "ABCDEFGHIJKLMNOPQRSTUVWXYZabcdefghijklmnopqrstuvwxyz 0123456789,.\"'?!@_*#$%&()+-/:;<=>[\\]^`{|}~",
            );
        }
        let ghost order = CHARLIST@;
        let count = CHARLIST.unicode_len();
        let mut charmap: HashMap<u32, Rect> = HashMap::new();
        let mut i: usize = 0;
        while i < count
            invariant
                order == CHARLIST@,
                count == order.len() == 95,
                i <= count,
                forall|c: char|
                    charmap@.contains_key(c as u32) <==> (#[trigger] last_index_of(
                        order,
                        c,
                        i as int,
                    )) is Some,
                forall|c: char|
                    (#[trigger] last_index_of(order, c, i as int)) matches Some(index)
                        ==> charmap@[c as u32] == glyph_cell(index),
            decreases count - i,
        {
            let character = CHARLIST.get_char(i);
            let newrect = Rect::new(i as i32 * CHAR_WIDTH, 0, CHAR_WIDTH, CHAR_HEIGHT);
            charmap.insert(character as u32, newrect);
            assert forall|c: char| c != character implies c as u32 != character as u32 && (
            #[trigger] last_index_of(order, c, i + 1)) == last_index_of(order, c, i as int) by {
                lemma_codes_differ(c, character);
            }
            i += 1;
        }
        let fonts = Fonts { charmap, background: Color { r: 0, g: 0, b: 0 } };
        assert(fonts@.charmap =~= atlas());
        fonts
    }

    /// Whether the font has a glyph for `character`.
    pub fn has_glyph(&self, character: char) -> (found: bool)
        ensures
            found == self@.charmap.contains_key(character),
    {
        self.charmap.contains_key(&(character as u32))
    }

    /// The place in the font image of the glyph of `character`.
    pub fn get_char_rect(&self, character: char) -> (rect: Rect)
        requires
            self@.charmap.contains_key(character),
        ensures
            rect == self@.charmap[character],
    {
        let found = self.charmap.get(&(character as u32));
        *found.unwrap()
    }

    /// Whether the pixels of cell `(x, y)` can be written as `i32`.
    pub fn cell_fits(x: i32, y: i32) -> (fits: bool)
        ensures
            fits == cell_fits(x as int, y as int),
    {
        let left: i64 = MARGIN as i64 + x as i64 * CHAR_WIDTH as i64;
        let row_height: i64 = (CHAR_HEIGHT + LINE_SPACING) as i64;
        assert(row_height == 16);
        let top: i64 = MARGIN as i64 + y as i64 * row_height;
        let backdrop_top: i64 = top - (LINE_SPACING / 2) as i64;
        i32::MIN as i64 <= left && left <= i32::MAX as i64 && i32::MIN as i64 <= backdrop_top && top
            <= i32::MAX as i64
    }

    /// What it takes to draw `character` in the cell at column `x` and row
    /// `y`, counted from the upper left corner of the grid: where its glyph
    /// lies in the font image, where it goes on the screen, and which
    /// rectangle to fill with the background colour before.
    pub fn place_character_at_point(&self, character: char, x: i32, y: i32) -> (placement: Placement)
        requires
            self@.charmap.contains_key(character),
            cell_fits(x as int, y as int),
        ensures
            placement == (Placement {
                source: self@.charmap[character],
                dest: cell_rect(x as int, y as int),
                backdrop: backdrop_rect(x as int, y as int),
            }),
    {
        let source = self.get_char_rect(character);
        let dest = Rect::new(
            MARGIN + x * CHAR_WIDTH,
            MARGIN + y * (CHAR_HEIGHT + LINE_SPACING),
            CHAR_WIDTH,
            CHAR_HEIGHT,
        );
        let backdrop = Rect::new(
            MARGIN + x * CHAR_WIDTH,
            MARGIN + y * (CHAR_HEIGHT + LINE_SPACING) - LINE_SPACING / 2,
            CHAR_WIDTH,
            CHAR_HEIGHT + LINE_SPACING,
        );
        Placement { source, dest, backdrop }
    }

    /// The colour drawn behind each glyph.
    pub fn background(&self) -> (color: Color)
        ensures
            color == self@.background,
    {
        self.background
    }

    /// Sets the colour drawn behind each glyph; the glyph table stays.
    pub fn set_background_color(&mut self, r: u8, g: u8, b: u8)
        ensures
            final(self)@ == (FontsModel { background: Color { r, g, b }, ..old(self)@ }),
    {
        self.background = Color { r, g, b };
    }
}

/// Whether a window for a grid of `columns` by `rows` cells can be measured
/// in `i32` pixels.
pub open spec fn grid_fits(columns: int, rows: int) -> bool {
    &&& 0 <= columns
    &&& 0 <= rows
    &&& columns * CHAR_WIDTH + 2 * MARGIN <= i32::MAX
    &&& rows * (CHAR_HEIGHT + LINE_SPACING) + 2 * MARGIN <= i32::MAX
}

/// Width and height, in pixels, of the window that shows a grid of `columns`
/// by `rows` cells with its margin on all four sides; `None` for a grid of
/// negative size or one too large to measure.
pub fn window_size(columns: i32, rows: i32) -> (size: Option<(i32, i32)>)
    ensures
        size is Some <==> grid_fits(columns as int, rows as int),
        size matches Some((width, height)) ==> {
            &&& width == columns * CHAR_WIDTH + 2 * MARGIN
            &&& height == rows * (CHAR_HEIGHT + LINE_SPACING) + 2 * MARGIN
        },
{
    let row_height: i64 = (CHAR_HEIGHT + LINE_SPACING) as i64;
    assert(row_height == 16);
    let width: i64 = columns as i64 * CHAR_WIDTH as i64 + 2 * MARGIN as i64;
    let height: i64 = rows as i64 * row_height + 2 * MARGIN as i64;
    if columns < 0 || rows < 0 || width > i32::MAX as i64 || height > i32::MAX as i64 {
        None
    } else {
        Some((width as i32, height as i32))
    }
}

} // verus!
