use vstd::prelude::*;
use crate::geometry::Point;
use crate::renderable::Renderable;

verus! {

/// What a label is: where it starts and the characters it shows.
pub struct LabelModel {
    pub origin: Point,
    pub text: Seq<char>,
}

impl LabelModel {
    /// The number of columns: one per character.
    pub open spec fn width(self) -> nat {
        self.text.len()
    }

    /// A label fills one row: the character at column `x - origin.x` of its
    /// text on row `origin.y`, nothing elsewhere.
    pub open spec fn glyph_at(self, x: int, y: int) -> Option<char> {
        let column = x - self.origin.x;
        if y == self.origin.y && 0 <= column < self.text.len() {
            Some(self.text[column])
        } else {
            None
        }
    }
}

/// A single row of text at a fixed position.
pub struct Label {
    origin: Point,
    text: Vec<char>,
}

impl View for Label {
    type V = LabelModel;

    closed spec fn view(&self) -> LabelModel {
        LabelModel { origin: self.origin, text: self.text@ }
    }
}

impl Label {
    /// A label showing `text` from `origin` rightwards, one column per
    /// character whatever its encoded length.
    pub fn new(origin: Point, text: &str) -> (label: Label)
        ensures
            label@ == (LabelModel { origin, text: text@ }),
    {
        let mut chars: Vec<char> = Vec::new();
        for c in it: text.chars()
            invariant
                it.seq() == text@,
                chars@ == it.seq().take(it.index() as int),
        {
            assert(it.seq().take(it.index() + 1) =~= it.seq().take(it.index() as int).push(c));
            chars.push(c);
        }
        assert(text@.take(text@.len() as int) =~= text@);
        Label { origin, text: chars }
    }

    pub fn origin(&self) -> (origin: Point)
        ensures
            origin == self@.origin,
    {
        self.origin
    }

    pub fn width(&self) -> (width: usize)
        ensures
            width == self@.width(),
    {
        self.text.len()
    }
}

impl Renderable for Label {
    open spec fn glyph_at(&self, x: int, y: int) -> Option<char> {
        self@.glyph_at(x, y)
    }

    fn render(&self, x: i32, y: i32) -> (glyph: Option<char>) {
        let column: i64 = x as i64 - self.origin.x as i64;
        if y != self.origin.y || column < 0 {
            return None;
        }
        let index: usize = column as usize;
        if index < self.text.len() {
            Some(self.text[index])
        } else {
            None
        }
    }
}

} // verus!
