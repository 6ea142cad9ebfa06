use vstd::prelude::*;

verus! {

/// Something that can say which character, if any, it draws at a cell.
///
/// Coordinates are local to the receiver: the root widget is asked in grid
/// coordinates, a child in the coordinates of the panel that holds it.
pub trait Renderable {
    /// The character this widget puts at `(x, y)`, or `None` where it draws
    /// nothing. Defined for every integer cell.
    spec fn glyph_at(&self, x: int, y: int) -> Option<char>;

    /// Computes `glyph_at` for a cell. Never fails and changes nothing.
    fn render(&self, x: i32, y: i32) -> (glyph: Option<char>)
        ensures
            glyph == self.glyph_at(x as int, y as int),
    ;
}

/// Rendering is pure: whatever two calls of `render` on the same widget and
/// the same cell return, the two results are equal.
pub proof fn lemma_render_is_repeatable<R: Renderable + ?Sized>(
    widget: &R,
    x: i32,
    y: i32,
    first: Option<char>,
    second: Option<char>,
)
    requires
        call_ensures(R::render, (widget, x, y), first),
        call_ensures(R::render, (widget, x, y), second),
    ensures
        first == second,
{
}

} // verus!
