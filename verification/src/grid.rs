use vstd::prelude::*;
use crate::renderable::Renderable;

verus! {

/// A character to draw, and the cell of the grid to draw it in.
#[derive(Clone, Copy, Debug, PartialEq, Eq, Structural)]
pub struct Glyph {
    pub x: i32,
    pub y: i32,
    pub character: char,
}

impl Glyph {
    pub fn new(x: i32, y: i32, character: char) -> (glyph: Glyph)
        ensures
            glyph == (Glyph { x, y, character }),
    {
        Glyph { x, y, character }
    }
}

/// Whether cell `(x, y)` comes before cell `(to_x, to_y)` when the grid is
/// walked row by row, each row from left to right.
pub open spec fn comes_before(x: int, y: int, to_x: int, to_y: int) -> bool {
    y < to_y || (y == to_y && x < to_x)
}

/// Whether entry `k` of `cells` is the one for cell `(x, y)`.
pub open spec fn lists_at(cells: Seq<Glyph>, k: int, x: int, y: int) -> bool {
    0 <= k < cells.len() && cells[k].x == x && cells[k].y == y
}

/// Whether `cells` is what `root` draws in the part of a grid of `columns`
/// columns that comes before the cell `(to_x, to_y)`: each entry is a cell of
/// that part with the glyph that `root` puts there, each cell of that part
/// where `root` draws has an entry, and the entries stand in the order of the
/// walk, so that no cell is listed twice.
pub open spec fn is_frame_up_to<R: Renderable + ?Sized>(
    root: &R,
    columns: int,
    to_x: int,
    to_y: int,
    cells: Seq<Glyph>,
) -> bool {
    &&& forall|k: int|
        0 <= k < cells.len() ==> {
            let cell = #[trigger] cells[k];
            &&& 0 <= cell.x < columns
            &&& 0 <= cell.y
            &&& comes_before(cell.x as int, cell.y as int, to_x, to_y)
            &&& root.glyph_at(cell.x as int, cell.y as int) == Some(cell.character)
        }
    &&& forall|x: int, y: int|
        0 <= x < columns && 0 <= y && comes_before(x, y, to_x, to_y) && (
        #[trigger] root.glyph_at(x, y)) is Some ==> exists|k: int| lists_at(cells, k, x, y)
    &&& forall|j: int, k: int|
        0 <= j < k < cells.len() ==> comes_before(
            (#[trigger] cells[j]).x as int,
            cells[j].y as int,
            (#[trigger] cells[k]).x as int,
            cells[k].y as int,
        )
}

/// Whether `cells` is the whole frame that `root` draws on a grid of
/// `columns` by `rows` cells.
pub open spec fn is_frame<R: Renderable + ?Sized>(
    root: &R,
    columns: int,
    rows: int,
    cells: Seq<Glyph>,
) -> bool {
    is_frame_up_to(root, columns, 0, rows, cells)
}

/// Walks a grid of `columns` by `rows` cells row by row and asks `root` at
/// each cell. Returns, in the order of the walk, the cells where `root`
/// draws, each with its glyph; the other cells are left to the background.
/// A grid without columns or without rows yields nothing.
pub fn render_grid<R: Renderable + ?Sized>(root: &R, columns: i32, rows: i32) -> (cells: Vec<Glyph>)
    ensures
        is_frame(root, columns as int, rows as int, cells@),
{
    let mut cells: Vec<Glyph> = Vec::new();
    if columns <= 0 || rows <= 0 {
        return cells;
    }
    let mut y: i32 = 0;
    while y < rows
        invariant
            0 < columns,
            0 <= y <= rows,
            is_frame_up_to(root, columns as int, 0, y as int, cells@),
        decreases rows - y,
    {
        let mut x: i32 = 0;
        while x < columns
            invariant
                0 <= x <= columns,
                0 <= y < rows,
                is_frame_up_to(root, columns as int, x as int, y as int, cells@),
            decreases columns - x,
        {
            let ghost before = cells@;
            match root.render(x, y) {
                Some(character) => {
                    cells.push(Glyph::new(x, y, character));
                    assert forall|cx: int, cy: int|
                        0 <= cx < columns && 0 <= cy && comes_before(cx, cy, x + 1, y as int) && (
                        #[trigger] root.glyph_at(cx, cy)) is Some implies exists|k: int|
                        lists_at(cells@, k, cx, cy) by {
                        if cx == x && cy == y {
                            assert(lists_at(cells@, before.len() as int, cx, cy));
                        } else {
                            let k = choose|k: int| lists_at(before, k, cx, cy);
                            assert(lists_at(cells@, k, cx, cy));
                        }
                    }
                },
                None => {},
            }
            x += 1;
        }
        y += 1;
    }
    cells
}

} // verus!
