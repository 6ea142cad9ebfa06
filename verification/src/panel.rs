use vstd::prelude::*;
use crate::error::WidgetError;
use crate::geometry::Rect;
use crate::label::{Label, LabelModel};
use crate::progress::{Progress, ProgressModel};
use crate::renderable::Renderable;

verus! {

/// What a widget is, whatever its kind.
pub enum WidgetModel {
    Panel(PanelModel),
    Label(LabelModel),
    Progress(ProgressModel),
    /// A widget of some other kind, known by what it draws at each cell.
    Custom(spec_fn(int, int) -> Option<char>),
}

/// What a panel is: its rectangle in the coordinates of its parent, whether
/// it draws a border, and its children in the order they were added.
pub struct PanelModel {
    pub rect: Rect,
    pub border: bool,
    pub children: Seq<WidgetModel>,
}

impl WidgetModel {
    /// What the widget draws at `(x, y)`, in its own coordinates.
    pub open spec fn glyph_at(self, x: int, y: int) -> Option<char>
        decreases self,
    {
        match self {
            WidgetModel::Panel(panel) => panel.glyph_at(x, y),
            WidgetModel::Label(label) => label.glyph_at(x, y),
            WidgetModel::Progress(bar) => bar.glyph_at(x, y),
            WidgetModel::Custom(draws) => draws(x, y),
        }
    }
}

/// What the children from index `from` on put at `(x, y)`: the glyph of the
/// first of them, in the order they were added, that draws there.
pub open spec fn first_claim(children: Seq<WidgetModel>, from: int, x: int, y: int) -> Option<char>
    decreases children, children.len() - from,
{
    if from < 0 || from >= children.len() {
        None
    } else if children[from].glyph_at(x, y) is Some {
        children[from].glyph_at(x, y)
    } else {
        first_claim(children, from + 1, x, y)
    }
}

/// The border character of `rect` at a cell: `+` at the four corners, `|`
/// along the sides, `-` along top and bottom, nothing off the edges.
pub open spec fn border_glyph(rect: Rect, x: int, y: int) -> Option<char> {
    if rect.on_left_or_right_edge(x) && rect.on_top_or_bottom_edge(y) {
        Some('+')
    } else if rect.on_left_or_right_edge(x) {
        Some('|')
    } else if rect.on_top_or_bottom_edge(y) {
        Some('-')
    } else {
        None
    }
}

impl PanelModel {
    /// Whether the panel draws its border at the cell.
    pub open spec fn draws_border_at(self, x: int, y: int) -> bool {
        self.border && (self.rect.on_left_or_right_edge(x) || self.rect.on_top_or_bottom_edge(y))
    }

    /// Nothing outside the rectangle. Inside it, in this order: the border,
    /// where there is one; the first child that draws at the cell, asked in
    /// coordinates relative to the panel's origin; a blank, since panels are
    /// opaque.
    pub open spec fn glyph_at(self, x: int, y: int) -> Option<char>
        decreases self,
    {
        if !self.rect.covers(x, y) {
            None
        } else if self.draws_border_at(x, y) {
            border_glyph(self.rect, x, y)
        } else {
            match first_claim(self.children, 0, x - self.rect.x, y - self.rect.y) {
                Some(glyph) => Some(glyph),
                None => Some(' '),
            }
        }
    }
}

/// A widget of any of the kinds a panel can hold.
pub enum Widget<'a> {
    Panel(Panel<'a>),
    Label(Label),
    Progress(Progress),
    /// Any other widget.
    Custom(Box<dyn Renderable + 'a>),
}

/// Where a panel lies and whether it is bordered. The size of the rectangle
/// is never negative.
struct Frame {
    rect: Rect,
    border: bool,
}

impl Frame {
    #[verifier::type_invariant]
    spec fn well_formed(&self) -> bool {
        self.rect.has_valid_size()
    }
}

/// A rectangular container, bordered or not, that hides what lies behind it.
pub struct Panel<'a> {
    frame: Frame,
    children: Vec<Widget<'a>>,
}

/// What `widget` is: the model of the widget it holds, or, for a widget of
/// another kind, what that widget draws at each cell.
pub open spec fn widget_model(widget: Widget<'_>) -> WidgetModel
    decreases widget,
{
    match widget {
        Widget::Panel(panel) => WidgetModel::Panel(panel_model(panel)),
        Widget::Label(label) => WidgetModel::Label(label@),
        Widget::Progress(bar) => WidgetModel::Progress(bar@),
        Widget::Custom(widget) => WidgetModel::Custom(|x: int, y: int| widget.glyph_at(x, y)),
    }
}

/// What `panel` is: its rectangle, its border flag, and the models of its
/// children in the order they were added.
pub closed spec fn panel_model(panel: Panel<'_>) -> PanelModel
    decreases panel,
{
    PanelModel {
        rect: panel.frame.rect,
        border: panel.frame.border,
        children: Seq::new(
            panel.children@.len(),
            |i: int|
                if 0 <= i < panel.children@.len() {
                    widget_model(panel.children@[i])
                } else {
                    arbitrary()
                },
        ),
    }
}

impl<'a> View for Widget<'a> {
    type V = WidgetModel;

    open spec fn view(&self) -> WidgetModel {
        widget_model(*self)
    }
}

impl<'a> View for Panel<'a> {
    type V = PanelModel;

    open spec fn view(&self) -> PanelModel {
        panel_model(*self)
    }
}

/// Renders a widget of any kind at a cell.
fn render_widget(widget: &Widget<'_>, x: i32, y: i32) -> (glyph: Option<char>)
    ensures
        glyph == widget@.glyph_at(x as int, y as int),
    decreases widget,
{
    match widget {
        Widget::Panel(panel) => render_panel(panel, x, y),
        Widget::Label(label) => label.render(x, y),
        Widget::Progress(bar) => bar.render(x, y),
        Widget::Custom(widget) => widget.render(x, y),
    }
}

/// Renders a panel at a cell: the bounds first, then the border, then the
/// children in the order they were added, then the fill.
fn render_panel(panel: &Panel<'_>, x: i32, y: i32) -> (glyph: Option<char>)
    ensures
        glyph == panel@.glyph_at(x as int, y as int),
    decreases panel,
{
    let rect = panel.frame.rect;
    if !rect.contains_cell(x, y) {
        return None;
    }
    if panel.frame.border {
        let on_left_or_right_edge = x == rect.x || x as i64 == rect.x as i64 + rect.w as i64;
        let on_top_or_bottom_edge = y == rect.y || y as i64 == rect.y as i64 + rect.h as i64;
        if on_left_or_right_edge && on_top_or_bottom_edge {
            return Some('+');
        } else if on_left_or_right_edge {
            return Some('|');
        } else if on_top_or_bottom_edge {
            return Some('-');
        }
    }
    let local_x = x - rect.x;
    let local_y = y - rect.y;
    let mut next: usize = 0;
    while next < panel.children.len()
        invariant
            panel@.rect.covers(x as int, y as int),
            !panel@.draws_border_at(x as int, y as int),
            local_x == x - panel@.rect.x,
            local_y == y - panel@.rect.y,
            next <= panel.children.len(),
            panel@.children.len() == panel.children.len(),
            forall|i: int|
                0 <= i < panel.children.len() ==> panel@.children[i] == panel.children[i]@,
            first_claim(panel@.children, 0, local_x as int, local_y as int) == first_claim(
                panel@.children,
                next as int,
                local_x as int,
                local_y as int,
            ),
        decreases panel.children.len() - next,
    {
        let claimed = render_widget(&panel.children[next], local_x, local_y);
        if claimed.is_some() {
            return claimed;
        }
        next += 1;
    }
    Some(' ')
}

impl<'a> Panel<'a> {
    /// An empty panel over `rect`, with a border along its edges if `border`.
    ///
    /// Fails with `InvalidGeometry` exactly where the width or the height of
    /// `rect` is negative.
    pub fn new(rect: Rect, border: bool) -> (made: Result<Panel<'a>, WidgetError>)
        ensures
            rect.has_valid_size() <==> made is Ok,
            !rect.has_valid_size() <==> made == Err::<Panel<'a>, WidgetError>(
                WidgetError::InvalidGeometry,
            ),
            made matches Ok(panel) ==> panel@ == (PanelModel {
                rect,
                border,
                children: Seq::empty(),
            }),
    {
        if rect.w < 0 || rect.h < 0 {
            Err(WidgetError::InvalidGeometry)
        } else {
            let panel = Panel { frame: Frame { rect, border }, children: Vec::new() };
            assert(panel@.children =~= Seq::empty());
            Ok(panel)
        }
    }

    /// Puts `new_child` after the children already there, so that it draws
    /// only where none of them does.
    pub fn add_child(&mut self, new_child: Widget<'a>)
        ensures
            final(self)@ == (PanelModel {
                children: old(self)@.children.push(new_child@),
                ..old(self)@
            }),
    {
        self.children.push(new_child);
        assert(self@.children =~= old(self)@.children.push(new_child@));
    }

    /// The rectangle of the panel, whose size is never negative.
    pub fn rect(&self) -> (rect: Rect)
        ensures
            rect == self@.rect,
            rect.has_valid_size(),
    {
        proof {
            use_type_invariant(&self.frame);
        }
        self.frame.rect
    }

    pub fn has_border(&self) -> (border: bool)
        ensures
            border == self@.border,
    {
        self.frame.border
    }

    pub fn child_count(&self) -> (count: usize)
        ensures
            count == self@.children.len(),
    {
        self.children.len()
    }
}

impl<'a> Renderable for Widget<'a> {
    open spec fn glyph_at(&self, x: int, y: int) -> Option<char> {
        self@.glyph_at(x, y)
    }

    fn render(&self, x: i32, y: i32) -> (glyph: Option<char>) {
        render_widget(self, x, y)
    }
}

impl<'a> Renderable for Panel<'a> {
    open spec fn glyph_at(&self, x: int, y: int) -> Option<char> {
        self@.glyph_at(x, y)
    }

    fn render(&self, x: i32, y: i32) -> (glyph: Option<char>)
        ensures
            glyph is None <==> !self@.rect.covers(x as int, y as int),
    {
        render_panel(self, x, y)
    }
}

/// No child from `from` on draws at the cell exactly when asking them in
/// order finds nothing.
pub proof fn lemma_no_claim(children: Seq<WidgetModel>, from: int, x: int, y: int)
    requires
        0 <= from,
    ensures
        first_claim(children, from, x, y) is None <==> forall|i: int|
            from <= i < children.len() ==> (#[trigger] children[i]).glyph_at(x, y) is None,
    decreases children.len() - from,
{
    if from < children.len() {
        lemma_no_claim(children, from + 1, x, y);
    }
}

/// The first child that draws at a cell decides it: where child `winner`
/// draws and no child added before it does, asking the children in order
/// gives the glyph of `winner`, whatever the children after it draw.
pub proof fn lemma_first_claimant_wins(children: Seq<WidgetModel>, winner: int, x: int, y: int)
    requires
        0 <= winner < children.len(),
        children[winner].glyph_at(x, y) is Some,
        forall|i: int| 0 <= i < winner ==> (#[trigger] children[i]).glyph_at(x, y) is None,
    ensures
        first_claim(children, 0, x, y) == children[winner].glyph_at(x, y),
{
    lemma_first_claim_skips(children, 0, winner, x, y);
}

/// Children that draw nothing at a cell are passed over.
proof fn lemma_first_claim_skips(children: Seq<WidgetModel>, from: int, to: int, x: int, y: int)
    requires
        0 <= from <= to < children.len(),
        forall|i: int| from <= i < to ==> (#[trigger] children[i]).glyph_at(x, y) is None,
    ensures
        first_claim(children, from, x, y) == first_claim(children, to, x, y),
    decreases to - from,
{
    if from < to {
        lemma_first_claim_skips(children, from + 1, to, x, y);
    }
}

impl PanelModel {
    /// A panel draws nothing exactly at the cells outside its rectangle, the
    /// far edges counted as inside.
    pub proof fn lemma_none_iff_outside(self, x: int, y: int)
        ensures
            self.glyph_at(x, y) is None <==> !self.rect.covers(x, y),
    {
    }

    /// On the edges of a bordered panel the border is drawn, whatever the
    /// children would draw there.
    pub proof fn lemma_border_outranks_children(self, x: int, y: int)
        requires
            self.border,
            self.rect.covers(x, y),
            self.rect.on_left_or_right_edge(x) || self.rect.on_top_or_bottom_edge(y),
        ensures
            self.glyph_at(x, y) == border_glyph(self.rect, x, y),
            self.glyph_at(x, y) is Some,
    {
    }

    /// Off the border, a panel shows its first child that draws at the cell,
    /// and asks each child in coordinates relative to the panel's origin.
    pub proof fn lemma_child_priority(self, winner: int, x: int, y: int)
        requires
            self.rect.covers(x, y),
            !self.draws_border_at(x, y),
            0 <= winner < self.children.len(),
            self.children[winner].glyph_at(x - self.rect.x, y - self.rect.y) is Some,
            forall|i: int|
                0 <= i < winner ==> (#[trigger] self.children[i]).glyph_at(
                    x - self.rect.x,
                    y - self.rect.y,
                ) is None,
        ensures
            self.glyph_at(x, y) == self.children[winner].glyph_at(
                x - self.rect.x,
                y - self.rect.y,
            ),
    {
        lemma_first_claimant_wins(self.children, winner, x - self.rect.x, y - self.rect.y);
    }

    /// Panels are opaque: inside the rectangle and off the border, a cell
    /// where no child draws holds a blank.
    pub proof fn lemma_blank_where_unclaimed(self, x: int, y: int)
        requires
            self.rect.covers(x, y),
            !self.draws_border_at(x, y),
            forall|i: int|
                0 <= i < self.children.len() ==> (#[trigger] self.children[i]).glyph_at(
                    x - self.rect.x,
                    y - self.rect.y,
                ) is None,
        ensures
            self.glyph_at(x, y) == Some(' '),
    {
        lemma_no_claim(self.children, 0, x - self.rect.x, y - self.rect.y);
    }
}

} // verus!
