use vstd::prelude::*;
use tui::layout::{Constraint, Direction, Layout, Rect};

verus! {

/// Outer margin of the screen layout, in cells.
pub const MARGIN: u16 = 2;
/// Height of the top region.
pub const TOP_HEIGHT: u16 = 3;
/// Least height of the middle region, which takes what is left.
pub const MIDDLE_MIN_HEIGHT: u16 = 2;
/// Height of the bottom region, where the panel stands.
pub const BOTTOM_HEIGHT: u16 = 3;
/// Which of the three regions holds the panel.
pub const PANEL_REGION: usize = 2;

/// A rectangle of terminal cells.
#[derive(Clone, Copy, Debug, PartialEq, Eq, Structural)]
pub struct Area {
    pub x: u16,
    pub y: u16,
    pub width: u16,
    pub height: u16,
}

impl View for Area {
    type V = (u16, u16, u16, u16);

    open spec fn view(&self) -> (u16, u16, u16, u16) {
        (self.x, self.y, self.width, self.height)
    }
}

/// The colours the panel uses.
#[derive(Clone, Copy, Debug, PartialEq, Eq, Structural)]
pub enum Tint {
    White,
    LightCyan,
}

/// The line drawn around the panel.
#[derive(Clone, Copy, Debug, PartialEq, Eq, Structural)]
pub enum BorderKind {
    Plain,
    Rounded,
    Double,
    Thick,
}

/// The one thing drawn on screen: a bordered box with a title and a
/// single centred line of text.
#[derive(Clone, Debug)]
pub struct Panel {
    pub area: Area,
    pub title: String,
    pub text: String,
    pub text_tint: Tint,
    pub border_tint: Tint,
    /// The text is centred in the box rather than set to its left.
    pub centred: bool,
    pub border: BorderKind,
}

/// A panel as values: where it stands, its title, its text, its colours,
/// whether the text is centred and the kind of its border.
pub type PanelView = ((u16, u16, u16, u16), Seq<char>, Seq<char>, Tint, Tint, bool, BorderKind);

impl View for Panel {
    type V = PanelView;

    open spec fn view(&self) -> PanelView {
        (self.area@, self.title@, self.text@, self.text_tint, self.border_tint, self.centred, self.border)
    }
}

/// The panel that stands in a given region.
pub open spec fn panel_in(region: (u16, u16, u16, u16)) -> PanelView {
    (region, "Copyright"@, "Test"@, Tint::LightCyan, Tint::White, true, BorderKind::Plain)
}

/// A rectangle lies wholly within the `u16` coordinate range.
pub open spec fn on_grid(a: (u16, u16, u16, u16)) -> bool {
    a.0 + a.2 <= u16::MAX && a.1 + a.3 <= u16::MAX
}

/// The area is large enough for the margin and for every region to get
/// its height: the top and bottom exactly theirs, the middle at least its
/// least.
pub open spec fn stack_fits(a: (u16, u16, u16, u16), margin: u16, top: u16, middle_min: u16, bottom: u16) -> bool {
    a.2 >= 2 * margin && a.3 >= 2 * margin + top + middle_min + bottom
}

/// Three regions stacked inside the area less its margin: the top and
/// bottom of the given heights, the middle taking the rest.
pub open spec fn inset_stack(a: (u16, u16, u16, u16), margin: u16, top: u16, bottom: u16) -> Seq<(u16, u16, u16, u16)> {
    let x = (a.0 + margin) as u16;
    let w = (a.2 - 2 * margin) as u16;
    seq![
        (x, (a.1 + margin) as u16, w, top),
        (x, (a.1 + margin + top) as u16, w, (a.3 - 2 * margin - top - bottom) as u16),
        (x, (a.1 + a.3 - margin - bottom) as u16, w, bottom),
    ]
}

/// The screen is large enough for its layout.
pub open spec fn roomy_screen(size: (u16, u16, u16, u16)) -> bool {
    stack_fits(size, MARGIN, TOP_HEIGHT, MIDDLE_MIN_HEIGHT, BOTTOM_HEIGHT)
}

/// The bottom region of a screen large enough for its layout.
pub open spec fn bottom_region(size: (u16, u16, u16, u16)) -> (u16, u16, u16, u16) {
    inset_stack(size, MARGIN, TOP_HEIGHT, BOTTOM_HEIGHT)[PANEL_REGION as int]
}

/// The panel drawn on a screen large enough for its layout.
pub open spec fn screen_panel(size: (u16, u16, u16, u16)) -> PanelView {
    panel_in(bottom_region(size))
}

impl Area {
    pub fn new(x: u16, y: u16, width: u16, height: u16) -> (r: Area)
        ensures
            r@ == (x, y, width, height),
    {
        Area { x, y, width, height }
    }
}

/// Relies on tui's `Layout::split` for a vertical layout with a uniform
/// margin and the constraints `Length(top)`, `Min(middle_min)`,
/// `Length(bottom)`. It returns one rectangle per constraint. Where the
/// area holds the margin and all three heights, the solver's only exact
/// solution is the inset stack, which it returns. It computes `2 * margin`
/// and the inset corner in `u16`, and its solver fails on an area that
/// reaches past the `u16` range, hence the bounds.
#[verifier::external_body]
fn split_vertical(area: Area, margin: u16, top: u16, middle_min: u16, bottom: u16) -> (r: Vec<Area>)
    requires
        margin <= 32767,
        on_grid(area@),
    ensures
        r@.len() == 3,
        stack_fits(area@, margin, top, middle_min, bottom) ==> forall|i: int|
            0 <= i < 3 ==> #[trigger] r@[i]@ == inset_stack(area@, margin, top, bottom)[i],
{
    let rect = Rect { x: area.x, y: area.y, width: area.width, height: area.height };
    Layout::default()
        .direction(Direction::Vertical)
        .margin(margin)
        .constraints([Constraint::Length(top), Constraint::Min(middle_min), Constraint::Length(bottom)].as_ref())
        .split(rect)
        .into_iter()
        .map(|c| Area { x: c.x, y: c.y, width: c.width, height: c.height })
        .collect()
}

/// Splits the screen into its three stacked regions: a fixed-height top,
/// a flexible middle and a fixed-height bottom, inset by the margin.
pub fn screen_regions(size: Area) -> (r: Vec<Area>)
    requires
        on_grid(size@),
    ensures
        r@.len() == 3,
        roomy_screen(size@) ==> forall|i: int|
            0 <= i < 3 ==> #[trigger] r@[i]@ == inset_stack(size@, MARGIN, TOP_HEIGHT, BOTTOM_HEIGHT)[i],
{
    split_vertical(size, MARGIN, TOP_HEIGHT, MIDDLE_MIN_HEIGHT, BOTTOM_HEIGHT)
}

/// The panel for a screen already split into its regions: it fills the
/// bottom one; the others stay blank.
pub fn panel_for(regions: &Vec<Area>) -> (r: Panel)
    requires
        regions@.len() == 3,
    ensures
        r@ == panel_in(regions@[PANEL_REGION as int]@),
{
    Panel {
        area: regions[PANEL_REGION],
        title: "Copyright".to_owned(),
        text: "Test".to_owned(),
        text_tint: Tint::LightCyan,
        border_tint: Tint::White,
        centred: true,
        border: BorderKind::Plain,
    }
}

/// The panel for a screen of the given size. On a screen large enough for
/// its layout it depends on the size alone, so every redraw of an
/// unchanged screen draws the same panel.
pub fn layout_view(size: Area) -> (r: Panel)
    requires
        on_grid(size@),
    ensures
        r@ == panel_in(r.area@),
        roomy_screen(size@) ==> r@ == screen_panel(size@),
{
    let regions = screen_regions(size);
    let r = panel_for(&regions);
    proof {
        if roomy_screen(size@) {
            assert(regions@[PANEL_REGION as int]@ == inset_stack(size@, MARGIN, TOP_HEIGHT, BOTTOM_HEIGHT)[PANEL_REGION as int]);
        }
    }
    r
}

/// Two draws of one screen large enough for its layout give the same
/// panel, in the same place, with the same text.
pub proof fn lemma_redraw_identical(size: Area)
    requires
        on_grid(size@),
        roomy_screen(size@),
    ensures
        screen_panel(size@).0 == ((size.x + 2) as u16, (size.y + size.height - 5) as u16, (size.width - 4) as u16, 3u16),
        screen_panel(size@) == panel_in(screen_panel(size@).0),
{
}

} // verus!
