use vstd::prelude::*;
use crate::guide::{Guide, GuideView, guides_view, next_guide, next_of, previous_guide, previous_of};

verus! {

/// Where a control panel stands on the page: above or below the guide.
#[derive(Clone, Copy, PartialEq, Eq, Structural, Debug)]
pub enum Position {
    Top,
    Bottom,
}

/// The colour theme of the site.
#[derive(Clone, Copy, PartialEq, Eq, Structural, Debug)]
pub enum Mode {
    Light,
    Dark,
}

/// The issue where readers leave feedback on the guides.
pub const FEEDBACK_URL: &'static str = "https://github.com/seed-rs/seed/issues/303";

/// The mode that a toggle switches to.
pub open spec fn toggled_spec(mode: Mode) -> Mode {
    match mode {
        Mode::Light => Mode::Dark,
        Mode::Dark => Mode::Light,
    }
}

/// How a mode is named to the reader.
pub open spec fn mode_label(mode: Mode) -> Seq<char> {
    match mode {
        Mode::Light => "Light mode"@,
        Mode::Dark => "Dark mode"@,
    }
}

/// The toggle names the mode that a click switches to.
pub open spec fn toggle_label(mode: Mode) -> Seq<char> {
    mode_label(toggled_spec(mode))
}

impl Mode {
    /// The other mode.
    pub fn toggled(self) -> (r: Mode)
        ensures
            r == toggled_spec(self),
    {
        match self {
            Mode::Light => Mode::Dark,
            Mode::Dark => Mode::Light,
        }
    }
}

/// The text of the mode toggle while the site is in `mode`.
pub fn mode_toggle_label(mode: Mode) -> (r: String)
    ensures
        r@ == toggle_label(mode),
{
    match mode {
        Mode::Light => "Dark mode".to_string(),
        Mode::Dark => "Light mode".to_string(),
    }
}

/// What a render reads of the application: the ordered guides, the mode and
/// whether the site is being prerendered.
pub struct Model {
    pub guides: Vec<Guide>,
    pub mode: Mode,
    pub in_prerendering: bool,
}

/// The margin that keeps the panel apart from the guide.
#[derive(Clone, Copy, PartialEq, Eq, Structural, Debug)]
pub enum Margin {
    Below,
    Above,
}

/// The arrow beside a guide link, turned by `rotation` degrees from the
/// arrow that points to the next guide.
#[derive(Clone, Copy, PartialEq, Eq, Structural, Debug)]
pub struct Icon {
    pub rotation: u16,
}

/// A link to a guide: the slug that its route is made of, the title that is
/// shown on wide screens and the arrow.
#[derive(Clone, PartialEq, Eq, Debug)]
pub struct GuideLink {
    pub slug: String,
    pub menu_title: String,
    pub icon: Icon,
}

/// An outer column of the panel.
#[derive(Clone, PartialEq, Eq, Debug)]
pub enum SideColumn {
    /// A placeholder that keeps the layout in three columns.
    Empty,
    /// The arrow, then the title.
    PreviousLink(GuideLink),
    /// The title, then the arrow.
    NextLink(GuideLink),
}

/// The middle column of the panel.
#[derive(Clone, PartialEq, Eq, Debug)]
pub enum CenterColumn {
    /// A button that sends the toggle-mode message when clicked, with a
    /// spinner beside its label while the site is prerendered.
    ModeToggle { label: String, spinner: bool },
    /// A link to edit the guide's source, and a link for feedback.
    EditLinks { edit_url: String, feedback_url: String },
}

/// The control panel: three columns in a row.
#[derive(Clone, PartialEq, Eq, Debug)]
pub struct ControlPanel {
    pub margin: Margin,
    pub previous: SideColumn,
    pub center: CenterColumn,
    pub next: SideColumn,
}

/// The value of a guide link.
pub struct GuideLinkView {
    pub slug: Seq<char>,
    pub menu_title: Seq<char>,
    pub icon: Icon,
}

/// The value of an outer column.
pub enum SideColumnView {
    Empty,
    PreviousLink(GuideLinkView),
    NextLink(GuideLinkView),
}

/// The value of the middle column.
pub enum CenterColumnView {
    ModeToggle { label: Seq<char>, spinner: bool },
    EditLinks { edit_url: Seq<char>, feedback_url: Seq<char> },
}

/// The value of a control panel.
pub struct ControlPanelView {
    pub margin: Margin,
    pub previous: SideColumnView,
    pub center: CenterColumnView,
    pub next: SideColumnView,
}

impl View for GuideLink {
    type V = GuideLinkView;

    open spec fn view(&self) -> GuideLinkView {
        GuideLinkView { slug: self.slug@, menu_title: self.menu_title@, icon: self.icon }
    }
}

impl View for SideColumn {
    type V = SideColumnView;

    open spec fn view(&self) -> SideColumnView {
        match self {
            SideColumn::Empty => SideColumnView::Empty,
            SideColumn::PreviousLink(l) => SideColumnView::PreviousLink(l@),
            SideColumn::NextLink(l) => SideColumnView::NextLink(l@),
        }
    }
}

impl View for CenterColumn {
    type V = CenterColumnView;

    open spec fn view(&self) -> CenterColumnView {
        match self {
            CenterColumn::ModeToggle { label, spinner } => CenterColumnView::ModeToggle {
                label: label@,
                spinner: *spinner,
            },
            CenterColumn::EditLinks { edit_url, feedback_url } => CenterColumnView::EditLinks {
                edit_url: edit_url@,
                feedback_url: feedback_url@,
            },
        }
    }
}

impl View for ControlPanel {
    type V = ControlPanelView;

    open spec fn view(&self) -> ControlPanelView {
        ControlPanelView {
            margin: self.margin,
            previous: self.previous@,
            center: self.center@,
            next: self.next@,
        }
    }
}

/// The arrow of a link to the next guide.
pub open spec fn next_icon_spec() -> Icon {
    Icon { rotation: 0 }
}

/// The arrow of a link to the previous guide: the next arrow turned around.
pub open spec fn previous_icon_spec() -> Icon {
    Icon { rotation: 180 }
}

/// A link to the previous guide `g`.
pub open spec fn previous_link_of(g: GuideView) -> SideColumnView {
    SideColumnView::PreviousLink(
        GuideLinkView { slug: g.slug, menu_title: g.menu_title, icon: previous_icon_spec() },
    )
}

/// A link to the next guide `g`.
pub open spec fn next_link_of(g: GuideView) -> SideColumnView {
    SideColumnView::NextLink(
        GuideLinkView { slug: g.slug, menu_title: g.menu_title, icon: next_icon_spec() },
    )
}

/// The left column: a link to the previous guide if there is one.
pub open spec fn previous_column_of(previous: Option<GuideView>) -> SideColumnView {
    match previous {
        Some(g) => previous_link_of(g),
        None => SideColumnView::Empty,
    }
}

/// The right column: a link to the next guide if there is one.
pub open spec fn next_column_of(next: Option<GuideView>) -> SideColumnView {
    match next {
        Some(g) => next_link_of(g),
        None => SideColumnView::Empty,
    }
}

/// The mode toggle while the site is in `mode`.
pub open spec fn mode_toggle_of(in_prerendering: bool, mode: Mode) -> CenterColumnView {
    CenterColumnView::ModeToggle { label: toggle_label(mode), spinner: in_prerendering }
}

/// The links to edit a guide at `edit_url` and to leave feedback.
pub open spec fn edit_links_of(edit_url: Seq<char>) -> CenterColumnView {
    CenterColumnView::EditLinks { edit_url, feedback_url: FEEDBACK_URL@ }
}

/// The panel above the guide keeps a margin below it, the one beneath keeps
/// a margin above.
pub open spec fn margin_of(position: Position) -> Margin {
    match position {
        Position::Top => Margin::Below,
        Position::Bottom => Margin::Above,
    }
}

/// The middle column: the mode toggle at the top, the edit links at the
/// bottom.
pub open spec fn center_of(
    selected: GuideView,
    position: Position,
    mode: Mode,
    in_prerendering: bool,
) -> CenterColumnView {
    match position {
        Position::Top => mode_toggle_of(in_prerendering, mode),
        Position::Bottom => edit_links_of(selected.edit_url),
    }
}

/// The whole panel for `selected` among `guides`.
pub open spec fn panel_of(
    selected: GuideView,
    position: Position,
    guides: Seq<GuideView>,
    mode: Mode,
    in_prerendering: bool,
) -> ControlPanelView {
    ControlPanelView {
        margin: margin_of(position),
        previous: previous_column_of(previous_of(guides, selected)),
        center: center_of(selected, position, mode, in_prerendering),
        next: next_column_of(next_of(guides, selected)),
    }
}

/// Builds the control panel of `selected_guide`: the previous and next guides
/// of `model.guides` at the sides, and in the middle the mode toggle at the
/// top or the edit links at the bottom.
pub fn view(selected_guide: &Guide, position: Position, model: &Model) -> (r: ControlPanel)
    ensures
        r@ == panel_of(
            selected_guide@,
            position,
            guides_view(model.guides@),
            model.mode,
            model.in_prerendering,
        ),
{
    let margin = match position {
        Position::Top => Margin::Below,
        Position::Bottom => Margin::Above,
    };
    let previous = match previous_guide(selected_guide, model.guides.as_slice()) {
        Some(g) => view_previous_guide_link(g),
        None => view_empty_column(),
    };
    let center = match position {
        Position::Top => view_mode_toggle(model.in_prerendering, model.mode),
        Position::Bottom => view_edit_this_page(selected_guide.edit_url.as_str()),
    };
    let next = match next_guide(selected_guide, model.guides.as_slice()) {
        Some(g) => view_next_guide_link(g),
        None => view_empty_column(),
    };
    ControlPanel { margin, previous, center, next }
}

/// The placeholder of an outer column with no link.
fn view_empty_column() -> (r: SideColumn)
    ensures
        r@ == SideColumnView::Empty,
{
    SideColumn::Empty
}

/// The mode toggle, with a spinner while the site is prerendered.
fn view_mode_toggle(in_prerendering: bool, mode: Mode) -> (r: CenterColumn)
    ensures
        r@ == mode_toggle_of(in_prerendering, mode),
{
    CenterColumn::ModeToggle { label: mode_toggle_label(mode), spinner: in_prerendering }
}

/// The links to edit the guide at `edit_url` and to leave feedback.
fn view_edit_this_page(edit_url: &str) -> (r: CenterColumn)
    ensures
        r@ == edit_links_of(edit_url@),
{
    CenterColumn::EditLinks {
        edit_url: edit_url.to_string(),
        feedback_url: FEEDBACK_URL.to_string(),
    }
}

/// A link to `previous_guide`, behind a backward arrow.
fn view_previous_guide_link(previous_guide: &Guide) -> (r: SideColumn)
    ensures
        r@ == previous_link_of(previous_guide@),
{
    SideColumn::PreviousLink(
        GuideLink {
            slug: previous_guide.slug.clone(),
            menu_title: previous_guide.menu_title.clone(),
            icon: view_previous_icon(),
        },
    )
}

/// A link to `next_guide`, before a forward arrow.
fn view_next_guide_link(next_guide: &Guide) -> (r: SideColumn)
    ensures
        r@ == next_link_of(next_guide@),
{
    SideColumn::NextLink(
        GuideLink {
            slug: next_guide.slug.clone(),
            menu_title: next_guide.menu_title.clone(),
            icon: view_next_icon(),
        },
    )
}

/// The forward arrow turned half a circle.
fn view_previous_icon() -> (r: Icon)
    ensures
        r == previous_icon_spec(),
{
    Icon { rotation: 180 }
}

/// The forward arrow.
fn view_next_icon() -> (r: Icon)
    ensures
        r == next_icon_spec(),
{
    Icon { rotation: 0 }
}

/// Rendering keeps no state: renders of equal inputs are the same panel.
pub proof fn lemma_render_is_repeatable(
    selected_a: GuideView,
    selected_b: GuideView,
    position: Position,
    guides_a: Seq<GuideView>,
    guides_b: Seq<GuideView>,
    mode: Mode,
    in_prerendering: bool,
)
    requires
        selected_a == selected_b,
        guides_a =~= guides_b,
    ensures
        panel_of(selected_a, position, guides_a, mode, in_prerendering) == panel_of(
            selected_b,
            position,
            guides_b,
            mode,
            in_prerendering,
        ),
{
}

} // verus!
