use vstd::prelude::*;

verus! {

/// A documentation page: its URL slug, its title in the menu and the URL
/// where its source can be edited.
pub struct Guide {
    pub slug: String,
    pub menu_title: String,
    pub edit_url: String,
}

/// The value of a guide: its three strings.
pub struct GuideView {
    pub slug: Seq<char>,
    pub menu_title: Seq<char>,
    pub edit_url: Seq<char>,
}

impl View for Guide {
    type V = GuideView;

    open spec fn view(&self) -> GuideView {
        GuideView { slug: self.slug@, menu_title: self.menu_title@, edit_url: self.edit_url@ }
    }
}

impl Guide {
    pub fn new(slug: String, menu_title: String, edit_url: String) -> (r: Guide)
        ensures
            r.slug@ == slug@,
            r.menu_title@ == menu_title@,
            r.edit_url@ == edit_url@,
    {
        Guide { slug, menu_title, edit_url }
    }
}

impl Clone for Guide {
    fn clone(&self) -> (r: Guide)
        ensures
            r@ == self@,
    {
        Guide {
            slug: self.slug.clone(),
            menu_title: self.menu_title.clone(),
            edit_url: self.edit_url.clone(),
        }
    }
}

/// Guides are equal when all three of their strings are.
impl PartialEq for Guide {
    fn eq(&self, other: &Guide) -> (r: bool)
        ensures
            r == (self@ == other@),
    {
        self.slug == other.slug && self.menu_title == other.menu_title && self.edit_url
            == other.edit_url
    }
}

impl vstd::std_specs::cmp::PartialEqSpecImpl for Guide {
    open spec fn obeys_eq_spec() -> bool {
        true
    }

    open spec fn eq_spec(&self, other: &Guide) -> bool {
        self@ == other@
    }
}

impl Eq for Guide {

}

/// The values of a list of guides, in order.
pub open spec fn guides_view(guides: Seq<Guide>) -> Seq<GuideView> {
    guides.map_values(|g: Guide| g@)
}

/// `i` is the first index of `gs` that holds `g`.
pub open spec fn is_first_position(gs: Seq<GuideView>, g: GuideView, i: int) -> bool {
    &&& 0 <= i < gs.len()
    &&& gs[i] == g
    &&& forall|j: int| 0 <= j < i ==> gs[j] != g
}

/// The first index of `gs` that holds `g`, if any does.
pub open spec fn first_position(gs: Seq<GuideView>, g: GuideView) -> Option<int> {
    if exists|i: int| is_first_position(gs, g, i) {
        Some(choose|i: int| is_first_position(gs, g, i))
    } else {
        None
    }
}

/// The guide just before the first occurrence of `g` in `gs`.
pub open spec fn previous_of(gs: Seq<GuideView>, g: GuideView) -> Option<GuideView> {
    match first_position(gs, g) {
        Some(i) => if i >= 1 {
            Some(gs[i - 1])
        } else {
            None
        },
        None => None,
    }
}

/// The guide just after the first occurrence of `g` in `gs`.
pub open spec fn next_of(gs: Seq<GuideView>, g: GuideView) -> Option<GuideView> {
    match first_position(gs, g) {
        Some(i) => if i + 1 < gs.len() {
            Some(gs[i + 1])
        } else {
            None
        },
        None => None,
    }
}

/// No guide stands twice in `gs`.
pub open spec fn no_duplicates(gs: Seq<GuideView>) -> bool {
    forall|i: int, j: int| 0 <= i < gs.len() && 0 <= j < gs.len() && i != j ==> gs[i] != gs[j]
}

/// What an optional reference to a guide holds, as a value.
pub open spec fn option_view(r: Option<&Guide>) -> Option<GuideView> {
    match r {
        Some(g) => Some(g@),
        None => None,
    }
}

/// The first position is the only index that meets its definition.
pub proof fn lemma_first_position_unique(gs: Seq<GuideView>, g: GuideView, i: int)
    requires
        is_first_position(gs, g, i),
    ensures
        first_position(gs, g) == Some(i),
{
    let k = choose|k: int| is_first_position(gs, g, k);
    assert(is_first_position(gs, g, k));
    if k < i {
        assert(gs[k] != g);
    } else if k > i {
        assert(gs[i] != g);
    }
}

/// When no index holds `g` it has no first position.
pub proof fn lemma_first_position_absent(gs: Seq<GuideView>, g: GuideView)
    requires
        forall|j: int| 0 <= j < gs.len() ==> gs[j] != g,
    ensures
        first_position(gs, g) == None::<int>,
{
}

/// Finds the first index of `guides` that holds `selected_guide`.
fn find_position(selected_guide: &Guide, guides: &[Guide]) -> (r: Option<usize>)
    ensures
        match r {
            Some(i) => i < guides@.len() && first_position(guides_view(guides@), selected_guide@)
                == Some(i as int),
            None => first_position(guides_view(guides@), selected_guide@) == None::<int>,
        },
{
    let ghost gs = guides_view(guides@);
    let mut i: usize = 0;
    while i < guides.len()
        invariant
            gs == guides_view(guides@),
            i <= guides@.len(),
            forall|j: int| 0 <= j < i ==> gs[j] != selected_guide@,
        decreases guides@.len() - i,
    {
        if guides[i] == *selected_guide {
            proof {
                lemma_first_position_unique(gs, selected_guide@, i as int);
            }
            return Some(i);
        }
        i = i + 1;
    }
    proof {
        lemma_first_position_absent(gs, selected_guide@);
    }
    None
}

/// The guide just before `selected_guide` in `guides`: nothing where the
/// selected guide is the first one or is not in the list.
pub fn previous_guide<'a>(selected_guide: &Guide, guides: &'a [Guide]) -> (r: Option<&'a Guide>)
    ensures
        option_view(r) == previous_of(guides_view(guides@), selected_guide@),
{
    let index = find_position(selected_guide, guides);
    match index {
        Some(i) => if i >= 1 {
            Some(&guides[i - 1])
        } else {
            None
        },
        None => None,
    }
}

/// The guide just after `selected_guide` in `guides`: nothing where the
/// selected guide is the last one or is not in the list.
pub fn next_guide<'a>(selected_guide: &Guide, guides: &'a [Guide]) -> (r: Option<&'a Guide>)
    ensures
        option_view(r) == next_of(guides_view(guides@), selected_guide@),
{
    let index = find_position(selected_guide, guides);
    match index {
        Some(i) => if i < guides.len() - 1 {
            Some(&guides[i + 1])
        } else {
            None
        },
        None => None,
    }
}

/// In a list without repeated guides, the neighbors of the guide at index `i`
/// are the guides at `i - 1` and `i + 1`, where those indices are in the list.
pub proof fn lemma_neighbors_of_listed_guide(gs: Seq<GuideView>, g: GuideView, i: int)
    requires
        no_duplicates(gs),
        0 <= i < gs.len(),
        gs[i] == g,
    ensures
        previous_of(gs, g) == (if i >= 1 {
            Some(gs[i - 1])
        } else {
            None
        }),
        next_of(gs, g) == (if i + 1 < gs.len() {
            Some(gs[i + 1])
        } else {
            None
        }),
{
    assert(is_first_position(gs, g, i));
    lemma_first_position_unique(gs, g, i);
}

/// A guide that is not in the list has no neighbor on either side.
pub proof fn lemma_unlisted_guide_has_no_neighbors(gs: Seq<GuideView>, g: GuideView)
    requires
        !gs.contains(g),
    ensures
        previous_of(gs, g) == None::<GuideView>,
        next_of(gs, g) == None::<GuideView>,
{
    assert forall|j: int| 0 <= j < gs.len() implies gs[j] != g by {
        if gs[j] == g {
            assert(gs.contains(g));
        }
    }
    lemma_first_position_absent(gs, g);
}

} // verus!
