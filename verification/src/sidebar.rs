//! The sidebar's navigation: which rows it lists (pinned libraries among
//! them) and where a selected row leads.
use vstd::prelude::*;
use crate::library::LibrarySection;
use crate::query::slice_skip;
use crate::text::{chars_of, owned, spec_starts_with, starts_with_str, str_eq, string_of, views};

verus! {

broadcast use vstd::string::group_string_axioms;

/// A row of the sidebar: the view it names, its title, and its indent.
pub struct NavRow {
    pub id: String,
    pub title: String,
    pub indent: i32,
}

/// A row as plain values.
pub open spec fn row_view(r: NavRow) -> (Seq<char>, Seq<char>, i32) {
    (r.id@, r.title@, r.indent)
}

/// The rows as plain values.
pub open spec fn row_views(v: Seq<NavRow>) -> Seq<(Seq<char>, Seq<char>, i32)> {
    v.map_values(|r: NavRow| row_view(r))
}

/// The title of the first section with key `key`, from position `k` on;
/// `Pinned Library` when there is none.
pub open spec fn section_title_from(sections: Seq<LibrarySection>, key: Seq<char>, k: int) -> Seq<char>
    decreases sections.len() - k,
{
    if k < 0 || k >= sections.len() {
        "Pinned Library"@
    } else if sections[k].key@ == key {
        sections[k].title@
    } else {
        section_title_from(sections, key, k + 1)
    }
}

/// The row of a pinned library.
pub open spec fn pinned_row(sections: Seq<LibrarySection>, key: Seq<char>) -> (Seq<char>, Seq<char>, i32) {
    ("library:"@ + key, section_title_from(sections, key, 0), 24)
}

/// The sidebar's rows: On Deck and Libraries, each pinned library (by its
/// section's title) indented under them, then Search, Playlists,
/// Collections and Settings.
pub open spec fn spec_nav_rows(sections: Seq<LibrarySection>, pinned: Seq<Seq<char>>) -> Seq<(Seq<char>, Seq<char>, i32)> {
    seq![("on-deck"@, "On Deck"@, 12i32), ("library"@, "Libraries"@, 12i32)]
        + pinned.map_values(|k: Seq<char>| pinned_row(sections, k))
        + seq![("search"@, "Search"@, 12i32), ("playlists"@, "Playlists"@, 12i32), ("collections"@, "Collections"@, 12i32), ("settings"@, "Settings"@, 12i32)]
}

fn section_title(sections: &Vec<LibrarySection>, key: &str) -> (r: String)
    ensures
        r@ == section_title_from(sections@, key@, 0),
{
    let mut i: usize = 0;
    while i < sections.len()
        invariant
            i <= sections.len(),
            section_title_from(sections@, key@, 0) == section_title_from(sections@, key@, i as int),
        decreases sections.len() - i,
    {
        if str_eq(sections[i].key.as_str(), key) {
            return sections[i].title.clone();
        }
        i += 1;
    }
    owned("Pinned Library")
}

fn push_row(rows: &mut Vec<NavRow>, id: String, title: String, indent: i32)
    ensures
        row_views(final(rows)@) == row_views(old(rows)@).push((id@, title@, indent)),
{
    let ghost before = rows@;
    rows.push(NavRow { id, title, indent });
    assert(rows@ == before.push(rows@.last()));
    assert(row_views(rows@) =~= row_views(before).push((rows@.last().id@, rows@.last().title@, indent)));
}

/// The sidebar's rows for the known sections and the pinned keys.
pub fn nav_rows(sections: &Vec<LibrarySection>, pinned: &Vec<String>) -> (r: Vec<NavRow>)
    ensures
        row_views(r@) == spec_nav_rows(sections@, views(pinned@)),
{
    let ghost pins = views(pinned@).map_values(|k: Seq<char>| pinned_row(sections@, k));
    let mut rows: Vec<NavRow> = Vec::new();
    push_row(&mut rows, owned("on-deck"), owned("On Deck"), 12);
    push_row(&mut rows, owned("library"), owned("Libraries"), 12);
    let ghost head = row_views(rows@);
    assert(head =~= seq![("on-deck"@, "On Deck"@, 12i32), ("library"@, "Libraries"@, 12i32)]);
    let mut i: usize = 0;
    while i < pinned.len()
        invariant
            i <= pinned.len(),
            pins == views(pinned@).map_values(|k: Seq<char>| pinned_row(sections@, k)),
            row_views(rows@) == head + pins.take(i as int),
        decreases pinned.len() - i,
    {
        let mut id = owned("library:");
        id.append(pinned[i].as_str());
        let title = section_title(sections, pinned[i].as_str());
        push_row(&mut rows, id, title, 24);
        assert(pins[i as int] == pinned_row(sections@, pinned@[i as int]@));
        assert(pins.take(i + 1) == pins.take(i as int).push(pins[i as int]));
        i += 1;
    }
    assert(pins.take(pinned.len() as int) == pins);
    push_row(&mut rows, owned("search"), owned("Search"), 12);
    push_row(&mut rows, owned("playlists"), owned("Playlists"), 12);
    push_row(&mut rows, owned("collections"), owned("Collections"), 12);
    push_row(&mut rows, owned("settings"), owned("Settings"), 12);
    assert(row_views(rows@) =~= spec_nav_rows(sections@, views(pinned@)));
    rows
}

/// Where a selected row leads.
pub enum NavAction {
    /// Nowhere: not signed in.
    Nothing,
    /// The library view, on this section or on all of them.
    OpenLibrary(Option<String>),
    /// The view of this name.
    ShowView(String),
}

/// Where a selected row leads, as plain values.
pub enum NavActionView {
    Nothing,
    OpenLibrary(Option<Seq<char>>),
    ShowView(Seq<char>),
}

impl View for NavAction {
    type V = NavActionView;

    open spec fn view(&self) -> NavActionView {
        match self {
            NavAction::Nothing => NavActionView::Nothing,
            NavAction::OpenLibrary(k) => NavActionView::OpenLibrary(match k {
                Some(s) => Some(s@),
                None => None,
            }),
            NavAction::ShowView(v) => NavActionView::ShowView(v@),
        }
    }
}

/// Where a selected row leads: nowhere unless signed in; a pinned library
/// opens the library view on its section, Libraries opens it on all of
/// them, any other row shows its view.
pub open spec fn spec_nav_action(id: Seq<char>, signed_in: bool) -> NavActionView {
    if !signed_in {
        NavActionView::Nothing
    } else if spec_starts_with(id, "library:"@) {
        NavActionView::OpenLibrary(Some(id.skip(8)))
    } else if id == "library"@ {
        NavActionView::OpenLibrary(None)
    } else {
        NavActionView::ShowView(id)
    }
}

/// Where a selected row leads.
pub fn nav_action(id: &str, signed_in: bool) -> (r: NavAction)
    ensures
        r@ == spec_nav_action(id@, signed_in),
{
    if !signed_in {
        return NavAction::Nothing;
    }
    if starts_with_str(id, "library:") {
        proof {
            reveal_strlit("library:");
        }
        let v = chars_of(id);
        let rest = string_of(slice_skip(&v, 8));
        NavAction::OpenLibrary(Some(rest))
    } else if str_eq(id, "library") {
        NavAction::OpenLibrary(None)
    } else {
        NavAction::ShowView(owned(id))
    }
}

} // verus!
