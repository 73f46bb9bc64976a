//! The library page as values: its sort and filter choices, the filter
//! the selected choices make, and how a section's items are laid out.
use vstd::prelude::*;
use crate::library::{FilterOption, LibraryFilter, LibrarySection};
use crate::text::{opt_view, owned, str_eq};

verus! {

broadcast use vstd::string::group_string_axioms;

/// A choice of a list: the id it stands for and its label.
pub open spec fn choice_view(c: (String, String)) -> (Seq<char>, Seq<char>) {
    (c.0@, c.1@)
}

/// Choices as plain values.
pub open spec fn choice_views(v: Seq<(String, String)>) -> Seq<(Seq<char>, Seq<char>)> {
    v.map_values(|c: (String, String)| choice_view(c))
}

fn push_choice(v: &mut Vec<(String, String)>, id: String, label: String)
    ensures
        choice_views(final(v)@) == choice_views(old(v)@).push((id@, label@)),
{
    let ghost before = v@;
    v.push((id, label));
    assert(v@ == before.push(v@.last()));
    assert(choice_views(v@) =~= choice_views(before).push((id@, label@)));
}

/// The sort choices, title first.
pub open spec fn spec_sort_choices() -> Seq<(Seq<char>, Seq<char>)> {
    seq![
        ("titleSort:asc"@, "Title (A-Z)"@),
        ("addedAt:desc"@, "Date Added (Newest)"@),
        ("rating:desc"@, "Rating (Highest)"@),
        ("year:desc"@, "Year (Newest)"@),
        ("originallyAvailableAt:desc"@, "Release Date"@),
    ]
}

/// The sort choices.
pub fn sort_choices() -> (r: Vec<(String, String)>)
    ensures
        choice_views(r@) == spec_sort_choices(),
{
    let mut v: Vec<(String, String)> = Vec::new();
    push_choice(&mut v, owned("titleSort:asc"), owned("Title (A-Z)"));
    push_choice(&mut v, owned("addedAt:desc"), owned("Date Added (Newest)"));
    push_choice(&mut v, owned("rating:desc"), owned("Rating (Highest)"));
    push_choice(&mut v, owned("year:desc"), owned("Year (Newest)"));
    push_choice(&mut v, owned("originallyAvailableAt:desc"), owned("Release Date"));
    assert(choice_views(v@) =~= spec_sort_choices());
    v
}

/// The sort chosen when the page opens: by title.
pub fn default_sort() -> (r: String)
    ensures
        r@ == "titleSort:asc"@,
{
    owned("titleSort:asc")
}

/// The fields a section is filtered by, with the label of their "all" choice.
pub open spec fn spec_filter_fields() -> Seq<(Seq<char>, Seq<char>)> {
    seq![
        ("genre"@, "All Genres"@),
        ("year"@, "All Years"@),
        ("contentRating"@, "All Ratings"@),
        ("resolution"@, "All Resolutions"@),
        ("language"@, "All Audio Languages"@),
    ]
}

/// The fields a section is filtered by, with the label of their "all" choice.
pub fn filter_fields() -> (r: Vec<(String, String)>)
    ensures
        choice_views(r@) == spec_filter_fields(),
{
    let mut v: Vec<(String, String)> = Vec::new();
    push_choice(&mut v, owned("genre"), owned("All Genres"));
    push_choice(&mut v, owned("year"), owned("All Years"));
    push_choice(&mut v, owned("contentRating"), owned("All Ratings"));
    push_choice(&mut v, owned("resolution"), owned("All Resolutions"));
    push_choice(&mut v, owned("language"), owned("All Audio Languages"));
    assert(choice_views(v@) =~= spec_filter_fields());
    v
}

/// The choices of a filter list: "all" (the empty id) first, then each
/// option by its key and title.
pub open spec fn spec_filter_choices(all_label: Seq<char>, options: Seq<FilterOption>) -> Seq<(Seq<char>, Seq<char>)> {
    seq![(Seq::<char>::empty(), all_label)] + options.map_values(|o: FilterOption| (o.key@, o.title@))
}

/// The choices of a filter list.
pub fn filter_choices(all_label: &str, options: &Vec<FilterOption>) -> (r: Vec<(String, String)>)
    ensures
        choice_views(r@) == spec_filter_choices(all_label@, options@),
{
    let ghost opts = options@.map_values(|o: FilterOption| (o.key@, o.title@));
    let mut v: Vec<(String, String)> = Vec::new();
    push_choice(&mut v, String::new(), owned(all_label));
    let ghost head = choice_views(v@);
    let mut i: usize = 0;
    while i < options.len()
        invariant
            i <= options.len(),
            opts == options@.map_values(|o: FilterOption| (o.key@, o.title@)),
            head == seq![(Seq::<char>::empty(), all_label@)],
            choice_views(v@) == head + opts.take(i as int),
        decreases options.len() - i,
    {
        push_choice(&mut v, options[i].key.clone(), options[i].title.clone());
        assert(opts.take(i + 1) == opts.take(i as int).push(opts[i as int]));
        i += 1;
    }
    assert(opts.take(options.len() as int) == opts);
    v
}

/// A chosen id as a filter value: none for the "all" choice or no choice.
pub open spec fn chosen(id: Option<Seq<char>>) -> Option<Seq<char>> {
    match id {
        Some(s) => if s.len() == 0 { None } else { Some(s) },
        None => None,
    }
}

fn chosen_exec(id: &Option<String>) -> (r: Option<String>)
    ensures
        opt_view(r) == chosen(opt_view(*id)),
{
    match id {
        Some(s) => if s.unicode_len() == 0 { None } else { Some(s.clone()) },
        None => None,
    }
}

/// What is chosen on the page: the ids of the sort and the five filter
/// lists, and the unwatched-only box.
pub struct FilterSelection {
    pub sort: Option<String>,
    pub genre: Option<String>,
    pub year: Option<String>,
    pub content_rating: Option<String>,
    pub resolution: Option<String>,
    pub audio_language: Option<String>,
    pub unwatched_only: bool,
}

/// The filter the page's choices make.
pub fn current_filter(sel: &FilterSelection) -> (f: LibraryFilter)
    ensures
        opt_view(f.sort) == chosen(opt_view(sel.sort)),
        opt_view(f.genre) == chosen(opt_view(sel.genre)),
        opt_view(f.year) == chosen(opt_view(sel.year)),
        opt_view(f.content_rating) == chosen(opt_view(sel.content_rating)),
        opt_view(f.resolution) == chosen(opt_view(sel.resolution)),
        opt_view(f.audio_language) == chosen(opt_view(sel.audio_language)),
        f.unwatched_only == sel.unwatched_only,
{
    LibraryFilter {
        genre: chosen_exec(&sel.genre),
        year: chosen_exec(&sel.year),
        content_rating: chosen_exec(&sel.content_rating),
        resolution: chosen_exec(&sel.resolution),
        unwatched_only: sel.unwatched_only,
        audio_language: chosen_exec(&sel.audio_language),
        sort: chosen_exec(&sel.sort),
    }
}

/// How a section's items are laid out.
#[derive(Debug, PartialEq, Eq, Structural)]
pub enum SectionLayout {
    /// Posters (movies and anything else).
    Posters,
    /// Posters of shows.
    Shows,
    /// Square covers under an "Artists" heading.
    Artists,
}

/// The type of the first section with key `key`, from position `k` on.
pub open spec fn section_type_from(sections: Seq<LibrarySection>, key: Seq<char>, k: int) -> Option<Seq<char>>
    decreases sections.len() - k,
{
    if k < 0 || k >= sections.len() {
        None
    } else if sections[k].key@ == key {
        Some(sections[k].section_type@)
    } else {
        section_type_from(sections, key, k + 1)
    }
}

/// The layout of a section: by its type, a movie layout when it is unknown.
pub open spec fn spec_section_layout(section_type: Option<Seq<char>>) -> SectionLayout {
    match section_type {
        Some(t) => if t == "show"@ {
            SectionLayout::Shows
        } else if t == "artist"@ {
            SectionLayout::Artists
        } else {
            SectionLayout::Posters
        },
        None => SectionLayout::Posters,
    }
}

/// The layout of the section with key `key` among the known sections.
pub fn section_layout(sections: &Vec<LibrarySection>, key: &str) -> (r: SectionLayout)
    ensures
        r == spec_section_layout(section_type_from(sections@, key@, 0)),
{
    let mut i: usize = 0;
    while i < sections.len()
        invariant
            i <= sections.len(),
            section_type_from(sections@, key@, 0) == section_type_from(sections@, key@, i as int),
        decreases sections.len() - i,
    {
        if str_eq(sections[i].key.as_str(), key) {
            let t = sections[i].section_type.as_str();
            return if str_eq(t, "show") {
                SectionLayout::Shows
            } else if str_eq(t, "artist") {
                SectionLayout::Artists
            } else {
                SectionLayout::Posters
            };
        }
        i += 1;
    }
    SectionLayout::Posters
}

} // verus!
