use simplex_core::library::{FilterOption, LibrarySection};
use simplex_core::library_view::{
    current_filter, default_sort, filter_choices, filter_fields, section_layout, sort_choices, FilterSelection,
    SectionLayout,
};

fn section(key: &str, section_type: &str) -> LibrarySection {
    LibrarySection {
        key: key.into(),
        title: key.into(),
        section_type: section_type.into(),
        agent: None,
        scanner: None,
        thumb: None,
        art: None,
        updated_at: None,
    }
}

fn pairs(v: &[(&str, &str)]) -> Vec<(String, String)> {
    v.iter().map(|(a, b)| (a.to_string(), b.to_string())).collect()
}

#[test]
fn sort_and_filter_lists() {
    let sorts = sort_choices();
    assert_eq!(sorts.len(), 5);
    assert_eq!(sorts[0], ("titleSort:asc".to_string(), "Title (A-Z)".to_string()));
    assert_eq!(default_sort(), sorts[0].0);
    let fields = filter_fields();
    assert_eq!(fields[2], ("contentRating".to_string(), "All Ratings".to_string()));
    assert_eq!(fields[4], ("language".to_string(), "All Audio Languages".to_string()));
}

#[test]
fn filter_choices_start_with_all() {
    let options = vec![
        FilterOption { key: "1".into(), title: "Action".into() },
        FilterOption { key: "2".into(), title: "Drama".into() },
    ];
    assert_eq!(filter_choices("All Genres", &options), pairs(&[("", "All Genres"), ("1", "Action"), ("2", "Drama")]));
    assert_eq!(filter_choices("All Years", &vec![]), pairs(&[("", "All Years")]));
}

#[test]
fn all_choices_make_no_filter() {
    let sel = FilterSelection {
        sort: Some("year:desc".into()),
        genre: Some(String::new()),
        year: None,
        content_rating: Some("PG".into()),
        resolution: Some(String::new()),
        audio_language: Some("jpn".into()),
        unwatched_only: true,
    };
    let f = current_filter(&sel);
    assert_eq!(f.sort, Some("year:desc".to_string()));
    assert_eq!(f.genre, None);
    assert_eq!(f.year, None);
    assert_eq!(f.content_rating, Some("PG".to_string()));
    assert_eq!(f.resolution, None);
    assert_eq!(f.audio_language, Some("jpn".to_string()));
    assert!(f.unwatched_only);
}

#[test]
fn layouts_follow_the_section_type() {
    let sections = vec![section("1", "movie"), section("2", "show"), section("3", "artist"), section("4", "photo")];
    assert_eq!(section_layout(&sections, "1"), SectionLayout::Posters);
    assert_eq!(section_layout(&sections, "2"), SectionLayout::Shows);
    assert_eq!(section_layout(&sections, "3"), SectionLayout::Artists);
    assert_eq!(section_layout(&sections, "4"), SectionLayout::Posters);
    assert_eq!(section_layout(&sections, "9"), SectionLayout::Posters);
}
