use tempo::columns::{ArtistColumn, ReleaseColumn};
use tempo::documents::{ArtistInclude, ArtistFilter, IntoColumn, ReleaseFilter, ReleaseInclude};
use tempo::jsonapi::{
    default_page, default_page_size, links_from_resource, make_cursor, parse_sort, Page,
    QueryError, QueryOptions, RawQueryOptions, SortOrder, Take, DEFAULT_PAGE_SIZE,
};
use tempo::names::{parse_names, Named};

type ArtistOptions = QueryOptions<ArtistFilter, ArtistColumn, ArtistInclude, u128>;

fn raw(includes: Option<&str>, sort: Option<&str>, page: Option<Page<u128>>) -> RawQueryOptions<ArtistFilter, u128> {
    RawQueryOptions {
        includes: includes.map(|s| s.to_string()),
        filter: None,
        sort: sort.map(|s| s.to_string()),
        page,
    }
}

#[test]
fn default_page_has_default_size() {
    let page = default_page::<u128>();
    assert_eq!(page.size, DEFAULT_PAGE_SIZE);
    assert_eq!(default_page_size(), 10);
    assert!(page.before.is_none());
    assert!(page.after.is_none());
}

#[test]
fn include_names_round_trip() {
    for item in [
        ArtistInclude::Images,
        ArtistInclude::Tracks,
        ArtistInclude::Releases,
        ArtistInclude::ReleasesArtists,
    ] {
        assert_eq!(ArtistInclude::from_name(item.name()), Some(item));
    }
    assert_eq!(ArtistInclude::from_name("releases.artists"), Some(ArtistInclude::ReleasesArtists));
    assert_eq!(ReleaseInclude::from_name("mediums.tracks.artists"), Some(ReleaseInclude::MediumsTracksArtists));
    assert_eq!(ArtistInclude::from_name("Images"), None);
    assert_eq!(ArtistInclude::from_name(""), None);
}

#[test]
fn parses_comma_separated_includes() {
    let parsed = parse_names::<ArtistInclude>("images,releases.artists").unwrap();
    assert_eq!(parsed, vec![ArtistInclude::Images, ArtistInclude::ReleasesArtists]);
    assert!(parse_names::<ArtistInclude>("images,unknown").is_none());
    assert!(parse_names::<ArtistInclude>("images,").is_none());
}

#[test]
fn sort_text_with_dash_sorts_descending_by_the_rest() {
    let sort = parse_sort::<ArtistColumn>("-name");
    assert_eq!(sort, vec![(ArtistColumn::Name, SortOrder::Desc)]);
    let sort = parse_sort::<ArtistColumn>("-name,sort_name");
    assert!(sort.is_empty());
}

#[test]
fn sort_text_without_dash_sorts_ascending_by_each_known_column() {
    let sort = parse_sort::<ArtistColumn>("name,unknown,sort_name,name,-id");
    assert_eq!(sort, vec![(ArtistColumn::Name, SortOrder::Asc), (ArtistColumn::SortName, SortOrder::Asc)]);
    assert!(parse_sort::<ArtistColumn>("").is_empty());
}

#[test]
fn query_without_options_uses_defaults() {
    let opts = ArtistOptions::default_options();
    assert!(opts.includes.is_empty());
    assert!(opts.filter.is_empty());
    assert!(opts.sort.is_empty());
    assert_eq!(opts.page.size, 10);
}

#[test]
fn query_from_raw_parses_every_part() {
    let page = Page { size: 5, before: None, after: Some(7u128) };
    let opts = ArtistOptions::from_raw(raw(Some("tracks"), Some("-sort_name"), Some(page))).ok().unwrap();
    assert_eq!(opts.includes, vec![ArtistInclude::Tracks]);
    assert_eq!(opts.sort, vec![(ArtistColumn::SortName, SortOrder::Desc)]);
    assert_eq!(opts.page.size, 5);
    assert_eq!(opts.page.after, Some(7));
    let opts = ArtistOptions::from_raw(raw(None, None, None)).ok().unwrap();
    assert_eq!(opts.page.size, DEFAULT_PAGE_SIZE);
    assert!(opts.includes.is_empty());
}

#[test]
fn query_with_unknown_include_is_refused() {
    let result = ArtistOptions::from_raw(raw(Some("images,nope"), None, None));
    assert!(matches!(result, Err(QueryError::InvalidInclude)));
}

#[test]
fn options_written_back_read_the_same() {
    let opts = QueryOptions {
        includes: vec![ArtistInclude::Images, ArtistInclude::ReleasesArtists],
        filter: vec![(ArtistFilter::Name, "x".to_string())],
        sort: vec![(ArtistColumn::Name, SortOrder::Desc)],
        page: Page { size: 3, before: Some(1u128), after: None },
    };
    let written = RawQueryOptions::from(opts);
    assert_eq!(written.includes.as_deref(), Some("images,releases.artists"));
    assert_eq!(written.sort.as_deref(), Some("-name"));
    assert_eq!(written.filter.as_ref().map(|f| f.len()), Some(1));
    let read = ArtistOptions::from_raw(written).ok().unwrap();
    assert_eq!(read.includes, vec![ArtistInclude::Images, ArtistInclude::ReleasesArtists]);
    assert_eq!(read.sort, vec![(ArtistColumn::Name, SortOrder::Desc)]);
    assert_eq!(read.filter.len(), 1);
    assert_eq!(read.page.size, 3);
    assert_eq!(read.page.before, Some(1));
}

#[test]
fn two_sort_columns_are_written_without_separator() {
    let opts: ArtistOptions = QueryOptions {
        includes: vec![],
        filter: vec![],
        sort: vec![(ArtistColumn::Name, SortOrder::Asc), (ArtistColumn::SortName, SortOrder::Desc)],
        page: default_page(),
    };
    let written = RawQueryOptions::from(opts);
    assert_eq!(written.sort.as_deref(), Some("name-sort_name"));
    assert!(written.includes.is_none());
    assert!(written.filter.is_none());
    let read = ArtistOptions::from_raw(written).ok().unwrap();
    assert!(read.sort.is_empty());
}

#[test]
fn cursor_takes_last_rows_only_before_a_bound() {
    let plan = make_cursor(Page { size: 4, before: Some(9u128), after: None });
    assert_eq!(plan.take, Take::Last(4));
    assert_eq!(plan.before, Some(9));
    let plan = make_cursor(Page { size: 4, before: Some(9u128), after: Some(2u128) });
    assert_eq!(plan.take, Take::First(4));
    let plan = make_cursor(Page::<u128> { size: 6, before: None, after: None });
    assert_eq!(plan.take, Take::First(6));
}

fn listed(ids: &[u128]) -> Vec<tempo::jsonapi::Resource<u8, u128, (), u8, ()>> {
    ids.iter().map(|id| tempo::jsonapi::Resource { resource_type: 0, id: *id, attributes: (), relationships: vec![], meta: None }).collect()
}

fn options(size: u32) -> ArtistOptions {
    QueryOptions {
        includes: vec![ArtistInclude::Images],
        filter: vec![(ArtistFilter::Name, "x".to_string())],
        sort: vec![(ArtistColumn::Name, SortOrder::Asc)],
        page: Page { size, before: None, after: Some(1) },
    }
}

#[test]
fn full_pages_link_to_their_neighbours() {
    let links = links_from_resource(&listed(&[0x10, 0x20]), options(2));
    assert_eq!(links.first.as_deref(), Some("00000000-0000-0000-0000-000000000010"));
    assert_eq!(links.last.as_deref(), Some("00000000-0000-0000-0000-000000000020"));
    let prev = links.prev.unwrap();
    assert_eq!((prev.page.size, prev.page.before, prev.page.after), (2, Some(0x10), None));
    assert_eq!(prev.includes, vec![ArtistInclude::Images]);
    assert_eq!(prev.filter, vec![(ArtistFilter::Name, "x".to_string())]);
    assert_eq!(prev.sort, vec![(ArtistColumn::Name, SortOrder::Asc)]);
    let next = links.next.unwrap();
    assert_eq!((next.page.size, next.page.before, next.page.after), (2, None, Some(0x20)));
    let links = links_from_resource(&listed(&[0x10]), options(2));
    assert!(links.first.is_some() && links.last.is_some() && links.prev.is_none() && links.next.is_none());
    let links = links_from_resource(&listed(&[]), options(0));
    assert!(links.first.is_none() && links.last.is_none() && links.prev.is_none() && links.next.is_none());
}

#[test]
fn pages_larger_than_the_maximum_are_refused() {
    let big = Page { size: 100, before: None, after: None };
    let result = ArtistOptions::from_raw(raw(Some("nope"), None, Some(big)));
    assert!(matches!(result, Err(QueryError::PageTooLarge(100))));
    assert_eq!(QueryError::PageTooLarge(100).status(), 400);
    let largest = Page { size: tempo::jsonapi::MAX_PAGE_SIZE, before: None, after: None };
    assert_eq!(ArtistOptions::from_raw(raw(None, None, Some(largest))).ok().unwrap().page.size, 20);
}

#[test]
fn filters_are_kept_once_per_kind() {
    let mut r = raw(None, None, None);
    r.filter = Some(vec![
        (ArtistFilter::Name, "a".to_string()),
        (ArtistFilter::SortName, "s".to_string()),
        (ArtistFilter::Name, "b".to_string()),
    ]);
    let opts = ArtistOptions::from_raw(r).ok().unwrap();
    assert_eq!(opts.filter, vec![(ArtistFilter::Name, "b".to_string()), (ArtistFilter::SortName, "s".to_string())]);
}

#[test]
fn neighbour_pages_keep_the_options() {
    let opts: ArtistOptions = QueryOptions {
        includes: vec![ArtistInclude::Tracks],
        filter: vec![],
        sort: vec![],
        page: Page { size: 2, before: None, after: Some(5) },
    };
    let prev = opts.prev_page(11);
    assert_eq!(prev.page.before, Some(11));
    assert_eq!(prev.page.after, None);
    assert_eq!(prev.page.size, 2);
    let next = prev.next_page(12);
    assert_eq!(next.page.after, Some(12));
    assert_eq!(next.page.before, None);
    assert_eq!(next.includes, vec![ArtistInclude::Tracks]);
}

#[test]
fn filters_stand_for_columns() {
    assert_eq!(ArtistFilter::SortName.column(), Some(ArtistColumn::SortName));
    assert_eq!(ArtistFilter::Include(ArtistInclude::Images).column(), None);
    assert_eq!(ReleaseFilter::ReleaseMbid.column(), Some(ReleaseColumn::Id));
    assert_eq!(ReleaseFilter::Disctotal.column(), None);
    assert_eq!(ReleaseFilter::ReleaseGroupMbid.column(), Some(ReleaseColumn::ReleaseGroupId));
}

#[test]
fn neighbour_links_are_the_path_and_the_query() {
    assert_eq!(
        tempo::jsonapi::link_text("/tempo/artists", "page[size]=2&page[after]=x"),
        "/tempo/artists?page[size]=2&page[after]=x"
    );
    assert_eq!(tempo::jsonapi::link_text("/a", ""), "/a?");
}
