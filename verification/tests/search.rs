use hacksawdio::models::{Album, ImageTags, JellyfinItem, JellyfinItemsResponse};
use hacksawdio::search::{
    add_downloaded_state, artist_ids_to_search, assemble_search_results, combine_jellyfin_items,
    empty_items_response, is_recents_query, item_ids, like_pattern, local_albums_response,
    page_of_items, page_window, sort_items_by_name,
};

fn item(name: &str, id: &str, artist: Option<&str>) -> JellyfinItem {
    JellyfinItem {
        name: name.to_string(),
        id: id.to_string(),
        album_artist: artist.map(|a| a.to_string()),
        container: None,
        index_number: None,
        image_tags: None,
    }
}

fn names(items: &[JellyfinItem]) -> Vec<String> {
    items.iter().map(|i| i.name.clone()).collect()
}

fn album(id: i32, jid: &str, title: &str, artist: &str, path: Option<&str>) -> Album {
    Album {
        id,
        jellyfin_id: jid.to_string(),
        title: title.to_string(),
        artist: artist.to_string(),
        downloaded: false,
        path: path.map(|p| p.to_string()),
        image_id: None,
        image_path: None,
    }
}

#[test]
fn combine_keeps_each_album_once_in_first_order() {
    let a = vec![item("B", "2", None), item("A", "1", None)];
    let b = vec![item("A", "1", None), item("C", "3", None), item("B", "2", None)];
    let r = combine_jellyfin_items(a, b);
    assert_eq!(names(&r), vec!["B", "A", "C"]);
}

#[test]
fn combine_treats_items_differing_in_any_field_as_distinct() {
    let a = vec![item("A", "1", Some("X"))];
    let b = vec![item("A", "1", Some("Y")), item("A", "1", None)];
    let r = combine_jellyfin_items(a, b);
    assert_eq!(r.len(), 3);
    let mut with_tags = item("A", "1", Some("X"));
    with_tags.image_tags = Some(ImageTags { primary: Some("t".to_string()) });
    let r = combine_jellyfin_items(vec![item("A", "1", Some("X"))], vec![with_tags]);
    assert_eq!(r.len(), 2);
}

#[test]
fn sort_by_name_is_stable() {
    let items = vec![
        item("b", "1", None),
        item("a", "2", None),
        item("b", "3", None),
        item("B", "4", None),
        item("a", "5", None),
    ];
    let r = sort_items_by_name(items);
    let ids: Vec<String> = r.iter().map(|i| i.id.clone()).collect();
    assert_eq!(ids, vec!["4", "2", "5", "1", "3"]);
}

#[test]
fn sort_by_name_orders_like_string_comparison() {
    let words = ["zeta", "Äpfel", "apple", "app", "", "Zeta", "éclair", "b"];
    let items: Vec<JellyfinItem> = words.iter().map(|w| item(w, w, None)).collect();
    let r = sort_items_by_name(items);
    let mut expected: Vec<String> = words.iter().map(|w| w.to_string()).collect();
    expected.sort();
    assert_eq!(names(&r), expected);
}

#[test]
fn page_of_items_is_skip_then_take() {
    let items: Vec<JellyfinItem> = (0..5).map(|i| item(&i.to_string(), &i.to_string(), None)).collect();
    assert_eq!(names(&page_of_items(&items, 1, 2)), vec!["1", "2"]);
    assert_eq!(names(&page_of_items(&items, 4, 10)), vec!["4"]);
    assert!(page_of_items(&items, 7, 2).is_empty());
    assert!(page_of_items(&items, 0, 0).is_empty());
}

#[test]
fn consecutive_pages_cover_the_results() {
    let items: Vec<JellyfinItem> = (0..7).map(|i| item(&i.to_string(), &i.to_string(), None)).collect();
    let mut joined = names(&page_of_items(&items, 1, 3));
    joined.extend(names(&page_of_items(&items, 4, 2)));
    assert_eq!(joined, names(&page_of_items(&items, 1, 5)));
}

#[test]
fn assemble_search_results_combines_sorts_and_pages() {
    let by_title = vec![item("Moon", "m", Some("X")), item("Alpha", "a", None)];
    let by_artist = vec![item("Moon", "m", Some("X")), item("Beta", "b", None), item("Zed", "z", None)];
    let r = assemble_search_results(by_title, by_artist, Some(2), Some(1));
    assert_eq!(r.total_record_count, 4);
    assert_eq!(r.start_index, 1);
    assert_eq!(names(&r.items), vec!["Beta", "Moon"]);
}

#[test]
fn assemble_search_results_defaults() {
    let by_title: Vec<JellyfinItem> =
        (0..150).map(|i| item(&format!("{:03}", i), &i.to_string(), None)).collect();
    let r = assemble_search_results(by_title, Vec::new(), None, None);
    assert_eq!(r.total_record_count, 150);
    assert_eq!(r.start_index, 0);
    assert_eq!(r.items.len(), 100);
    assert_eq!(r.items[0].name, "000");
    assert_eq!(r.items[99].name, "099");
}

#[test]
fn downloaded_state_marks_stored_ids_and_defaults_the_artist() {
    let res = JellyfinItemsResponse {
        total_record_count: 9,
        start_index: 3,
        items: vec![item("A", "1", Some("Art")), item("B", "2", None)],
    };
    let r = add_downloaded_state(&res, &vec!["2".to_string(), "7".to_string()]);
    assert_eq!(r.total_record_count, 9);
    assert_eq!(r.start_index, 3);
    assert_eq!(r.items.len(), 2);
    assert_eq!(r.items[0].album_artist, "Art");
    assert!(!r.items[0].downloaded);
    assert_eq!(r.items[1].album_artist, "Unknown Artist");
    assert!(r.items[1].downloaded);
    assert_eq!(r.items[1].id, "2");
    assert_eq!(r.items[1].name, "B");
}

#[test]
fn item_ids_in_order() {
    let res = JellyfinItemsResponse {
        total_record_count: 2,
        start_index: 0,
        items: vec![item("A", "x", None), item("B", "y", None)],
    };
    assert_eq!(item_ids(&res), vec!["x", "y"]);
}

#[test]
fn no_artist_means_no_artist_search() {
    let none = empty_items_response();
    assert_eq!(none.total_record_count, 0);
    assert_eq!(none.start_index, 0);
    assert!(none.items.is_empty());
    assert!(artist_ids_to_search(&none).is_none());
    let some = JellyfinItemsResponse {
        total_record_count: 1,
        start_index: 0,
        items: vec![item("Artist", "ar1", None)],
    };
    assert_eq!(artist_ids_to_search(&some), Some(vec!["ar1".to_string()]));
}

#[test]
fn local_albums_as_search_results() {
    let albums = vec![
        album(1, "j1", "T1", "A1", Some("/music/A1/T1")),
        album(2, "j2", "T2", "A2", None),
    ];
    let r = local_albums_response(albums, None);
    assert_eq!(r.total_record_count, 2);
    assert_eq!(r.start_index, 0);
    assert_eq!(r.items[0].name, "T1");
    assert_eq!(r.items[0].id, "j1");
    assert_eq!(r.items[0].album_artist, "A1");
    assert!(r.items[0].downloaded);
    assert!(!r.items[1].downloaded);
    let r = local_albums_response(Vec::new(), Some(40));
    assert_eq!(r.start_index, 40);
    assert_eq!(r.total_record_count, 0);
}

#[test]
fn empty_search_asks_for_recents() {
    assert!(is_recents_query(""));
    assert!(!is_recents_query(" "));
    assert!(!is_recents_query("abba"));
}

#[test]
fn database_page_window_and_pattern() {
    assert_eq!(page_window(None, None), (100, 0));
    assert_eq!(page_window(Some(5), Some(4_000_000_000)), (5, 4_000_000_000));
    assert_eq!(like_pattern("ab c"), "%ab c%");
    assert_eq!(like_pattern(""), "%%");
}
