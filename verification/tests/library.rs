use hacksawdio::errors::JellyfinError;
use hacksawdio::library::{
    access_token_or_unauthorized, album_info_from_details, api_error, first_item,
    new_album_from_item, recents_response, session_from_token,
};
use hacksawdio::models::{Album, ImageTags, JellyfinItem, JellyfinItemsResponse, Track};

fn item(name: &str, id: &str) -> JellyfinItem {
    JellyfinItem {
        name: name.to_string(),
        id: id.to_string(),
        album_artist: None,
        container: None,
        index_number: None,
        image_tags: None,
    }
}

fn album() -> Album {
    Album {
        id: 3,
        jellyfin_id: "j".to_string(),
        title: "Title".to_string(),
        artist: "Artist".to_string(),
        downloaded: true,
        path: Some("/d".to_string()),
        image_id: Some("img".to_string()),
        image_path: Some("/d/cover.jpg".to_string()),
    }
}

fn track(name: &str, path: Option<&str>) -> Track {
    Track {
        id: 1,
        jellyfin_id: "t".to_string(),
        name: name.to_string(),
        album_id: 3,
        path: path.map(|p| p.to_string()),
        downloaded: true,
    }
}

#[test]
fn album_info_of_a_stored_album() {
    let details = Some((album(), vec![track("One", Some("/d/01 - One.flac")), track("Two", None)]));
    let info = album_info_from_details(&details).ok().unwrap();
    assert_eq!(info.name, "Title");
    assert_eq!(info.artist, "Artist");
    assert_eq!(info.image_url, Some("/d/cover.jpg".to_string()));
    assert_eq!(info.tracks.len(), 2);
    assert_eq!(info.tracks[0].name, "One");
    assert_eq!(info.tracks[0].playback_url, "/d/01 - One.flac");
    assert_eq!(info.tracks[1].playback_url, "");
}

#[test]
fn album_info_of_a_missing_album() {
    match album_info_from_details(&None) {
        Err(JellyfinError::ApiError { status, message }) => {
            assert_eq!(status, 404);
            assert_eq!(message, "Album not found");
        }
        _ => panic!("expected not found"),
    }
}

#[test]
fn new_album_from_server_item() {
    let mut it = item("Discovery", "x");
    let row = new_album_from_item("alb", &it);
    assert_eq!(row.jellyfin_id, "alb");
    assert_eq!(row.title, "Discovery");
    assert_eq!(row.artist, "Unknown Artist");
    assert_eq!(row.image_id, None);
    it.album_artist = Some("Daft Punk".to_string());
    it.image_tags = Some(ImageTags { primary: Some("tag1".to_string()) });
    let row = new_album_from_item("alb", &it);
    assert_eq!(row.artist, "Daft Punk");
    assert_eq!(row.image_id, Some("tag1".to_string()));
    it.image_tags = Some(ImageTags { primary: None });
    assert_eq!(new_album_from_item("alb", &it).image_id, None);
}

#[test]
fn session_needs_a_non_empty_token() {
    assert!(session_from_token(Some("abc")).authenticated);
    assert!(!session_from_token(Some("")).authenticated);
    assert!(!session_from_token(None).authenticated);
}

#[test]
fn access_token_or_refusal() {
    assert_eq!(access_token_or_unauthorized(&Some("tok".to_string())), Ok("tok".to_string()));
    assert_eq!(access_token_or_unauthorized(&None), Err("Unauthorized".to_string()));
}

#[test]
fn first_item_or_not_found() {
    let res = JellyfinItemsResponse { total_record_count: 2, start_index: 0, items: vec![item("a", "1"), item("b", "2")] };
    assert_eq!(first_item(&res).ok().unwrap().id, "1");
    let empty = JellyfinItemsResponse { total_record_count: 0, start_index: 0, items: vec![] };
    match first_item(&empty) {
        Err(JellyfinError::ApiError { status, message }) => {
            assert_eq!(status, 404);
            assert_eq!(message, "Item not found");
        }
        _ => panic!("expected not found"),
    }
}

#[test]
fn recents_count_and_offset() {
    let r = recents_response(vec![item("a", "1"), item("b", "2")], Some(20));
    assert_eq!(r.total_record_count, 2);
    assert_eq!(r.start_index, 20);
    assert_eq!(r.items.len(), 2);
    assert_eq!(recents_response(vec![], None).start_index, 0);
}

#[test]
fn api_errors_carry_status_and_body() {
    match api_error(500, Some("boom".to_string()), "No error message") {
        JellyfinError::ApiError { status, message } => {
            assert_eq!(status, 500);
            assert_eq!(message, "boom");
        }
        _ => panic!(),
    }
    match api_error(401, None, "N/A") {
        JellyfinError::ApiError { status, message } => {
            assert_eq!(status, 401);
            assert_eq!(message, "N/A");
        }
        _ => panic!(),
    }
}
