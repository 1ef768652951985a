use hacksawdio::models::JellyfinItem;
use hacksawdio::naming::{album_dir_path, generate_track_name, track_file_name_from_clean};
use hacksawdio::text::{decimal_string, str_eq, str_lt, zero_padded};

fn track(name: &str, index: Option<u32>, container: Option<&str>) -> JellyfinItem {
    JellyfinItem {
        name: name.to_string(),
        id: "t".to_string(),
        album_artist: None,
        container: container.map(|c| c.to_string()),
        index_number: index,
        image_tags: None,
    }
}

#[test]
fn track_name_pads_to_the_width_of_the_track_count() {
    assert_eq!(generate_track_name(&track("Intro", Some(1), Some("flac")), 12), "01 - Intro.flac");
    assert_eq!(generate_track_name(&track("Intro", Some(7), Some("mp3")), 150), "007 - Intro.mp3");
    assert_eq!(generate_track_name(&track("Intro", Some(3), None), 5), "3 - Intro");
}

#[test]
fn track_name_with_no_tracks_uses_two_digits() {
    assert_eq!(generate_track_name(&track("X", Some(4), Some("ogg")), 0), "04 - X.ogg");
}

#[test]
fn track_name_without_number_is_zero() {
    assert_eq!(generate_track_name(&track("X", None, Some("ogg")), 10), "00 - X.ogg");
}

#[test]
fn track_name_keeps_long_numbers() {
    assert_eq!(generate_track_name(&track("X", Some(1234), None), 9), "1234 - X");
}

#[test]
fn track_name_is_sanitized() {
    assert_eq!(generate_track_name(&track("AC/DC: Back?", Some(2), Some("flac")), 10), "02 - ACDC Back.flac");
    let name = generate_track_name(&track("a\u{1}b|c*d\"e<f>g\\h", Some(1), None), 1);
    assert_eq!(name, "1 - abcdefgh");
}

#[test]
fn track_name_from_clean_name() {
    assert_eq!(track_file_name_from_clean(Some(9), 10, "Song", &Some("m4a".to_string())), "09 - Song.m4a");
    assert_eq!(track_file_name_from_clean(Some(10), 10, "", &None), "10 - ");
}

#[test]
fn track_file_names_follow_track_order() {
    let total = 120usize;
    let mut names: Vec<String> = (0..=120u32)
        .map(|i| track_file_name_from_clean(Some(i), total, if i % 2 == 0 { "zzz" } else { "aaa" }, &None))
        .collect();
    let original = names.clone();
    names.sort();
    assert_eq!(names, original);
    assert!(str_lt(&original[9], &original[10]));
}

#[test]
fn album_dir_below_data_dir() {
    assert_eq!(album_dir_path("/data/app", "Daft Punk", "Discovery"), "/data/app/downloads/Daft Punk/Discovery");
    assert_eq!(album_dir_path("/data/app/", "AC/DC", "Back: In Black"), "/data/app/downloads/ACDC/Back In Black");
    assert_eq!(album_dir_path("", "A", "B"), "downloads/A/B");
}

#[test]
fn album_dirs_join_like_path_join() {
    for (dir, artist, title) in [("a", "b", "c"), ("a/", "b", "c"), ("", "b", "c"), ("/", "x", "y"), ("d", "A", "??")] {
        let expected = std::path::Path::new(dir).join("downloads").join(artist).join(title.replace('?', ""));
        assert_eq!(album_dir_path(dir, artist, title), expected.to_string_lossy().to_string());
    }
    assert_eq!(album_dir_path("/d", "A", "?"), "/d/downloads/A/");
}

#[test]
fn decimal_and_padding() {
    assert_eq!(decimal_string(0), "0");
    assert_eq!(decimal_string(907), "907");
    assert_eq!(decimal_string(u64::MAX), u64::MAX.to_string());
    assert_eq!(zero_padded("7".to_string(), 3), "007");
    assert_eq!(zero_padded("1234".to_string(), 2), "1234");
    for n in [0u64, 5, 42, 999, 1000] {
        assert_eq!(zero_padded(decimal_string(n), 4), format!("{:04}", n));
    }
}

#[test]
fn string_comparisons() {
    assert!(str_eq("héllo", "héllo"));
    assert!(!str_eq("a", "ab"));
    assert!(str_lt("a", "ab"));
    assert!(str_lt("", "a"));
    assert!(!str_lt("a", "a"));
    assert!(str_lt("Z", "a"));
    assert!(!str_lt("é", "z"));
}

#[test]
fn plain_track_names_are_kept() {
    assert_eq!(generate_track_name(&track("Hello World (Live)", Some(3), Some("mp3")), 12), "03 - Hello World (Live).mp3");
    assert_eq!(generate_track_name(&track("Été à Paris", Some(1), None), 9), "1 - Été à Paris");
    assert_eq!(generate_track_name(&track("Console", Some(4), None), 4), "4 - Console");
}

#[test]
fn sanitizing_only_deletes() {
    let name = generate_track_name(&track("..", Some(1), None), 1);
    assert_eq!(name, "1 - ");
    let long = "x".repeat(300);
    let name = generate_track_name(&track(&long, Some(1), None), 1);
    assert_eq!(name, format!("1 - {}", "x".repeat(255)));
    assert_eq!(album_dir_path("/d", "Artist", "Title:Part"), "/d/downloads/Artist/TitlePart");
}

#[test]
fn sanitizing_elsewhere_keeps_windows_names() {
    assert_eq!(generate_track_name(&track("CON", Some(1), None), 1), "1 - CON");
    assert_eq!(generate_track_name(&track("end. ", Some(1), None), 1), "1 - end. ");
    assert_eq!(generate_track_name(&track(".:.", Some(1), None), 1), "1 - ");
    let wide = "é".repeat(200);
    let name = generate_track_name(&track(&wide, Some(1), None), 1);
    assert_eq!(name, format!("1 - {}", "é".repeat(127)));
}
