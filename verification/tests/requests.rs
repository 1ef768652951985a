use hacksawdio::errors::JellyfinError;
use hacksawdio::requests::{
    album_art_request, auth_request, authenticate_request, authorization_header, download_request,
    item_query, join_with_commas, query_request, recents_query, render_url, search_query,
    tracks_request, url_input_fits, url_outcome, ClientConfig, HttpMethod, UrlQuery, MAX_URL_INPUT,
};

fn config() -> ClientConfig {
    ClientConfig {
        base_url: "http://192.168.1.153:8097".to_string(),
        app_name: "Hacksawdio".to_string(),
        device_name: "Hacksawdio Desktop Client".to_string(),
        device_id: "dev-1".to_string(),
        app_version: "0.0.1".to_string(),
    }
}

fn pairs(p: &[(String, String)]) -> Vec<(&str, &str)> {
    p.iter().map(|(a, b)| (a.as_str(), b.as_str())).collect()
}

#[test]
fn authorization_with_and_without_token() {
    assert_eq!(
        authorization_header(&config(), Some("tok")),
        "MediaBrowser Token=\"tok\", Client=\"Hacksawdio\", Device=\"Hacksawdio Desktop Client\", DeviceId=\"dev-1\", Version=\"0.0.1\""
    );
    assert_eq!(
        authorization_header(&config(), None),
        "MediaBrowser Client=\"Hacksawdio\", Device=\"Hacksawdio Desktop Client\", DeviceId=\"dev-1\", Version=\"0.0.1\""
    );
}

#[test]
fn authenticate_posts_credentials() {
    let plan = authenticate_request(&config());
    assert!(plan.method == HttpMethod::Post);
    assert_eq!(plan.url, "http://192.168.1.153:8097/Users/AuthenticateByName");
    assert!(!plan.authorization.contains("Token="));
    let body = auth_request("me", "secret");
    assert_eq!(body.username, "me");
    assert_eq!(body.pw, "secret");
}

#[test]
fn plain_urls() {
    let t = tracks_request(&config(), "alb", "tok");
    assert!(t.method == HttpMethod::Get);
    assert_eq!(t.url, "http://192.168.1.153:8097/Items?parentId=alb&recursive=true&sortBy=IndexNumber");
    let d = download_request(&config(), "trk", "tok");
    assert_eq!(d.url, "http://192.168.1.153:8097/Items/trk/Download");
    assert!(d.authorization.starts_with("MediaBrowser Token=\"tok\""));
    let a = album_art_request(&config(), "alb", "tag", "tok");
    assert_eq!(a.url, "http://192.168.1.153:8097/Items/alb/Images/Primary?tag=tag");
}

#[test]
fn search_query_defaults_and_options() {
    let q = search_query(None, "MusicAlbum", None, None, None, &None, None);
    assert_eq!(q.path, "/Items");
    assert_eq!(
        pairs(&q.pairs),
        vec![
            ("includeItemTypes", "MusicAlbum"),
            ("recursive", "true"),
            ("limit", "100"),
            ("startIndex", "0"),
            ("sortBy", "Album,AlbumArtist"),
        ]
    );
    let ids = Some(vec!["a1".to_string(), "a2".to_string()]);
    let q = search_query(Some("abba"), "MusicAlbum", Some("SortName"), Some(5), Some(10), &ids, Some("u1"));
    assert_eq!(q.path, "/Users/u1/Items");
    assert_eq!(
        pairs(&q.pairs),
        vec![
            ("includeItemTypes", "MusicAlbum"),
            ("recursive", "true"),
            ("limit", "5"),
            ("startIndex", "10"),
            ("sortBy", "Album,AlbumArtist"),
            ("searchTerm", "abba"),
            ("artistIds", "a1,a2"),
            ("sortBy", "SortName"),
        ]
    );
}

#[test]
fn item_and_recents_queries() {
    let q = item_query("it", None);
    assert_eq!(q.path, "/Items");
    assert_eq!(pairs(&q.pairs), vec![("ids", "it"), ("recursive", "true")]);
    let q = recents_query(Some(3), None, Some("u"));
    assert_eq!(q.path, "/Users/u/Items/Latest");
    assert_eq!(pairs(&q.pairs), vec![("includeItemTypes", "MusicAlbum"), ("limit", "3"), ("startIndex", "0")]);
    let q = recents_query(None, Some(7), None);
    assert_eq!(q.path, "/Items/Latest");
    assert_eq!(pairs(&q.pairs), vec![("includeItemTypes", "MusicAlbum"), ("limit", "100"), ("startIndex", "7")]);
}

#[test]
fn commas_join() {
    assert_eq!(join_with_commas(&vec![]), "");
    assert_eq!(join_with_commas(&vec!["x".to_string()]), "x");
    assert_eq!(join_with_commas(&vec!["x".to_string(), "".to_string(), "z".to_string()]), "x,,z");
}

#[test]
fn rendered_urls_are_encoded() {
    let q = search_query(Some("a b&c"), "MusicAlbum", None, None, None, &None, Some("u 1"));
    let url = render_url("http://host:8097", &q).ok().unwrap();
    assert_eq!(
        url,
        "http://host:8097/Users/u%201/Items?includeItemTypes=MusicAlbum&recursive=true&limit=100&startIndex=0&sortBy=Album%2CAlbumArtist&searchTerm=a+b%26c"
    );
}

#[test]
fn invalid_base_url() {
    let q = item_query("it", None);
    match render_url("not a url", &q) {
        Err(JellyfinError::GenericError(m)) => {
            assert_eq!(m, "Invalid base URL: relative URL without a base");
        }
        _ => panic!("expected an error"),
    }
    let mut cfg = config();
    cfg.base_url = "::".to_string();
    assert!(query_request(&cfg, &q, "tok").is_err());
    let plan = query_request(&config(), &q, "tok").ok().unwrap();
    assert!(plan.method == HttpMethod::Get);
    assert_eq!(plan.url, "http://192.168.1.153:8097/Items?ids=it&recursive=true");
}

#[test]
fn search_request_url_and_header() {
    let cfg = ClientConfig {
        base_url: "http://host:8096".to_string(),
        app_name: "App".to_string(),
        device_name: "Dev".to_string(),
        device_id: "Id1".to_string(),
        app_version: "1.0".to_string(),
    };
    let q = search_query(Some("abc"), "MusicAlbum", None, None, None, &None, None);
    assert!(url_input_fits(&cfg.base_url, &q));
    let plan = query_request(&cfg, &q, "tok").ok().unwrap();
    assert!(plan.method == HttpMethod::Get);
    assert_eq!(
        plan.url,
        "http://host:8096/Items?includeItemTypes=MusicAlbum&recursive=true&limit=100&startIndex=0&sortBy=Album%2CAlbumArtist&searchTerm=abc"
    );
    assert_eq!(
        plan.authorization,
        "MediaBrowser Token=\"tok\", Client=\"App\", Device=\"Dev\", DeviceId=\"Id1\", Version=\"1.0\""
    );
}

#[test]
fn recents_and_item_urls() {
    let q = recents_query(Some(20), Some(40), Some("u9"));
    assert_eq!(
        render_url("http://host:8096", &q).ok().unwrap(),
        "http://host:8096/Users/u9/Items/Latest?includeItemTypes=MusicAlbum&limit=20&startIndex=40"
    );
    let q = item_query("a b", Some("u"));
    assert_eq!(
        render_url("https://music.example.org/old/path?x=1#top", &q).ok().unwrap(),
        "https://music.example.org/Users/u/Items?x=1&ids=a+b&recursive=true#top"
    );
}

#[test]
fn parse_error_message_is_whole() {
    let q = recents_query(None, None, None);
    match render_url("http://[::1", &q) {
        Err(JellyfinError::GenericError(m)) => assert_eq!(m, "Invalid base URL: invalid IPv6 address"),
        _ => panic!("expected an error"),
    }
    match render_url("", &q) {
        Err(JellyfinError::GenericError(m)) => assert_eq!(m, "Invalid base URL: relative URL without a base"),
        _ => panic!("expected an error"),
    }
}

#[test]
fn url_input_limits() {
    let q = item_query("it", None);
    assert!(url_input_fits("http://host", &q));
    let big = "a".repeat(MAX_URL_INPUT as usize);
    assert!(!url_input_fits(&big, &q));
    let exact = UrlQuery { path: String::new(), pairs: vec![] };
    assert!(url_input_fits(&big, &exact));
    let one_pair = UrlQuery { path: String::new(), pairs: vec![("k".to_string(), "v".to_string())] };
    let base = "a".repeat(MAX_URL_INPUT as usize - 4);
    assert!(url_input_fits(&base, &one_pair));
    let base = "a".repeat(MAX_URL_INPUT as usize - 3);
    assert!(!url_input_fits(&base, &one_pair));
}

#[test]
fn url_outcomes() {
    assert_eq!(url_outcome(Ok("http://h/x".to_string())).ok().unwrap(), "http://h/x");
    match url_outcome(Err("empty host".to_string())) {
        Err(JellyfinError::GenericError(m)) => assert_eq!(m, "Invalid base URL: empty host"),
        _ => panic!("expected an error"),
    }
}
