use vstd::prelude::*;

use crate::errors::{ErrorView, JellyfinError};
use crate::models::{strings_view, AuthRequest};
use crate::text::decimal_string;
use crate::text::decimal;

verus! {

/// Whether `url::Url::parse` accepts the text as an absolute URL.
pub uninterp spec fn url_parses(base: Seq<char>) -> bool;

/// The text of the URL that `url::Url` gives for `base` after `set_path` with
/// `path` and `query_pairs_mut().extend_pairs` with `pairs`: the base URL with
/// its path replaced by the percent-encoded path and the pairs appended,
/// form-urlencoded and in their order, to its query.
pub uninterp spec fn url_serialized(
    base: Seq<char>,
    path: Seq<char>,
    pairs: Seq<(Seq<char>, Seq<char>)>,
) -> Seq<char>;

/// The `Display` text of the `url::ParseError` that `url::Url::parse` gives
/// for `base`.
pub uninterp spec fn url_parse_error_text(base: Seq<char>) -> Seq<char>;

/// The most characters that a URL, its path and its query pairs may hold
/// together. Percent-encoding turns a character into at most twelve bytes,
/// and an international host name maps a character to at most eighteen, each
/// written in at most fourteen bytes of punycode; so the URL's text stays below
/// 252 times this many bytes, under the `u32::MAX` bytes past which
/// `url::Url` panics.
pub const MAX_URL_INPUT: u64 = 0x00F0_0000;

/// How many characters the query pairs hold, counting a separator and an
/// equals sign for each pair.
pub open spec fn pairs_size(pairs: Seq<(Seq<char>, Seq<char>)>) -> nat
    decreases pairs.len(),
{
    if pairs.len() == 0 {
        0
    } else {
        pairs_size(pairs.drop_last()) + pairs.last().0.len() + pairs.last().1.len() + 2
    }
}

/// How many characters a base URL, a path and query pairs hold together.
pub open spec fn url_input_size(
    base: Seq<char>,
    path: Seq<char>,
    pairs: Seq<(Seq<char>, Seq<char>)>,
) -> nat {
    base.len() + path.len() + pairs_size(pairs)
}

/// `url::Url::parse` of the base URL, then `set_path`, then
/// `query_pairs_mut().extend_pairs` with the pairs, then `as_str`. The
/// contract claims: it succeeds exactly when the base URL parses, the text is
/// then the one that `url_serialized` names, and the error is the `Display`
/// text of the parse error. Inputs past `MAX_URL_INPUT` are left out, where the
/// crate may panic.
#[verifier::external_body]
fn url_with_query(base: &str, path: &str, pairs: &Vec<(String, String)>) -> (r: Result<
    String,
    String,
>)
    requires
        url_input_size(base@, path@, pairs_view(pairs@)) <= MAX_URL_INPUT,
    ensures
        r is Ok <==> url_parses(base@),
        r matches Ok(s) ==> s@ == url_serialized(base@, path@, pairs_view(pairs@)),
        r matches Err(m) ==> m@ == url_parse_error_text(base@),
{
    match url::Url::parse(base) {
        Ok(mut url) => {
            url.set_path(path);
            url.query_pairs_mut().extend_pairs(pairs.iter());
            Ok(url.as_str().to_string())
        },
        Err(e) => Err(e.to_string()),
    }
}

/// How the client identifies itself to the server.
pub struct ClientConfig {
    pub base_url: String,
    pub app_name: String,
    pub device_name: String,
    pub device_id: String,
    pub app_version: String,
}

/// The HTTP method of a request.
#[derive(PartialEq, Eq, Structural, Clone, Copy)]
pub enum HttpMethod {
    Get,
    Post,
}

/// A request to the server: method, full URL and `Authorization` header.
pub struct RequestPlan {
    pub method: HttpMethod,
    pub url: String,
    pub authorization: String,
}

/// The path and the query pairs of a request URL, before encoding.
pub struct UrlQuery {
    pub path: String,
    pub pairs: Vec<(String, String)>,
}

/// The contents of a list of query pairs.
pub open spec fn pairs_view(pairs: Seq<(String, String)>) -> Seq<(Seq<char>, Seq<char>)> {
    pairs.map_values(|p: (String, String)| (p.0@, p.1@))
}

/// `text` in double quotes.
pub open spec fn quoted(text: Seq<char>) -> Seq<char> {
    seq!['"'] + text + seq!['"']
}

/// The `Authorization` header that identifies the client, with the access
/// token first when there is one.
pub open spec fn authorization(
    token: Option<Seq<char>>,
    app: Seq<char>,
    device: Seq<char>,
    device_id: Seq<char>,
    version: Seq<char>,
) -> Seq<char> {
    let client_part = "Client="@ + quoted(app) + ", Device="@ + quoted(device) + ", DeviceId="@
        + quoted(device_id) + ", Version="@ + quoted(version);
    match token {
        Some(t) => "MediaBrowser Token="@ + quoted(t) + ", "@ + client_part,
        None => "MediaBrowser "@ + client_part,
    }
}

fn append_quoted(s: &mut String, text: &str)
    ensures
        final(s)@ == old(s)@ + quoted(text@),
{
    proof {
        reveal_strlit("\"");
    }
    s.append("\"");
    s.append(text);
    s.append("\"");
    assert(final(s)@ =~= old(s)@ + quoted(text@));
}

/// The `Authorization` header of a request, as [`authorization`] describes it.
pub fn authorization_header(config: &ClientConfig, token: Option<&str>) -> (r: String)
    ensures
        r@ == authorization(
            match token {
                Some(t) => Some(t@),
                None => None,
            },
            config.app_name@,
            config.device_name@,
            config.device_id@,
            config.app_version@,
        ),
{
    let mut s = String::new();
    match token {
        Some(t) => {
            s.append("MediaBrowser Token=");
            append_quoted(&mut s, t);
            s.append(", ");
        },
        None => {
            s.append("MediaBrowser ");
        },
    }
    s.append("Client=");
    append_quoted(&mut s, config.app_name.as_str());
    s.append(", Device=");
    append_quoted(&mut s, config.device_name.as_str());
    s.append(", DeviceId=");
    append_quoted(&mut s, config.device_id.as_str());
    s.append(", Version=");
    append_quoted(&mut s, config.app_version.as_str());
    let ghost client_part = "Client="@ + quoted(config.app_name@) + ", Device="@ + quoted(
        config.device_name@,
    ) + ", DeviceId="@ + quoted(config.device_id@) + ", Version="@ + quoted(config.app_version@);
    proof {
        match token {
            Some(t) => {
                assert(s@ =~= "MediaBrowser Token="@ + quoted(t@) + ", "@ + client_part);
            },
            None => {
                assert(s@ =~= "MediaBrowser "@ + client_part);
            },
        }
    }
    s
}

/// The request that authenticates a user by name: a POST to
/// `{base}/Users/AuthenticateByName`, identified without a token.
pub fn authenticate_request(config: &ClientConfig) -> (r: RequestPlan)
    ensures
        r.method == HttpMethod::Post,
        r.url@ == config.base_url@ + "/Users/AuthenticateByName"@,
        r.authorization@ == authorization(
            None,
            config.app_name@,
            config.device_name@,
            config.device_id@,
            config.app_version@,
        ),
{
    RequestPlan {
        method: HttpMethod::Post,
        url: config.base_url.clone().concat("/Users/AuthenticateByName"),
        authorization: authorization_header(config, None),
    }
}

/// The body of an authentication request.
pub fn auth_request(username: &str, password: &str) -> (r: AuthRequest)
    ensures
        r.username@ == username@,
        r.pw@ == password@,
{
    AuthRequest { username: String::from_str(username), pw: String::from_str(password) }
}

/// The request that lists the tracks of an album, ordered by track number.
pub fn tracks_request(config: &ClientConfig, album_id: &str, token: &str) -> (r: RequestPlan)
    ensures
        r.method == HttpMethod::Get,
        r.url@ == config.base_url@ + "/Items?parentId="@ + album_id@
            + "&recursive=true&sortBy=IndexNumber"@,
        r.authorization@ == authorization(
            Some(token@),
            config.app_name@,
            config.device_name@,
            config.device_id@,
            config.app_version@,
        ),
{
    let url = config.base_url.clone().concat("/Items?parentId=").concat(album_id).concat(
        "&recursive=true&sortBy=IndexNumber",
    );
    RequestPlan {
        method: HttpMethod::Get,
        url,
        authorization: authorization_header(config, Some(token)),
    }
}

/// The request that downloads the file of a track.
pub fn download_request(config: &ClientConfig, track_id: &str, token: &str) -> (r: RequestPlan)
    ensures
        r.method == HttpMethod::Get,
        r.url@ == config.base_url@ + "/Items/"@ + track_id@ + "/Download"@,
        r.authorization@ == authorization(
            Some(token@),
            config.app_name@,
            config.device_name@,
            config.device_id@,
            config.app_version@,
        ),
{
    let url = config.base_url.clone().concat("/Items/").concat(track_id).concat("/Download");
    RequestPlan {
        method: HttpMethod::Get,
        url,
        authorization: authorization_header(config, Some(token)),
    }
}

/// The request that downloads the primary image of an album with the given
/// image tag.
pub fn album_art_request(config: &ClientConfig, album_id: &str, image_id: &str, token: &str) -> (r:
    RequestPlan)
    ensures
        r.method == HttpMethod::Get,
        r.url@ == config.base_url@ + "/Items/"@ + album_id@ + "/Images/Primary?tag="@ + image_id@,
        r.authorization@ == authorization(
            Some(token@),
            config.app_name@,
            config.device_name@,
            config.device_id@,
            config.app_version@,
        ),
{
    let url = config.base_url.clone().concat("/Items/").concat(album_id).concat(
        "/Images/Primary?tag=",
    ).concat(image_id);
    RequestPlan {
        method: HttpMethod::Get,
        url,
        authorization: authorization_header(config, Some(token)),
    }
}

fn pair(name: &str, value: &str) -> (r: (String, String))
    ensures
        r.0@ == name@,
        r.1@ == value@,
{
    (String::from_str(name), String::from_str(value))
}

fn push_pair(pairs: &mut Vec<(String, String)>, name: &str, value: &str)
    ensures
        pairs_view(final(pairs)@) == pairs_view(old(pairs)@).push((name@, value@)),
{
    pairs.push(pair(name, value));
    assert(pairs_view(final(pairs)@) =~= pairs_view(old(pairs)@).push((name@, value@)));
}

/// The items path of the server, below a user's library when a user is named.
pub open spec fn items_path(user_id: Option<Seq<char>>) -> Seq<char> {
    match user_id {
        Some(u) => "/Users/"@ + u + "/Items"@,
        None => "/Items"@,
    }
}

fn items_path_string(user_id: Option<&str>) -> (r: String)
    ensures
        r@ == items_path(
            match user_id {
                Some(u) => Some(u@),
                None => None,
            },
        ),
{
    match user_id {
        Some(u) => String::from_str("/Users/").concat(u).concat("/Items"),
        None => String::from_str("/Items"),
    }
}

/// The elements of `list` joined by `sep`.
pub open spec fn joined(list: Seq<Seq<char>>, sep: Seq<char>) -> Seq<char>
    decreases list.len(),
{
    if list.len() == 0 {
        Seq::empty()
    } else if list.len() == 1 {
        list[0]
    } else {
        joined(list.drop_last(), sep) + sep + list.last()
    }
}

/// The strings joined by commas, as `join(",")` joins them.
pub fn join_with_commas(list: &Vec<String>) -> (r: String)
    ensures
        r@ == joined(strings_view(list@), ","@),
{
    let mut r = String::new();
    let n = list.len();
    let mut i: usize = 0;
    while i < n
        invariant
            n == list@.len(),
            i <= n,
            r@ == joined(strings_view(list@).take(i as int), ","@),
        decreases n - i,
    {
        assert(strings_view(list@).take(i + 1).drop_last() =~= strings_view(list@).take(i as int));
        if i > 0 {
            r.append(",");
        }
        r.append(list[i].as_str());
        i = i + 1;
    }
    assert(strings_view(list@).take(n as int) =~= strings_view(list@));
    r
}

/// The query of a library search: the item types, a recursive search, the
/// limit (default 100) and start index (default 0), sorting by album and album
/// artist, then the search term, the artist ids joined by commas and a further
/// sort key where they are given.
pub open spec fn search_pairs(
    search: Option<Seq<char>>,
    item_types: Seq<char>,
    sort_by: Option<Seq<char>>,
    limit: u32,
    offset: u32,
    artist_ids: Option<Seq<Seq<char>>>,
) -> Seq<(Seq<char>, Seq<char>)> {
    let base = seq![
        ("includeItemTypes"@, item_types),
        ("recursive"@, "true"@),
        ("limit"@, decimal(limit as nat)),
        ("startIndex"@, decimal(offset as nat)),
        ("sortBy"@, "Album,AlbumArtist"@),
    ];
    let with_search = match search {
        Some(s) => base.push(("searchTerm"@, s)),
        None => base,
    };
    let with_artists = match artist_ids {
        Some(ids) => with_search.push(("artistIds"@, joined(ids, ","@))),
        None => with_search,
    };
    match sort_by {
        Some(s) => with_artists.push(("sortBy"@, s)),
        None => with_artists,
    }
}

/// A search asks the server for what it was given: the item types, with a
/// search term exactly when one is given, and the given artists, their ids
/// joined by commas, whether or not a search term is given.
pub proof fn lemma_search_pairs_carry_the_filters(
    search: Option<Seq<char>>,
    item_types: Seq<char>,
    sort_by: Option<Seq<char>>,
    limit: u32,
    offset: u32,
    artist_ids: Option<Seq<Seq<char>>>,
)
    ensures
        ({
            let pairs = search_pairs(search, item_types, sort_by, limit, offset, artist_ids);
            &&& pairs.contains(("includeItemTypes"@, item_types))
            &&& search matches Some(s) ==> pairs.contains(("searchTerm"@, s))
            &&& artist_ids matches Some(ids) ==> pairs.contains(("artistIds"@, joined(ids, ","@)))
            &&& search is None ==> forall|k: int|
                0 <= k < pairs.len() ==> (#[trigger] pairs[k]).0 != "searchTerm"@
            &&& artist_ids is None ==> forall|k: int|
                0 <= k < pairs.len() ==> (#[trigger] pairs[k]).0 != "artistIds"@
        }),
{
    let pairs = search_pairs(search, item_types, sort_by, limit, offset, artist_ids);
    reveal_strlit("includeItemTypes");
    reveal_strlit("recursive");
    reveal_strlit("limit");
    reveal_strlit("startIndex");
    reveal_strlit("sortBy");
    reveal_strlit("searchTerm");
    reveal_strlit("artistIds");
    let names = seq!["includeItemTypes"@, "recursive"@, "limit"@, "startIndex"@, "sortBy"@];
    assert forall|k: int| 0 <= k < names.len() implies names[k] != "searchTerm"@ && names[k]
        != "artistIds"@ by {
        if k == 0 {
            assert(names[k].len() != 10 && names[k].len() != 9);
        } else if k == 1 {
            assert(names[k][0] != "artistIds"@[0]);
            assert(names[k].len() != 10);
        } else if k == 2 {
            assert(names[k].len() != 10 && names[k].len() != 9);
        } else if k == 3 {
            assert(names[k][1] != "searchTerm"@[1]);
            assert(names[k].len() != 9);
        } else {
            assert(names[k].len() != 10 && names[k].len() != 9);
        }
    }
    assert("searchTerm"@ != "artistIds"@) by {
        assert("searchTerm"@.len() != "artistIds"@.len());
    }
    assert("sortBy"@ == names[4]);
    assert forall|k: int| 0 <= k < 5 implies #[trigger] pairs[k].0 == names[k] by {}
    assert(pairs[0] == ("includeItemTypes"@, item_types));
    if let Some(s) = search {
        assert(pairs[5] == ("searchTerm"@, s));
    }
    if let Some(ids) = artist_ids {
        let k: int = if search is Some {
            6
        } else {
            5
        };
        assert(pairs[k] == ("artistIds"@, joined(ids, ","@)));
    }
}

/// The path and query of a library search.
pub fn search_query(
    search: Option<&str>,
    item_types: &str,
    sort_by: Option<&str>,
    limit: Option<u32>,
    offset: Option<u32>,
    artist_ids: &Option<Vec<String>>,
    user_id: Option<&str>,
) -> (r: UrlQuery)
    ensures
        r.path@ == items_path(
            match user_id {
                Some(u) => Some(u@),
                None => None,
            },
        ),
        pairs_view(r.pairs@) == search_pairs(
            match search {
                Some(s) => Some(s@),
                None => None,
            },
            item_types@,
            match sort_by {
                Some(s) => Some(s@),
                None => None,
            },
            match limit {
                Some(l) => l,
                None => 100,
            },
            match offset {
                Some(o) => o,
                None => 0,
            },
            match artist_ids {
                Some(ids) => Some(strings_view(ids@)),
                None => None,
            },
        ),
{
    let limit = match limit {
        Some(l) => l,
        None => 100,
    };
    let offset = match offset {
        Some(o) => o,
        None => 0,
    };
    let mut pairs: Vec<(String, String)> = Vec::new();
    push_pair(&mut pairs, "includeItemTypes", item_types);
    push_pair(&mut pairs, "recursive", "true");
    let limit_text = decimal_string(limit as u64);
    push_pair(&mut pairs, "limit", limit_text.as_str());
    let offset_text = decimal_string(offset as u64);
    push_pair(&mut pairs, "startIndex", offset_text.as_str());
    push_pair(&mut pairs, "sortBy", "Album,AlbumArtist");
    let ghost base = pairs_view(pairs@);
    assert(base =~= seq![
        ("includeItemTypes"@, item_types@),
        ("recursive"@, "true"@),
        ("limit"@, decimal(limit as nat)),
        ("startIndex"@, decimal(offset as nat)),
        ("sortBy"@, "Album,AlbumArtist"@),
    ]);
    match search {
        Some(s) => push_pair(&mut pairs, "searchTerm", s),
        None => {},
    }
    match artist_ids {
        Some(ids) => {
            let joined_ids = join_with_commas(ids);
            push_pair(&mut pairs, "artistIds", joined_ids.as_str());
        },
        None => {},
    }
    match sort_by {
        Some(s) => push_pair(&mut pairs, "sortBy", s),
        None => {},
    }
    UrlQuery { path: items_path_string(user_id), pairs }
}

/// The path and query that fetch one item by its id.
pub fn item_query(item_id: &str, user_id: Option<&str>) -> (r: UrlQuery)
    ensures
        r.path@ == items_path(
            match user_id {
                Some(u) => Some(u@),
                None => None,
            },
        ),
        pairs_view(r.pairs@) == seq![("ids"@, item_id@), ("recursive"@, "true"@)],
{
    let mut pairs: Vec<(String, String)> = Vec::new();
    push_pair(&mut pairs, "ids", item_id);
    push_pair(&mut pairs, "recursive", "true");
    assert(pairs_view(pairs@) =~= seq![("ids"@, item_id@), ("recursive"@, "true"@)]);
    UrlQuery { path: items_path_string(user_id), pairs }
}

/// The path of the most recent items, below a user's library when a user is
/// named.
pub open spec fn latest_path(user_id: Option<Seq<char>>) -> Seq<char> {
    items_path(user_id) + "/Latest"@
}

/// The path and query that list the most recently added albums, with the
/// limit (default 100) and start index (default 0).
pub fn recents_query(limit: Option<u32>, offset: Option<u32>, user_id: Option<&str>) -> (r:
    UrlQuery)
    ensures
        r.path@ == latest_path(
            match user_id {
                Some(u) => Some(u@),
                None => None,
            },
        ),
        pairs_view(r.pairs@) == seq![
            ("includeItemTypes"@, "MusicAlbum"@),
            ("limit"@, decimal(
                match limit {
                    Some(l) => l,
                    None => 100u32,
                } as nat,
            )),
            ("startIndex"@, decimal(
                match offset {
                    Some(o) => o,
                    None => 0u32,
                } as nat,
            )),
        ],
{
    let limit = match limit {
        Some(l) => l,
        None => 100,
    };
    let offset = match offset {
        Some(o) => o,
        None => 0,
    };
    let mut pairs: Vec<(String, String)> = Vec::new();
    push_pair(&mut pairs, "includeItemTypes", "MusicAlbum");
    let limit_text = decimal_string(limit as u64);
    push_pair(&mut pairs, "limit", limit_text.as_str());
    let offset_text = decimal_string(offset as u64);
    push_pair(&mut pairs, "startIndex", offset_text.as_str());
    assert(pairs_view(pairs@) =~= seq![
        ("includeItemTypes"@, "MusicAlbum"@),
        ("limit"@, decimal(limit as nat)),
        ("startIndex"@, decimal(offset as nat)),
    ]);
    let path = items_path_string(user_id).concat("/Latest");
    UrlQuery { path, pairs }
}

/// Whether a base URL and a query are small enough for [`render_url`]: at most
/// [`MAX_URL_INPUT`] characters together.
pub fn url_input_fits(base_url: &str, query: &UrlQuery) -> (r: bool)
    ensures
        r == (url_input_size(base_url@, query.path@, pairs_view(query.pairs@)) <= MAX_URL_INPUT),
{
    let ghost pairs = pairs_view(query.pairs@);
    let base_len = base_url.unicode_len() as u64;
    let path_len = query.path.as_str().unicode_len() as u64;
    if base_len > MAX_URL_INPUT || path_len > MAX_URL_INPUT - base_len {
        return false;
    }
    let mut total: u64 = base_len + path_len;
    let n = query.pairs.len();
    let mut i: usize = 0;
    while i < n
        invariant
            n == query.pairs@.len(),
            pairs == pairs_view(query.pairs@),
            i <= n,
            total == base_url@.len() + query.path@.len() + pairs_size(pairs.take(i as int)),
            total <= MAX_URL_INPUT,
        decreases n - i,
    {
        let (name, value) = &query.pairs[i];
        let name_len = name.as_str().unicode_len() as u64;
        let value_len = value.as_str().unicode_len() as u64;
        assert(pairs.take(i + 1).drop_last() =~= pairs.take(i as int));
        assert(pairs.take(i + 1).last() == pairs[i as int]);
        if name_len > MAX_URL_INPUT || value_len > MAX_URL_INPUT || name_len + value_len + 2
            > MAX_URL_INPUT - total {
            proof {
                lemma_pairs_size_grows(pairs, i as nat + 1);
            }
            return false;
        }
        total = total + name_len + value_len + 2;
        i = i + 1;
    }
    assert(pairs.take(n as int) =~= pairs);
    true
}

/// The size of the first pairs never exceeds that of more pairs.
proof fn lemma_pairs_size_grows(pairs: Seq<(Seq<char>, Seq<char>)>, k: nat)
    requires
        k <= pairs.len(),
    ensures
        pairs_size(pairs.take(k as int)) <= pairs_size(pairs),
    decreases pairs.len() - k,
{
    if k < pairs.len() {
        lemma_pairs_size_grows(pairs, (k + 1) as nat);
        assert(pairs.take(k + 1 as int).drop_last() =~= pairs.take(k as int));
    } else {
        assert(pairs.take(k as int) =~= pairs);
    }
}

/// The full URL of a query below the server's base URL, encoded by the `url`
/// library: the text that `url_serialized` names when the base URL parses, and
/// otherwise the error "Invalid base URL: " followed by the parse error.
pub fn render_url(base_url: &str, query: &UrlQuery) -> (r: Result<String, JellyfinError>)
    requires
        url_input_size(base_url@, query.path@, pairs_view(query.pairs@)) <= MAX_URL_INPUT,
    ensures
        r is Ok <==> url_parses(base_url@),
        r matches Ok(s) ==> s@ == url_serialized(
            base_url@,
            query.path@,
            pairs_view(query.pairs@),
        ),
        r matches Err(e) ==> e@ == ErrorView::GenericError(
            "Invalid base URL: "@ + url_parse_error_text(base_url@),
        ),
{
    url_outcome(url_with_query(base_url, query.path.as_str(), &query.pairs))
}

/// What a URL built by the `url` library comes to: its text, or, when the base
/// URL did not parse, the error "Invalid base URL: " followed by the parse
/// error's text.
pub fn url_outcome(built: Result<String, String>) -> (r: Result<String, JellyfinError>)
    ensures
        built matches Ok(s) ==> (r matches Ok(t) && t@ == s@),
        built matches Err(m) ==> (r matches Err(e) && e@ == ErrorView::GenericError(
            "Invalid base URL: "@ + m@,
        )),
{
    match built {
        Ok(url) => Ok(url),
        Err(text) => {
            let message = String::from_str("Invalid base URL: ").concat(text.as_str());
            Err(JellyfinError::GenericError(message))
        },
    }
}

/// A GET request for a query below the server's base URL, with the access
/// token: the URL is the one [`render_url`] gives, and so is the error when
/// the base URL does not parse.
pub fn query_request(config: &ClientConfig, query: &UrlQuery, token: &str) -> (r: Result<
    RequestPlan,
    JellyfinError,
>)
    requires
        url_input_size(config.base_url@, query.path@, pairs_view(query.pairs@)) <= MAX_URL_INPUT,
    ensures
        r is Ok <==> url_parses(config.base_url@),
        r matches Err(e) ==> e@ == ErrorView::GenericError(
            "Invalid base URL: "@ + url_parse_error_text(config.base_url@),
        ),
        r matches Ok(plan) ==> plan.method == HttpMethod::Get && plan.url@ == url_serialized(
            config.base_url@,
            query.path@,
            pairs_view(query.pairs@),
        ) && plan.authorization@ == authorization(
            Some(token@),
            config.app_name@,
            config.device_name@,
            config.device_id@,
            config.app_version@,
        ),
{
    match render_url(config.base_url.as_str(), query) {
        Ok(url) => Ok(
            RequestPlan {
                method: HttpMethod::Get,
                url,
                authorization: authorization_header(config, Some(token)),
            },
        ),
        Err(e) => Err(e),
    }
}

} // verus!
