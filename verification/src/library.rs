use vstd::prelude::*;

use crate::errors::{not_found, ErrorView, JellyfinError, NOT_FOUND};
use crate::models::{
    items_view, Album, AlbumInfoResponse, AlbumTrackResponse, ItemView, JellyfinItem,
    JellyfinItemsResponse, NewAlbum, NewAlbumView, SessionResponse, Track, TrackResponseView,
    TrackView,
};
use crate::search::{or_default, unknown_artist};
use crate::text::{opt_string_clone, opt_view};

verus! {

/// A local track as a playable track: its name and its file, or the empty
/// string when it has none.
pub open spec fn track_response(t: TrackView) -> TrackResponseView {
    TrackResponseView {
        name: t.name,
        playback_url: match t.path {
            Some(p) => p,
            None => Seq::empty(),
        },
    }
}

/// A track is played from its stored file whenever it has one, whatever its
/// other fields (whether it is marked downloaded among them); without a file
/// its playback URL is empty. Its name is kept.
pub proof fn lemma_playback_url_is_the_path(t: TrackView)
    ensures
        track_response(t).name == t.name,
        t.path matches Some(p) ==> track_response(t).playback_url == p,
        t.path is None ==> track_response(t).playback_url == Seq::<char>::empty(),
        forall|u: TrackView|
            u.path == t.path && u.name == t.name ==> #[trigger] track_response(u) == track_response(
                t,
            ),
{
}

/// The details of a local album as its name, artist, cover and playable tracks.
pub fn album_info_response(album: &Album, tracks: &Vec<Track>) -> (r: AlbumInfoResponse)
    ensures
        r.name@ == album.title@,
        r.artist@ == album.artist@,
        opt_view(r.image_url) == opt_view(album.image_path),
        r.tracks@.map_values(|t: AlbumTrackResponse| t@) == tracks@.map_values(
            |t: Track| track_response(t@),
        ),
        r.tracks@.len() == tracks@.len(),
        forall|k: int|
            0 <= k < tracks@.len() ==> (#[trigger] r.tracks@[k]).name@ == tracks@[k].name@ && (
            tracks@[k].path matches Some(p) ==> r.tracks@[k].playback_url@ == p@) && (
            tracks@[k].path is None ==> r.tracks@[k].playback_url@ == Seq::<char>::empty()),
{
    let mut out: Vec<AlbumTrackResponse> = Vec::new();
    let n = tracks.len();
    let mut i: usize = 0;
    while i < n
        invariant
            n == tracks@.len(),
            i <= n,
            out@.map_values(|t: AlbumTrackResponse| t@) =~= tracks@.map_values(
                |t: Track| track_response(t@),
            ).take(i as int),
        decreases n - i,
    {
        let t = &tracks[i];
        let playback_url = match &t.path {
            Some(p) => p.clone(),
            None => String::new(),
        };
        let ghost before = out@;
        out.push(AlbumTrackResponse { name: t.name.clone(), playback_url });
        assert(out@.map_values(|t: AlbumTrackResponse| t@) =~= before.map_values(
            |t: AlbumTrackResponse| t@,
        ).push(track_response(t@)));
        i = i + 1;
    }
    assert(tracks@.map_values(|t: Track| track_response(t@)).take(n as int) =~= tracks@.map_values(
        |t: Track| track_response(t@),
    ));
    proof {
        assert forall|k: int| 0 <= k < tracks@.len() implies (#[trigger] out@[k]).name@
            == tracks@[k].name@ && (tracks@[k].path matches Some(p) ==> out@[k].playback_url@
            == p@) && (tracks@[k].path is None ==> out@[k].playback_url@ == Seq::<char>::empty()) by {
            assert(out@.map_values(|t: AlbumTrackResponse| t@)[k] == out@[k]@);
            lemma_playback_url_is_the_path(tracks@[k]@);
        }
    }
    AlbumInfoResponse {
        name: album.title.clone(),
        artist: album.artist.clone(),
        tracks: out,
        image_url: opt_string_clone(&album.image_path),
    }
}

/// The album information for what the database found under an album id: the
/// album and its tracks, or the error that the album does not exist.
pub fn album_info_from_details(details: &Option<(Album, Vec<Track>)>) -> (r: Result<
    AlbumInfoResponse,
    JellyfinError,
>)
    ensures
        details is None <==> r is Err,
        r matches Err(e) ==> e@ == not_found("Album not found"@),
        r matches Ok(info) ==> ({
            let (album, tracks) = details->0;
            &&& info.name@ == album.title@
            &&& info.artist@ == album.artist@
            &&& opt_view(info.image_url) == opt_view(album.image_path)
            &&& info.tracks@.map_values(|t: AlbumTrackResponse| t@) == tracks@.map_values(
                |t: Track| track_response(t@),
            )
        }),
{
    match details {
        Some((album, tracks)) => Ok(album_info_response(album, tracks)),
        None => Err(
            JellyfinError::ApiError {
                status: NOT_FOUND,
                message: String::from_str("Album not found"),
            },
        ),
    }
}

/// The album row that a server item is stored as: its title, its artist
/// ("Unknown Artist" where it names none) and the tag of its primary image.
pub open spec fn new_album(album_id: Seq<char>, item: ItemView) -> NewAlbumView {
    NewAlbumView {
        jellyfin_id: album_id,
        title: item.name,
        artist: match item.album_artist {
            Some(a) => a,
            None => unknown_artist(),
        },
        image_id: match item.primary_image {
            Some(p) => p,
            None => None,
        },
    }
}

/// The album row to create for a server album that is not stored yet.
pub fn new_album_from_item(album_id: &str, item: &JellyfinItem) -> (r: NewAlbum)
    ensures
        r@ == new_album(album_id@, item@),
{
    let artist = match &item.album_artist {
        Some(a) => a.clone(),
        None => {
            proof {
                reveal_strlit("Unknown Artist");
            }
            String::from_str("Unknown Artist")
        },
    };
    let image_id = match &item.image_tags {
        Some(tags) => opt_string_clone(&tags.primary),
        None => None,
    };
    NewAlbum {
        jellyfin_id: String::from_str(album_id),
        title: item.name.clone(),
        artist,
        image_id,
    }
}

/// A session is authenticated when a non-empty access token is stored.
pub fn session_from_token(token: Option<&str>) -> (r: SessionResponse)
    ensures
        r.authenticated == (token matches Some(t) && t@.len() > 0),
{
    let authenticated = match token {
        Some(t) => !t.is_empty(),
        None => false,
    };
    SessionResponse { authenticated }
}

/// The access token, or the refusal `"Unauthorized"` when there is none.
pub fn access_token_or_unauthorized(token: &Option<String>) -> (r: Result<String, String>)
    ensures
        token is Some <==> r is Ok,
        r matches Ok(t) ==> t@ == token->0@,
        r matches Err(m) ==> m@ == "Unauthorized"@,
{
    match token {
        Some(t) => Ok(t.clone()),
        None => Err(String::from_str("Unauthorized")),
    }
}

/// The first item of a response, or the error that the item does not exist.
pub fn first_item(resp: &JellyfinItemsResponse) -> (r: Result<JellyfinItem, JellyfinError>)
    ensures
        resp.items@.len() == 0 <==> r is Err,
        r matches Ok(item) ==> item@ == resp.items@[0]@,
        r matches Err(e) ==> e@ == not_found("Item not found"@),
{
    if resp.items.len() == 0 {
        Err(JellyfinError::ApiError { status: NOT_FOUND, message: String::from_str("Item not found") })
    } else {
        Ok(resp.items[0].duplicate())
    }
}

/// The most recent albums as a response: all of them, their number as the
/// total and the requested offset (default 0) as the start index.
pub fn recents_response(items: Vec<JellyfinItem>, offset: Option<u32>) -> (r:
    JellyfinItemsResponse)
    ensures
        r.total_record_count == items@.len() as u32,
        r.start_index == or_default(offset, 0),
        items_view(r.items@) == items_view(items@),
{
    let n = items.len();
    let start_index = match offset {
        Some(o) => o,
        None => 0,
    };
    JellyfinItemsResponse { total_record_count: n as u32, start_index, items }
}

/// The error for an unsuccessful response: its status and body, or
/// `fallback` when the body could not be read.
pub fn api_error(status: u16, body: Option<String>, fallback: &str) -> (r: JellyfinError)
    ensures
        r@ == (ErrorView::ApiError {
            status,
            message: match opt_view(body) {
                Some(b) => b,
                None => fallback@,
            },
        }),
{
    let message = match body {
        Some(b) => b,
        None => String::from_str(fallback),
    };
    JellyfinError::ApiError { status, message }
}

} // verus!
