use vstd::prelude::*;

use crate::text::{opt_str_eq, opt_string_clone, opt_view};

verus! {

/// Credentials sent to the server's authenticate-by-name endpoint.
pub struct AuthRequest {
    pub username: String,
    pub pw: String,
}

/// The server's answer to a successful authentication.
pub struct AuthResponse {
    pub access_token: String,
    pub server_id: String,
    pub user: UserDetails,
}

/// The user an access token belongs to.
pub struct UserDetails {
    pub id: String,
    pub name: String,
    pub primary_image_tag: Option<String>,
}

/// Whether a stored access token makes the session authenticated.
pub struct SessionResponse {
    pub authenticated: bool,
}

/// A page of items as the server lists them.
pub struct JellyfinItemsResponse {
    pub total_record_count: u32,
    pub start_index: u32,
    pub items: Vec<JellyfinItem>,
}

/// Image tags of an item; `primary` names the cover image.
pub struct ImageTags {
    pub primary: Option<String>,
}

/// One item of the server's library: an album, an artist or a track.
pub struct JellyfinItem {
    pub name: String,
    pub id: String,
    pub album_artist: Option<String>,
    pub container: Option<String>,
    pub index_number: Option<u32>,
    pub image_tags: Option<ImageTags>,
}

/// A page of album search results, as the client's user interface shows it.
pub struct AlbumSearchResponse {
    pub total_record_count: u32,
    pub start_index: u32,
    pub items: Vec<AlbumSearchResponseItem>,
}

/// One album of a search result, with whether it is stored locally.
pub struct AlbumSearchResponseItem {
    pub name: String,
    pub id: String,
    pub album_artist: String,
    pub downloaded: bool,
}

/// A locally stored album with its playable tracks.
pub struct AlbumInfoResponse {
    pub name: String,
    pub artist: String,
    pub tracks: Vec<AlbumTrackResponse>,
    pub image_url: Option<String>,
}

/// One playable track of a local album.
pub struct AlbumTrackResponse {
    pub name: String,
    pub playback_url: String,
}

/// An album row of the local database.
pub struct Album {
    pub id: i32,
    pub jellyfin_id: String,
    pub title: String,
    pub artist: String,
    pub downloaded: bool,
    pub path: Option<String>,
    pub image_id: Option<String>,
    pub image_path: Option<String>,
}

/// The values of a new album row.
pub struct NewAlbum {
    pub jellyfin_id: String,
    pub title: String,
    pub artist: String,
    pub image_id: Option<String>,
}

/// A track row of the local database.
pub struct Track {
    pub id: i32,
    pub jellyfin_id: String,
    pub name: String,
    pub album_id: i32,
    pub path: Option<String>,
    pub downloaded: bool,
}

/// The values of a new track row.
pub struct NewTrack {
    pub jellyfin_id: String,
    pub name: String,
    pub album_id: i32,
    pub path: Option<String>,
    pub track_index: i32,
}

/// The contents of a [`JellyfinItem`].
pub struct ItemView {
    pub name: Seq<char>,
    pub id: Seq<char>,
    pub album_artist: Option<Seq<char>>,
    pub container: Option<Seq<char>>,
    pub index_number: Option<u32>,
    pub primary_image: Option<Option<Seq<char>>>,
}

impl View for JellyfinItem {
    type V = ItemView;

    open spec fn view(&self) -> ItemView {
        ItemView {
            name: self.name@,
            id: self.id@,
            album_artist: opt_view(self.album_artist),
            container: opt_view(self.container),
            index_number: self.index_number,
            primary_image: match self.image_tags {
                Some(t) => Some(opt_view(t.primary)),
                None => None,
            },
        }
    }
}

/// The contents of an [`AlbumSearchResponseItem`].
pub struct SearchItemView {
    pub name: Seq<char>,
    pub id: Seq<char>,
    pub album_artist: Seq<char>,
    pub downloaded: bool,
}

impl View for AlbumSearchResponseItem {
    type V = SearchItemView;

    open spec fn view(&self) -> SearchItemView {
        SearchItemView {
            name: self.name@,
            id: self.id@,
            album_artist: self.album_artist@,
            downloaded: self.downloaded,
        }
    }
}

/// The contents of an [`Album`].
pub struct AlbumView {
    pub id: i32,
    pub jellyfin_id: Seq<char>,
    pub title: Seq<char>,
    pub artist: Seq<char>,
    pub downloaded: bool,
    pub path: Option<Seq<char>>,
    pub image_id: Option<Seq<char>>,
    pub image_path: Option<Seq<char>>,
}

impl View for Album {
    type V = AlbumView;

    open spec fn view(&self) -> AlbumView {
        AlbumView {
            id: self.id,
            jellyfin_id: self.jellyfin_id@,
            title: self.title@,
            artist: self.artist@,
            downloaded: self.downloaded,
            path: opt_view(self.path),
            image_id: opt_view(self.image_id),
            image_path: opt_view(self.image_path),
        }
    }
}

/// The contents of a [`NewAlbum`].
pub struct NewAlbumView {
    pub jellyfin_id: Seq<char>,
    pub title: Seq<char>,
    pub artist: Seq<char>,
    pub image_id: Option<Seq<char>>,
}

impl View for NewAlbum {
    type V = NewAlbumView;

    open spec fn view(&self) -> NewAlbumView {
        NewAlbumView {
            jellyfin_id: self.jellyfin_id@,
            title: self.title@,
            artist: self.artist@,
            image_id: opt_view(self.image_id),
        }
    }
}

/// The contents of a [`Track`].
pub struct TrackView {
    pub id: i32,
    pub jellyfin_id: Seq<char>,
    pub name: Seq<char>,
    pub album_id: i32,
    pub path: Option<Seq<char>>,
    pub downloaded: bool,
}

impl View for Track {
    type V = TrackView;

    open spec fn view(&self) -> TrackView {
        TrackView {
            id: self.id,
            jellyfin_id: self.jellyfin_id@,
            name: self.name@,
            album_id: self.album_id,
            path: opt_view(self.path),
            downloaded: self.downloaded,
        }
    }
}

/// The contents of a [`NewTrack`].
pub struct NewTrackView {
    pub jellyfin_id: Seq<char>,
    pub name: Seq<char>,
    pub album_id: i32,
    pub path: Option<Seq<char>>,
    pub track_index: i32,
}

impl View for NewTrack {
    type V = NewTrackView;

    open spec fn view(&self) -> NewTrackView {
        NewTrackView {
            jellyfin_id: self.jellyfin_id@,
            name: self.name@,
            album_id: self.album_id,
            path: opt_view(self.path),
            track_index: self.track_index,
        }
    }
}

/// The contents of an [`AlbumTrackResponse`].
pub struct TrackResponseView {
    pub name: Seq<char>,
    pub playback_url: Seq<char>,
}

impl View for AlbumTrackResponse {
    type V = TrackResponseView;

    open spec fn view(&self) -> TrackResponseView {
        TrackResponseView { name: self.name@, playback_url: self.playback_url@ }
    }
}

/// The contents of a sequence of items.
pub open spec fn items_view(s: Seq<JellyfinItem>) -> Seq<ItemView> {
    s.map_values(|i: JellyfinItem| i@)
}

/// The contents of a sequence of search result items.
pub open spec fn search_items_view(s: Seq<AlbumSearchResponseItem>) -> Seq<SearchItemView> {
    s.map_values(|i: AlbumSearchResponseItem| i@)
}

/// The contents of a sequence of strings.
pub open spec fn strings_view(s: Seq<String>) -> Seq<Seq<char>> {
    s.map_values(|i: String| i@)
}

impl JellyfinItem {
    /// A copy of the item with the same contents.
    pub fn duplicate(&self) -> (r: JellyfinItem)
        ensures
            r@ == self@,
    {
        JellyfinItem {
            name: self.name.clone(),
            id: self.id.clone(),
            album_artist: opt_string_clone(&self.album_artist),
            container: opt_string_clone(&self.container),
            index_number: self.index_number,
            image_tags: match &self.image_tags {
                Some(t) => Some(ImageTags { primary: opt_string_clone(&t.primary) }),
                None => None,
            },
        }
    }

    /// Whether two items hold the same values in every field.
    pub fn same_as(&self, other: &JellyfinItem) -> (r: bool)
        ensures
            r == (self@ == other@),
    {
        let tags_eq = match (&self.image_tags, &other.image_tags) {
            (Some(a), Some(b)) => opt_str_eq(&a.primary, &b.primary),
            (None, None) => true,
            _ => false,
        };
        let index_eq = match (self.index_number, other.index_number) {
            (Some(a), Some(b)) => a == b,
            (None, None) => true,
            _ => false,
        };
        self.name == other.name && self.id == other.id && opt_str_eq(
            &self.album_artist,
            &other.album_artist,
        ) && opt_str_eq(&self.container, &other.container) && index_eq && tags_eq
    }
}

} // verus!
