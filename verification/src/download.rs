use vstd::prelude::*;

use crate::library::{new_album, new_album_from_item};
use crate::models::{
    items_view, AlbumView, ItemView, JellyfinItem, JellyfinItemsResponse, NewAlbum,
    NewAlbumView, NewTrack, NewTrackView,
};
use crate::naming::{
    generate_track_name, lemma_sanitized_facts, plain_file_name, sanitized_from, track_file_name,
};
use crate::text::{join_path, joined, lemma_unix_join_is_joined, opt_string_clone, opt_view, path_join};

verus! {

/// An album that the user asked to download.
pub struct Album {
    pub album_id: String,
    pub user_id: String,
}

/// A message of the download queue.
pub enum DownloadQueueMessage {
    NewAlbum(Album),
    Shutdown,
}

/// Where an album download stands.
#[derive(PartialEq, Eq, Structural, Clone, Copy)]
pub enum DownloadStep {
    /// Looking the album up in the local database.
    FindingAlbum,
    /// Fetching the album's details from the server.
    FetchingItem,
    /// Storing the album in the local database.
    CreatingAlbum,
    /// Creating the album's directory.
    CreatingDir,
    /// Downloading the cover image.
    FetchingArt,
    /// Fetching the album's track list.
    FetchingTracks,
    /// Storing the track with this position in the track list.
    InsertingTrack(usize),
    /// Downloading the track with this position in the track list.
    DownloadingTrack(usize),
    /// Marking the album as downloaded.
    MarkingDownloaded,
    /// The album is stored locally.
    Completed,
    /// The download stopped at an error.
    Failed,
}

/// The state of one album download.
pub struct DownloadJob {
    pub album_id: String,
    pub user_id: String,
    pub token: String,
    pub step: DownloadStep,
    pub local_album: Option<crate::models::Album>,
    pub dir: Option<String>,
    pub image_path: Option<String>,
    pub tracks: Vec<JellyfinItem>,
    pub track_path: Option<String>,
}

/// What happened to the last action of a download.
pub enum DownloadEvent {
    AlbumLookedUp(Option<crate::models::Album>),
    ItemFetched(JellyfinItem),
    AlbumCreated(crate::models::Album),
    DirCreated(String),
    ArtDownloaded,
    TracksFetched(JellyfinItemsResponse),
    TrackInserted,
    TrackDownloaded,
    MarkedDownloaded,
    /// The action failed, with the error's message.
    Failed(String),
}

/// What the download asks its runner to do, in order.
pub enum DownloadAction {
    /// Announce that the album's download started.
    AnnounceStarted { album_id: String },
    /// Look the album up in the local database.
    FindAlbum { album_id: String },
    /// Fetch the album's details from the server.
    FetchItem { item_id: String, token: String, user_id: String },
    /// Store the album in the local database.
    CreateAlbum(NewAlbum),
    /// Create the directory of an album by this artist with this title.
    CreateDir { artist: String, title: String },
    /// Download the album's cover image to `path`.
    DownloadArt { album_id: String, image_id: String, path: String, token: String },
    /// Fetch the album's track list.
    FetchTracks { album_id: String, token: String },
    /// Store a track in the local database.
    InsertTrack(NewTrack),
    /// Download a track's file to `path`.
    DownloadTrack { track_id: String, path: String, token: String },
    /// Mark the album as downloaded to `dir`, with its cover image.
    MarkDownloaded { album_id: String, dir: String, image_path: Option<String> },
    /// Announce that the album's download completed.
    AnnounceCompleted { album_id: String },
    /// Report an error to the log.
    ReportError { message: String },
}

/// The contents of a [`DownloadJob`].
pub struct JobView {
    pub album_id: Seq<char>,
    pub user_id: Seq<char>,
    pub token: Seq<char>,
    pub step: DownloadStep,
    pub local_album: Option<AlbumView>,
    pub dir: Option<Seq<char>>,
    pub image_path: Option<Seq<char>>,
    pub tracks: Seq<ItemView>,
    pub track_path: Option<Seq<char>>,
}

impl View for DownloadJob {
    type V = JobView;

    open spec fn view(&self) -> JobView {
        JobView {
            album_id: self.album_id@,
            user_id: self.user_id@,
            token: self.token@,
            step: self.step,
            local_album: match self.local_album {
                Some(a) => Some(a@),
                None => None,
            },
            dir: opt_view(self.dir),
            image_path: opt_view(self.image_path),
            tracks: items_view(self.tracks@),
            track_path: opt_view(self.track_path),
        }
    }
}

/// The contents of a [`DownloadEvent`].
pub enum EventView {
    AlbumLookedUp(Option<AlbumView>),
    ItemFetched(ItemView),
    AlbumCreated(AlbumView),
    DirCreated(Seq<char>),
    ArtDownloaded,
    TracksFetched(Seq<ItemView>),
    TrackInserted,
    TrackDownloaded,
    MarkedDownloaded,
    Failed(Seq<char>),
}

impl View for DownloadEvent {
    type V = EventView;

    open spec fn view(&self) -> EventView {
        match self {
            DownloadEvent::AlbumLookedUp(a) => EventView::AlbumLookedUp(
                match a {
                    Some(x) => Some(x@),
                    None => None,
                },
            ),
            DownloadEvent::ItemFetched(i) => EventView::ItemFetched(i@),
            DownloadEvent::AlbumCreated(a) => EventView::AlbumCreated(a@),
            DownloadEvent::DirCreated(d) => EventView::DirCreated(d@),
            DownloadEvent::ArtDownloaded => EventView::ArtDownloaded,
            DownloadEvent::TracksFetched(r) => EventView::TracksFetched(items_view(r.items@)),
            DownloadEvent::TrackInserted => EventView::TrackInserted,
            DownloadEvent::TrackDownloaded => EventView::TrackDownloaded,
            DownloadEvent::MarkedDownloaded => EventView::MarkedDownloaded,
            DownloadEvent::Failed(m) => EventView::Failed(m@),
        }
    }
}

/// The contents of a [`DownloadAction`].
pub enum ActionView {
    AnnounceStarted { album_id: Seq<char> },
    FindAlbum { album_id: Seq<char> },
    FetchItem { item_id: Seq<char>, token: Seq<char>, user_id: Seq<char> },
    CreateAlbum(NewAlbumView),
    CreateDir { artist: Seq<char>, title: Seq<char> },
    DownloadArt { album_id: Seq<char>, image_id: Seq<char>, path: Seq<char>, token: Seq<char> },
    FetchTracks { album_id: Seq<char>, token: Seq<char> },
    InsertTrack(NewTrackView),
    DownloadTrack { track_id: Seq<char>, path: Seq<char>, token: Seq<char> },
    MarkDownloaded { album_id: Seq<char>, dir: Seq<char>, image_path: Option<Seq<char>> },
    AnnounceCompleted { album_id: Seq<char> },
    ReportError { message: Seq<char> },
}

impl View for DownloadAction {
    type V = ActionView;

    open spec fn view(&self) -> ActionView {
        match self {
            DownloadAction::AnnounceStarted { album_id } => ActionView::AnnounceStarted {
                album_id: album_id@,
            },
            DownloadAction::FindAlbum { album_id } => ActionView::FindAlbum { album_id: album_id@ },
            DownloadAction::FetchItem { item_id, token, user_id } => ActionView::FetchItem {
                item_id: item_id@,
                token: token@,
                user_id: user_id@,
            },
            DownloadAction::CreateAlbum(a) => ActionView::CreateAlbum(a@),
            DownloadAction::CreateDir { artist, title } => ActionView::CreateDir {
                artist: artist@,
                title: title@,
            },
            DownloadAction::DownloadArt { album_id, image_id, path, token } =>
                ActionView::DownloadArt {
                album_id: album_id@,
                image_id: image_id@,
                path: path@,
                token: token@,
            },
            DownloadAction::FetchTracks { album_id, token } => ActionView::FetchTracks {
                album_id: album_id@,
                token: token@,
            },
            DownloadAction::InsertTrack(t) => ActionView::InsertTrack(t@),
            DownloadAction::DownloadTrack { track_id, path, token } => ActionView::DownloadTrack {
                track_id: track_id@,
                path: path@,
                token: token@,
            },
            DownloadAction::MarkDownloaded { album_id, dir, image_path } =>
                ActionView::MarkDownloaded {
                album_id: album_id@,
                dir: dir@,
                image_path: opt_view(*image_path),
            },
            DownloadAction::AnnounceCompleted { album_id } => ActionView::AnnounceCompleted {
                album_id: album_id@,
            },
            DownloadAction::ReportError { message } => ActionView::ReportError {
                message: message@,
            },
        }
    }
}

/// The contents of a list of actions.
pub open spec fn actions_view(s: Seq<DownloadAction>) -> Seq<ActionView> {
    s.map_values(|a: DownloadAction| a@)
}

/// The log message of a download that failed.
pub open spec fn failure_message(album_id: Seq<char>, error: Seq<char>) -> Seq<char> {
    "Error downloading album "@ + album_id + ": "@ + error
}

/// The log message when no access token is available for a download.
pub open spec fn no_token_message() -> Seq<char> {
    "Download failed: No auth token available."@
}

/// Whether the download has ended, one way or the other.
pub open spec fn is_terminal(step: DownloadStep) -> bool {
    step == DownloadStep::Completed || step == DownloadStep::Failed
}

/// The start of an album's download: with an access token it is announced and
/// the album is looked up locally; without one an error is reported and
/// nothing else happens.
pub open spec fn download_start(album_id: Seq<char>, user_id: Seq<char>, token: Option<Seq<char>>) -> (
    Option<JobView>,
    Seq<ActionView>,
) {
    match token {
        Some(t) => (
            Some(
                JobView {
                    album_id,
                    user_id,
                    token: t,
                    step: DownloadStep::FindingAlbum,
                    local_album: None,
                    dir: None,
                    image_path: None,
                    tracks: Seq::empty(),
                    track_path: None,
                },
            ),
            seq![
                ActionView::AnnounceStarted { album_id },
                ActionView::FindAlbum { album_id },
            ],
        ),
        None => (None, seq![ActionView::ReportError { message: no_token_message() }]),
    }
}

/// Once the album is known locally: an album that already has a path is
/// complete, any other gets its directory created.
pub open spec fn after_album_known(j: JobView, a: AlbumView) -> (JobView, Seq<ActionView>) {
    if a.path is Some {
        (
            JobView { step: DownloadStep::Completed, local_album: Some(a), ..j },
            seq![ActionView::AnnounceCompleted { album_id: j.album_id }],
        )
    } else {
        (
            JobView { step: DownloadStep::CreatingDir, local_album: Some(a), ..j },
            seq![ActionView::CreateDir { artist: a.artist, title: a.title }],
        )
    }
}

/// The request to fetch the album's track list.
pub open spec fn fetch_tracks(j: JobView) -> ActionView {
    ActionView::FetchTracks { album_id: j.album_id, token: j.token }
}

/// Moving on to the track at position `i`: it is stored with `path`, the path
/// of its file; past the last track the album is marked as downloaded.
pub open spec fn next_track(j: JobView, i: nat, path: Seq<char>) -> (JobView, Seq<ActionView>) {
    if i < j.tracks.len() {
        let t = j.tracks[i as int];
        (
            JobView { step: DownloadStep::InsertingTrack(i as usize), track_path: Some(path), ..j },
            seq![
                ActionView::InsertTrack(
                    NewTrackView {
                        jellyfin_id: t.id,
                        name: t.name,
                        album_id: j.local_album->0.id,
                        path: Some(path),
                        track_index: (match t.index_number {
                            Some(n) => n,
                            None => 0u32,
                        }) as i32,
                    },
                ),
            ],
        )
    } else {
        (
            JobView { step: DownloadStep::MarkingDownloaded, ..j },
            seq![
                ActionView::MarkDownloaded {
                    album_id: j.album_id,
                    dir: j.dir->0,
                    image_path: j.image_path,
                },
            ],
        )
    }
}

/// The track whose file the transition names, if it moves on to one.
pub open spec fn named_track(j: JobView, e: EventView) -> Option<nat> {
    match (j.step, e) {
        (DownloadStep::FetchingTracks, EventView::TracksFetched(items)) => if 0 < items.len()
            && j.local_album is Some && j.dir is Some && !is_terminal(j.step) {
            Some(0)
        } else {
            None
        },
        (DownloadStep::DownloadingTrack(i), EventView::TrackDownloaded) => if i + 1 < j.tracks.len()
            && j.local_album is Some && j.dir is Some {
            Some((i + 1) as nat)
        } else {
            None
        },
        _ => None,
    }
}

/// The name that the transition sanitizes, if it names a track's file.
pub open spec fn name_to_sanitize(j: JobView, e: EventView) -> Seq<char> {
    match named_track(j, e) {
        Some(i) => match e {
            EventView::TracksFetched(items) => items[i as int].name,
            _ => j.tracks[i as int].name,
        },
        None => Seq::empty(),
    }
}

/// The directory and the name that a step joins into the path it names: the
/// file of a track, named from `clean`, its sanitized name, in the album's
/// directory; or the cover in the directory that was created; nothing for
/// other events.
pub open spec fn path_parts(j: JobView, e: EventView, clean: Seq<char>) -> (Seq<char>, Seq<char>) {
    match named_track(j, e) {
        Some(i) => {
            let tracks = match e {
                EventView::TracksFetched(items) => items,
                _ => j.tracks,
            };
            let t = tracks[i as int];
            (j.dir->0, track_file_name(t.index_number, tracks.len(), clean, t.container))
        },
        None => match e {
            EventView::DirCreated(d) => (d, "cover.jpg"@),
            _ => (Seq::empty(), Seq::empty()),
        },
    }
}

/// `path` is a path that the step may name: its parts joined as `Path::join`
/// joins them, with `clean` a sanitizing of the track's name.
pub open spec fn names_path(j: JobView, e: EventView, clean: Seq<char>, path: Seq<char>) -> bool {
    &&& sanitized_from(clean, name_to_sanitize(j, e))
    &&& joined(path, path_parts(j, e, clean).0, path_parts(j, e, clean).1)
}

/// One step of an album download: the next state and the actions to perform,
/// on the event that the last action produced. `path` is the path that the
/// step names, if it names one (see [`names_path`]). Terminal states stay as
/// they are; an event that the state does not wait for changes nothing; a
/// failure ends the download with its error reported.
pub open spec fn download_transition(j: JobView, e: EventView, path: Seq<char>) -> (
    JobView,
    Seq<ActionView>,
) {
    if is_terminal(j.step) {
        (j, Seq::empty())
    } else {
        match (j.step, e) {
            (_, EventView::Failed(m)) => (
                JobView { step: DownloadStep::Failed, ..j },
                seq![ActionView::ReportError { message: failure_message(j.album_id, m) }],
            ),
            (DownloadStep::FindingAlbum, EventView::AlbumLookedUp(Some(a))) => after_album_known(
                j,
                a,
            ),
            (DownloadStep::FindingAlbum, EventView::AlbumLookedUp(None)) => (
                JobView { step: DownloadStep::FetchingItem, ..j },
                seq![
                    ActionView::FetchItem {
                        item_id: j.album_id,
                        token: j.token,
                        user_id: j.user_id,
                    },
                ],
            ),
            (DownloadStep::FetchingItem, EventView::ItemFetched(item)) => (
                JobView { step: DownloadStep::CreatingAlbum, ..j },
                seq![ActionView::CreateAlbum(new_album(j.album_id, item))],
            ),
            (DownloadStep::CreatingAlbum, EventView::AlbumCreated(a)) => after_album_known(j, a),
            (DownloadStep::CreatingDir, EventView::DirCreated(d)) => if j.local_album is None {
                (j, Seq::empty())
            } else {
                let a = j.local_album->0;
                match a.image_id {
                    Some(image_id) => {
                        (
                            JobView {
                                step: DownloadStep::FetchingArt,
                                dir: Some(d),
                                image_path: Some(path),
                                ..j
                            },
                            seq![
                                ActionView::DownloadArt {
                                    album_id: a.jellyfin_id,
                                    image_id,
                                    path,
                                    token: j.token,
                                },
                            ],
                        )
                    },
                    None => (
                        JobView {
                            step: DownloadStep::FetchingTracks,
                            dir: Some(d),
                            image_path: None,
                            ..j
                        },
                        seq![fetch_tracks(j)],
                    ),
                }
            },
            (DownloadStep::FetchingArt, EventView::ArtDownloaded) => (
                JobView { step: DownloadStep::FetchingTracks, ..j },
                seq![fetch_tracks(j)],
            ),
            (DownloadStep::FetchingTracks, EventView::TracksFetched(items)) => if j.local_album is Some
                && j.dir is Some {
                next_track(JobView { tracks: items, ..j }, 0, path)
            } else {
                (j, Seq::empty())
            },
            (DownloadStep::InsertingTrack(i), EventView::TrackInserted) => if i < j.tracks.len()
                && j.track_path is Some {
                (
                    JobView { step: DownloadStep::DownloadingTrack(i), ..j },
                    seq![
                        ActionView::DownloadTrack {
                            track_id: j.tracks[i as int].id,
                            path: j.track_path->0,
                            token: j.token,
                        },
                    ],
                )
            } else {
                (j, Seq::empty())
            },
            (DownloadStep::DownloadingTrack(i), EventView::TrackDownloaded) => if i < j.tracks.len()
                && j.local_album is Some && j.dir is Some {
                next_track(j, (i + 1) as nat, path)
            } else {
                (j, Seq::empty())
            },
            (DownloadStep::MarkingDownloaded, EventView::MarkedDownloaded) => (
                JobView { step: DownloadStep::Completed, ..j },
                seq![ActionView::AnnounceCompleted { album_id: j.album_id }],
            ),
            _ => (j, Seq::empty()),
        }
    }
}

/// The path of the track at position `i` joins the album's directory and the
/// track's file name, named from `clean`, a sanitizing of the track's name;
/// past the last track there is nothing to name.
pub open spec fn track_named(j: JobView, i: nat, clean: Seq<char>, path: Seq<char>) -> bool {
    if i < j.tracks.len() {
        let t = j.tracks[i as int];
        &&& sanitized_from(clean, t.name)
        &&& joined(path, j.dir->0, track_file_name(t.index_number, j.tracks.len(), clean, t.container))
    } else {
        clean == Seq::<char>::empty() && path == Seq::<char>::empty()
    }
}

/// What the state of a download always holds: once the album is known it stays
/// known (also when the download completes), once its directory exists it stays
/// known, and a track that is being stored or downloaded exists and has its
/// file path.
pub open spec fn job_wf(j: JobView) -> bool {
    &&& (match j.step {
        DownloadStep::FindingAlbum | DownloadStep::FetchingItem | DownloadStep::CreatingAlbum
        | DownloadStep::Failed => true,
        _ => j.local_album is Some,
    })
    &&& (match j.step {
        DownloadStep::FetchingArt | DownloadStep::FetchingTracks | DownloadStep::InsertingTrack(_)
        | DownloadStep::DownloadingTrack(_) | DownloadStep::MarkingDownloaded => j.dir is Some,
        _ => true,
    })
    &&& (j.step == DownloadStep::FetchingArt ==> j.image_path is Some)
    &&& (match j.step {
        DownloadStep::InsertingTrack(i) | DownloadStep::DownloadingTrack(i) => i < j.tracks.len()
            && j.track_path is Some,
        _ => true,
    })
}

fn failure_message_string(album_id: &String, error: &String) -> (r: String)
    ensures
        r@ == failure_message(album_id@, error@),
{
    String::from_str("Error downloading album ").concat(album_id.as_str()).concat(": ").concat(
        error.as_str(),
    )
}

/// Starts an album's download with the access token at hand, as
/// [`download_start`] describes it.
pub fn start_download(album: Album, token: Option<String>) -> (r: (
    Option<DownloadJob>,
    Vec<DownloadAction>,
))
    ensures
        (match r.0 {
            Some(j) => Some(j@),
            None => None,
        }, actions_view(r.1@)) == download_start(album.album_id@, album.user_id@, opt_view(token)),
        r.0 matches Some(j) ==> job_wf(j@),
{
    match token {
        Some(t) => {
            let mut actions: Vec<DownloadAction> = Vec::new();
            actions.push(DownloadAction::AnnounceStarted { album_id: album.album_id.clone() });
            actions.push(DownloadAction::FindAlbum { album_id: album.album_id.clone() });
            let job = DownloadJob {
                album_id: album.album_id,
                user_id: album.user_id,
                token: t,
                step: DownloadStep::FindingAlbum,
                local_album: None,
                dir: None,
                image_path: None,
                tracks: Vec::new(),
                track_path: None,
            };
            assert(actions_view(actions@) =~= seq![
                ActionView::AnnounceStarted { album_id: album.album_id@ },
                ActionView::FindAlbum { album_id: album.album_id@ },
            ]);
            assert(items_view(job.tracks@) =~= Seq::<ItemView>::empty());
            (Some(job), actions)
        },
        None => {
            let mut actions: Vec<DownloadAction> = Vec::new();
            actions.push(
                DownloadAction::ReportError {
                    message: String::from_str("Download failed: No auth token available."),
                },
            );
            assert(actions_view(actions@) =~= seq![
                ActionView::ReportError { message: no_token_message() },
            ]);
            (None, actions)
        },
    }
}

fn single(a: DownloadAction) -> (r: Vec<DownloadAction>)
    ensures
        actions_view(r@) == seq![a@],
{
    let mut v: Vec<DownloadAction> = Vec::new();
    v.push(a);
    assert(actions_view(v@) =~= seq![a@]);
    v
}

impl DownloadJob {
    fn after_album_known(self, a: crate::models::Album) -> (r: (DownloadJob, Vec<DownloadAction>))
        ensures
            (r.0@, actions_view(r.1@)) == after_album_known(self@, a@),
    {
        if a.path.is_some() {
            let actions = single(DownloadAction::AnnounceCompleted { album_id: self.album_id.clone() });
            (DownloadJob { step: DownloadStep::Completed, local_album: Some(a), ..self }, actions)
        } else {
            let actions = single(
                DownloadAction::CreateDir { artist: a.artist.clone(), title: a.title.clone() },
            );
            (DownloadJob { step: DownloadStep::CreatingDir, local_album: Some(a), ..self }, actions)
        }
    }

    fn next_track(self, i: usize) -> (r: (DownloadJob, Vec<DownloadAction>))
        requires
            self.local_album is Some,
            self.dir is Some,
        ensures
            exists|clean: Seq<char>, path: Seq<char>|
                #[trigger] track_named(self@, i as nat, clean, path) && (r.0@, actions_view(r.1@))
                    == next_track(self@, i as nat, path),
    {
        let n = self.tracks.len();
        if i < n {
            let name = generate_track_name(&self.tracks[i], n);
            let ghost clean = choose|clean: Seq<char>|
                sanitized_from(clean, self.tracks@[i as int].name@) && name@ == track_file_name(
                    self.tracks@[i as int].index_number,
                    n as nat,
                    clean,
                    opt_view(self.tracks@[i as int].container),
                );
            let path = match &self.dir {
                Some(d) => path_join(d.as_str(), name.as_str()),
                None => String::new(),
            };
            let t = &self.tracks[i];
            let album_row = match &self.local_album {
                Some(a) => a.id,
                None => 0,
            };
            let index: u32 = match t.index_number {
                Some(x) => x,
                None => 0,
            };
            let insert = NewTrack {
                jellyfin_id: t.id.clone(),
                name: t.name.clone(),
                album_id: album_row,
                path: Some(path.clone()),
                track_index: index as i32,
            };
            let actions = single(DownloadAction::InsertTrack(insert));
            let job = DownloadJob {
                step: DownloadStep::InsertingTrack(i),
                track_path: Some(path),
                ..self
            };
            assert(track_named(self@, i as nat, clean, path@));
            assert((job@, actions_view(actions@)) == next_track(self@, i as nat, path@));
            (job, actions)
        } else {
            let dir = match &self.dir {
                Some(d) => d.clone(),
                None => String::new(),
            };
            let actions = single(
                DownloadAction::MarkDownloaded {
                    album_id: self.album_id.clone(),
                    dir,
                    image_path: opt_string_clone(&self.image_path),
                },
            );
            let job = DownloadJob { step: DownloadStep::MarkingDownloaded, ..self };
            assert(track_named(self@, i as nat, Seq::empty(), Seq::empty()));
            assert((job@, actions_view(actions@)) == next_track(self@, i as nat, Seq::empty()));
            (job, actions)
        }
    }

    fn unchanged(self) -> (r: (DownloadJob, Vec<DownloadAction>))
        ensures
            r.0@ == self@,
            actions_view(r.1@) == Seq::<ActionView>::empty(),
    {
        let actions: Vec<DownloadAction> = Vec::new();
        assert(actions_view(actions@) =~= Seq::<ActionView>::empty());
        (self, actions)
    }

    fn on_failure(self, m: String) -> (r: (DownloadJob, Vec<DownloadAction>))
        requires
            !is_terminal(self.step),
        ensures
            (r.0@, actions_view(r.1@)) == download_transition(
                self@,
                EventView::Failed(m@),
                Seq::empty(),
            ),
    {
        let message = failure_message_string(&self.album_id, &m);
        let actions = single(DownloadAction::ReportError { message });
        (DownloadJob { step: DownloadStep::Failed, ..self }, actions)
    }

    fn on_album_looked_up(self, found: Option<crate::models::Album>) -> (r: (
        DownloadJob,
        Vec<DownloadAction>,
    ))
        requires
            !is_terminal(self.step),
        ensures
            (r.0@, actions_view(r.1@)) == download_transition(
                self@,
                EventView::AlbumLookedUp(
                    match found {
                        Some(a) => Some(a@),
                        None => None,
                    },
                ),
                Seq::empty(),
            ),
    {
        if self.step != DownloadStep::FindingAlbum {
            return self.unchanged();
        }
        match found {
            Some(a) => self.after_album_known(a),
            None => {
                let actions = single(
                    DownloadAction::FetchItem {
                        item_id: self.album_id.clone(),
                        token: self.token.clone(),
                        user_id: self.user_id.clone(),
                    },
                );
                (DownloadJob { step: DownloadStep::FetchingItem, ..self }, actions)
            },
        }
    }

    fn on_item_fetched(self, item: JellyfinItem) -> (r: (DownloadJob, Vec<DownloadAction>))
        requires
            !is_terminal(self.step),
        ensures
            (r.0@, actions_view(r.1@)) == download_transition(
                self@,
                EventView::ItemFetched(item@),
                Seq::empty(),
            ),
    {
        if self.step != DownloadStep::FetchingItem {
            return self.unchanged();
        }
        let row = new_album_from_item(self.album_id.as_str(), &item);
        let actions = single(DownloadAction::CreateAlbum(row));
        (DownloadJob { step: DownloadStep::CreatingAlbum, ..self }, actions)
    }

    fn on_album_created(self, a: crate::models::Album) -> (r: (DownloadJob, Vec<DownloadAction>))
        requires
            !is_terminal(self.step),
        ensures
            (r.0@, actions_view(r.1@)) == download_transition(
                self@,
                EventView::AlbumCreated(a@),
                Seq::empty(),
            ),
    {
        if self.step != DownloadStep::CreatingAlbum {
            return self.unchanged();
        }
        self.after_album_known(a)
    }

    fn on_dir_created(self, d: String) -> (r: (DownloadJob, Vec<DownloadAction>))
        requires
            !is_terminal(self.step),
        ensures
            exists|path: Seq<char>|
                #[trigger] joined(path, d@, "cover.jpg"@) && (r.0@, actions_view(r.1@))
                    == download_transition(self@, EventView::DirCreated(d@), path),
    {
        let ghost unix_cover = join_path(d@, "cover.jpg"@);
        proof {
            lemma_unix_join_is_joined(d@, "cover.jpg"@);
        }
        if self.step != DownloadStep::CreatingDir || self.local_album.is_none() {
            let r = self.unchanged();
            assert((r.0@, actions_view(r.1@)) == download_transition(
                self@,
                EventView::DirCreated(d@),
                unix_cover,
            ));
            return r;
        }
        let image = match &self.local_album {
            Some(a) => match &a.image_id {
                Some(image_id) => Some((image_id.clone(), a.jellyfin_id.clone())),
                None => None,
            },
            None => None,
        };
        match image {
            Some((image_id, art_album)) => {
                proof {
                    reveal_strlit("cover.jpg");
                }
                let path = path_join(d.as_str(), "cover.jpg");
                let actions = single(
                    DownloadAction::DownloadArt {
                        album_id: art_album,
                        image_id,
                        path: path.clone(),
                        token: self.token.clone(),
                    },
                );
                let ghost before = self@;
                let r = (
                    DownloadJob {
                        step: DownloadStep::FetchingArt,
                        dir: Some(d),
                        image_path: Some(path),
                        ..self
                    },
                    actions,
                );
                assert(joined(path@, d@, "cover.jpg"@));
                assert((r.0@, actions_view(r.1@)) == download_transition(
                    before,
                    EventView::DirCreated(d@),
                    path@,
                ));
                r
            },
            None => {
                let actions = single(
                    DownloadAction::FetchTracks {
                        album_id: self.album_id.clone(),
                        token: self.token.clone(),
                    },
                );
                let ghost before = self@;
                let r = (
                    DownloadJob {
                        step: DownloadStep::FetchingTracks,
                        dir: Some(d),
                        image_path: None,
                        ..self
                    },
                    actions,
                );
                assert((r.0@, actions_view(r.1@)) == download_transition(
                    before,
                    EventView::DirCreated(d@),
                    unix_cover,
                ));
                r
            },
        }
    }

    fn on_art_downloaded(self) -> (r: (DownloadJob, Vec<DownloadAction>))
        requires
            !is_terminal(self.step),
        ensures
            (r.0@, actions_view(r.1@)) == download_transition(
                self@,
                EventView::ArtDownloaded,
                Seq::empty(),
            ),
    {
        if self.step != DownloadStep::FetchingArt {
            return self.unchanged();
        }
        let actions = single(
            DownloadAction::FetchTracks { album_id: self.album_id.clone(), token: self.token.clone() },
        );
        (DownloadJob { step: DownloadStep::FetchingTracks, ..self }, actions)
    }

    fn on_tracks_fetched(self, resp: JellyfinItemsResponse) -> (r: (DownloadJob, Vec<DownloadAction>))
        requires
            !is_terminal(self.step),
        ensures
            exists|clean: Seq<char>, path: Seq<char>|
                #[trigger] names_path(
                    self@,
                    EventView::TracksFetched(items_view(resp.items@)),
                    clean,
                    path,
                ) && (r.0@, actions_view(r.1@)) == download_transition(
                    self@,
                    EventView::TracksFetched(items_view(resp.items@)),
                    path,
                ),
    {
        let ghost ev = EventView::TracksFetched(items_view(resp.items@));
        if self.step != DownloadStep::FetchingTracks || self.local_album.is_none()
            || self.dir.is_none() {
            let r = self.unchanged();
            proof {
                lemma_nothing_sanitized();
                assert(names_path(self@, ev, Seq::empty(), Seq::empty()));
                assert((r.0@, actions_view(r.1@)) == download_transition(self@, ev, Seq::empty()));
            }
            return r;
        }
        let ghost before = self@;
        let job = DownloadJob { tracks: resp.items, ..self };
        let r = job.next_track(0);
        proof {
            let (clean, path) = choose|clean: Seq<char>, path: Seq<char>|
                #[trigger] track_named(job@, 0, clean, path) && (r.0@, actions_view(r.1@))
                    == next_track(job@, 0, path);
            assert(job@ == JobView { tracks: items_view(resp.items@), ..before });
            if 0 < job@.tracks.len() {
                assert(names_path(before, ev, clean, path));
            } else {
                lemma_nothing_sanitized();
                assert(names_path(before, ev, clean, path));
            }
            assert((r.0@, actions_view(r.1@)) == download_transition(before, ev, path));
        }
        r
    }

    fn on_track_inserted(self) -> (r: (DownloadJob, Vec<DownloadAction>))
        requires
            !is_terminal(self.step),
        ensures
            (r.0@, actions_view(r.1@)) == download_transition(
                self@,
                EventView::TrackInserted,
                Seq::empty(),
            ),
    {
        match self.step {
            DownloadStep::InsertingTrack(i) => {
                if i < self.tracks.len() && self.track_path.is_some() {
                    let path = match &self.track_path {
                        Some(p) => p.clone(),
                        None => String::new(),
                    };
                    let actions = single(
                        DownloadAction::DownloadTrack {
                            track_id: self.tracks[i].id.clone(),
                            path,
                            token: self.token.clone(),
                        },
                    );
                    (DownloadJob { step: DownloadStep::DownloadingTrack(i), ..self }, actions)
                } else {
                    self.unchanged()
                }
            },
            _ => self.unchanged(),
        }
    }

    fn on_track_downloaded(self) -> (r: (DownloadJob, Vec<DownloadAction>))
        requires
            !is_terminal(self.step),
        ensures
            exists|clean: Seq<char>, path: Seq<char>|
                #[trigger] names_path(self@, EventView::TrackDownloaded, clean, path) && (
                    r.0@,
                    actions_view(r.1@),
                ) == download_transition(self@, EventView::TrackDownloaded, path),
    {
        let ghost ev = EventView::TrackDownloaded;
        let ghost before = self@;
        proof {
            lemma_nothing_sanitized();
        }
        match self.step {
            DownloadStep::DownloadingTrack(i) => {
                if i < self.tracks.len() && self.local_album.is_some() && self.dir.is_some() {
                    let r = self.next_track(i + 1);
                    proof {
                        let k: nat = (i + 1) as nat;
                        let (clean, path) = choose|clean: Seq<char>, path: Seq<char>|
                            #[trigger] track_named(before, k, clean, path) && (
                                r.0@,
                                actions_view(r.1@),
                            ) == next_track(before, k, path);
                        assert(names_path(before, ev, clean, path));
                        assert((r.0@, actions_view(r.1@)) == download_transition(before, ev, path));
                    }
                    r
                } else {
                    let r = self.unchanged();
                    assert(names_path(before, ev, Seq::empty(), Seq::empty()));
                    assert((r.0@, actions_view(r.1@)) == download_transition(before, ev, Seq::empty()));
                    r
                }
            },
            _ => {
                let r = self.unchanged();
                assert(names_path(before, ev, Seq::empty(), Seq::empty()));
                assert((r.0@, actions_view(r.1@)) == download_transition(before, ev, Seq::empty()));
                r
            },
        }
    }

    fn on_marked_downloaded(self) -> (r: (DownloadJob, Vec<DownloadAction>))
        requires
            !is_terminal(self.step),
        ensures
            (r.0@, actions_view(r.1@)) == download_transition(
                self@,
                EventView::MarkedDownloaded,
                Seq::empty(),
            ),
    {
        if self.step != DownloadStep::MarkingDownloaded {
            return self.unchanged();
        }
        let actions = single(DownloadAction::AnnounceCompleted { album_id: self.album_id.clone() });
        (DownloadJob { step: DownloadStep::Completed, ..self }, actions)
    }

    /// One step of the download on the event that its last action produced, as
    /// [`download_transition`] describes it, with the path that the step names
    /// joined by `Path::join` from the album's directory and the file name, a
    /// track's made from some sanitizing of its name. A well-formed download
    /// stays well formed.
    pub fn step(self, event: DownloadEvent) -> (r: (DownloadJob, Vec<DownloadAction>))
        ensures
            exists|clean: Seq<char>, path: Seq<char>|
                #[trigger] names_path(self@, event@, clean, path) && (r.0@, actions_view(r.1@))
                    == download_transition(self@, event@, path),
            job_wf(self@) ==> job_wf(r.0@),
    {
        let ghost before = self@;
        let ghost ev = event@;
        let r = self.transition(event);
        proof {
            let (clean, path) = choose|clean: Seq<char>, path: Seq<char>|
                #[trigger] names_path(before, ev, clean, path) && (r.0@, actions_view(r.1@))
                    == download_transition(before, ev, path);
            if job_wf(before) {
                lemma_download_keeps_wf(before, ev, path);
            }
        }
        r
    }

    fn transition(self, event: DownloadEvent) -> (r: (DownloadJob, Vec<DownloadAction>))
        ensures
            exists|clean: Seq<char>, path: Seq<char>|
                #[trigger] names_path(self@, event@, clean, path) && (r.0@, actions_view(r.1@))
                    == download_transition(self@, event@, path),
    {
        let ghost before = self@;
        let ghost ev = event@;
        let ghost parts = path_parts(before, ev, Seq::empty());
        proof {
            lemma_nothing_sanitized();
            lemma_unix_join_is_joined(parts.0, parts.1);
        }
        if self.step == DownloadStep::Completed || self.step == DownloadStep::Failed {
            let r = self.unchanged();
            assert(names_path(before, ev, Seq::empty(), join_path(parts.0, parts.1)));
            assert((r.0@, actions_view(r.1@)) == download_transition(
                before,
                ev,
                join_path(parts.0, parts.1),
            ));
            return r;
        }
        match event {
            DownloadEvent::TracksFetched(resp) => self.on_tracks_fetched(resp),
            DownloadEvent::TrackDownloaded => self.on_track_downloaded(),
            DownloadEvent::Failed(m) => {
                let r = self.on_failure(m);
                assert(names_path(before, ev, Seq::empty(), Seq::empty()));
                r
            },
            DownloadEvent::AlbumLookedUp(found) => {
                let r = self.on_album_looked_up(found);
                assert(names_path(before, ev, Seq::empty(), Seq::empty()));
                r
            },
            DownloadEvent::ItemFetched(item) => {
                let r = self.on_item_fetched(item);
                assert(names_path(before, ev, Seq::empty(), Seq::empty()));
                r
            },
            DownloadEvent::AlbumCreated(a) => {
                let r = self.on_album_created(a);
                assert(names_path(before, ev, Seq::empty(), Seq::empty()));
                r
            },
            DownloadEvent::DirCreated(d) => {
                let ghost dv = d@;
                let r = self.on_dir_created(d);
                proof {
                    let path = choose|path: Seq<char>|
                        #[trigger] joined(path, dv, "cover.jpg"@) && (r.0@, actions_view(r.1@))
                            == download_transition(before, ev, path);
                    assert(names_path(before, ev, Seq::empty(), path));
                }
                r
            },
            DownloadEvent::ArtDownloaded => {
                let r = self.on_art_downloaded();
                assert(names_path(before, ev, Seq::empty(), Seq::empty()));
                r
            },
            DownloadEvent::TrackInserted => {
                let r = self.on_track_inserted();
                assert(names_path(before, ev, Seq::empty(), Seq::empty()));
                r
            },
            DownloadEvent::MarkedDownloaded => {
                let r = self.on_marked_downloaded();
                assert(names_path(before, ev, Seq::empty(), Seq::empty()));
                r
            },
        }
    }
}

proof fn lemma_nothing_sanitized()
    ensures
        sanitized_from(Seq::empty(), Seq::empty()),
{
}


/// How far a download has come: the steps follow one another in this order,
/// and each track is stored, then downloaded, in the order of the track list.
pub open spec fn progress(j: JobView) -> nat {
    match j.step {
        DownloadStep::FindingAlbum => 0,
        DownloadStep::FetchingItem => 1,
        DownloadStep::CreatingAlbum => 2,
        DownloadStep::CreatingDir => 3,
        DownloadStep::FetchingArt => 4,
        DownloadStep::FetchingTracks => 5,
        DownloadStep::InsertingTrack(i) => (6 + 2 * i) as nat,
        DownloadStep::DownloadingTrack(i) => (7 + 2 * i) as nat,
        DownloadStep::MarkingDownloaded => 6 + 2 * j.tracks.len(),
        DownloadStep::Completed => 7 + 2 * j.tracks.len(),
        DownloadStep::Failed => 7 + 2 * j.tracks.len(),
    }
}

/// Downloading an album again does no work twice. An album that the library
/// already holds is used as it is, without fetching the item or creating the
/// album; one that also has its directory completes at once, with only the
/// completion announced: no directory, cover, track or marking.
pub proof fn lemma_stored_album_not_downloaded_again(j: JobView, a: AlbumView, path: Seq<char>)
    requires
        j.step == DownloadStep::FindingAlbum,
    ensures
        ({
            let (n, acts) = download_transition(j, EventView::AlbumLookedUp(Some(a)), path);
            &&& n.local_album == Some(a)
            &&& forall|k: int|
                0 <= k < acts.len() ==> !(#[trigger] acts[k] is FetchItem) && !(acts[k] is CreateAlbum)
            &&& a.path is Some ==> n == JobView {
                step: DownloadStep::Completed,
                local_album: Some(a),
                ..j
            } && acts == seq![ActionView::AnnounceCompleted { album_id: j.album_id }]
        }),
{
}

/// Each track's own audio goes into its own file: moving on to track `i`
/// stores that track with the path of its file, and once it is stored the
/// download asks for that same track's audio, into that same path, with the
/// download's token.
pub proof fn lemma_each_track_downloads_its_own_file(
    j: JobView,
    i: usize,
    path: Seq<char>,
    other: Seq<char>,
)
    requires
        j.local_album is Some,
        j.dir is Some,
        i < j.tracks.len(),
    ensures
        ({
            let (n1, a1) = next_track(j, i as nat, path);
            let (n2, a2) = download_transition(n1, EventView::TrackInserted, other);
            &&& n1.step == DownloadStep::InsertingTrack(i)
            &&& a1.len() == 1
            &&& a1[0] matches ActionView::InsertTrack(t) && t.jellyfin_id == j.tracks[i as int].id
                && t.name == j.tracks[i as int].name && t.path == Some(path)
            &&& n2.step == DownloadStep::DownloadingTrack(i)
            &&& a2 == seq![
                ActionView::DownloadTrack {
                    track_id: j.tracks[i as int].id,
                    path: path,
                    token: j.token,
                },
            ]
        }),
{
}

/// Once a track is stored, the download asks for the audio of exactly that
/// track of the fetched list, into the path it was stored with.
pub proof fn lemma_inserted_track_is_downloaded(j: JobView, path: Seq<char>)
    requires
        j.step matches DownloadStep::InsertingTrack(i) && i < j.tracks.len(),
        j.track_path is Some,
    ensures
        ({
            let i = j.step->InsertingTrack_0;
            download_transition(j, EventView::TrackInserted, path).1 == seq![
                ActionView::DownloadTrack {
                    track_id: j.tracks[i as int].id,
                    path: j.track_path->0,
                    token: j.token,
                },
            ]
        }),
{
}

/// A finished download stays finished: it ignores every further event and asks
/// for nothing.
pub proof fn lemma_finished_download_absorbs(j: JobView, e: EventView, path: Seq<char>)
    requires
        is_terminal(j.step),
    ensures
        download_transition(j, e, path) == (j, Seq::<ActionView>::empty()),
{
}

/// A download that starts with an access token starts well formed; without one
/// nothing starts and only an error is reported.
pub proof fn lemma_download_start(album_id: Seq<char>, user_id: Seq<char>, token: Option<Seq<char>>)
    ensures
        download_start(album_id, user_id, token).0 matches Some(j) ==> job_wf(j) && !is_terminal(
            j.step,
        ),
        token is None ==> download_start(album_id, user_id, token) == (
            None::<JobView>,
            seq![ActionView::ReportError { message: no_token_message() }],
        ),
{
}

/// Every step keeps a download well formed.
pub proof fn lemma_download_keeps_wf(j: JobView, e: EventView, path: Seq<char>)
    requires
        job_wf(j),
    ensures
        job_wf(download_transition(j, e, path).0),
{
}

/// Every step of a running download either changes nothing and asks for
/// nothing, or moves the download forward (each track stored, then downloaded,
/// in the order of the track list), or ends it.
pub proof fn lemma_download_progresses(j: JobView, e: EventView, path: Seq<char>)
    requires
        job_wf(j),
        !is_terminal(j.step),
        j.tracks.len() <= usize::MAX,
        e matches EventView::TracksFetched(items) ==> items.len() <= usize::MAX,
    ensures
        ({
            let (n, acts) = download_transition(j, e, path);
            ||| (n == j && acts.len() == 0)
            ||| is_terminal(n.step)
            ||| progress(n) > progress(j)
        }),
{
}

/// A step that names a track's file uses the track's own name when that name
/// is plain: whatever sanitizing gave, the parts joined into the path are
/// those of the name itself.
pub proof fn lemma_plain_track_name_kept(j: JobView, e: EventView, clean: Seq<char>)
    requires
        sanitized_from(clean, name_to_sanitize(j, e)),
        plain_file_name(name_to_sanitize(j, e)),
    ensures
        path_parts(j, e, clean) == path_parts(j, e, name_to_sanitize(j, e)),
{
    lemma_sanitized_facts(name_to_sanitize(j, e));
}

/// The completion of an album is announced exactly when a step completes the
/// download, and an error is reported exactly when a step makes it fail; a step
/// announces or reports nothing else about the outcome.
pub proof fn lemma_outcome_announcements(j: JobView, e: EventView, path: Seq<char>)
    ensures
        ({
            let (n, acts) = download_transition(j, e, path);
            &&& (!is_terminal(j.step) && n.step == DownloadStep::Completed) ==> acts == seq![
                ActionView::AnnounceCompleted { album_id: j.album_id },
            ]
            &&& (!is_terminal(j.step) && n.step == DownloadStep::Failed) ==> (exists|m: Seq<char>|
                acts == seq![ActionView::ReportError { message: failure_message(j.album_id, m) }])
            &&& forall|k: int|
                0 <= k < acts.len() ==> ((#[trigger] acts[k] is AnnounceCompleted) ==> (n.step
                    == DownloadStep::Completed && !is_terminal(j.step)))
            &&& forall|k: int|
                0 <= k < acts.len() ==> ((#[trigger] acts[k] is ReportError) ==> (n.step
                    == DownloadStep::Failed && !is_terminal(j.step)))
        }),
{
    let (n, acts) = download_transition(j, e, path);
    if !is_terminal(j.step) && n.step == DownloadStep::Failed {
        match e {
            EventView::Failed(m) => {
                assert(acts == seq![ActionView::ReportError { message: failure_message(j.album_id, m) }]);
            },
            _ => {},
        }
    }
}


/// Where the download queue's worker stands.
#[derive(PartialEq, Eq, Structural, Clone, Copy)]
pub enum QueueState {
    /// Blocked until the next message arrives.
    Waiting,
    /// Taking the messages that are already queued, without blocking.
    Draining,
    /// The worker has ended.
    Stopped,
}

/// What the worker's last look at the queue found.
pub enum QueueEvent {
    Received(DownloadQueueMessage),
    /// No message is queued.
    Empty,
    /// Every sender is gone.
    Disconnected,
}

/// What the worker does next.
pub enum QueueAction {
    /// Run the download of this album.
    Download(Album),
    /// Announce that the queue is empty.
    AnnounceQueueEmpty,
    /// Write this line to the log.
    Log(String),
    /// Nothing.
    Nothing,
}

/// The contents of a download request.
pub struct RequestView {
    pub album_id: Seq<char>,
    pub user_id: Seq<char>,
}

impl View for Album {
    type V = RequestView;

    open spec fn view(&self) -> RequestView {
        RequestView { album_id: self.album_id@, user_id: self.user_id@ }
    }
}

/// The contents of a [`QueueEvent`].
pub enum QueueEventView {
    NewAlbum(RequestView),
    Shutdown,
    Empty,
    Disconnected,
}

impl View for QueueEvent {
    type V = QueueEventView;

    open spec fn view(&self) -> QueueEventView {
        match self {
            QueueEvent::Received(DownloadQueueMessage::NewAlbum(a)) => QueueEventView::NewAlbum(a@),
            QueueEvent::Received(DownloadQueueMessage::Shutdown) => QueueEventView::Shutdown,
            QueueEvent::Empty => QueueEventView::Empty,
            QueueEvent::Disconnected => QueueEventView::Disconnected,
        }
    }
}

/// The contents of a [`QueueAction`].
pub enum QueueActionView {
    Download(RequestView),
    AnnounceQueueEmpty,
    Log(Seq<char>),
    Nothing,
}

impl View for QueueAction {
    type V = QueueActionView;

    open spec fn view(&self) -> QueueActionView {
        match self {
            QueueAction::Download(a) => QueueActionView::Download(a@),
            QueueAction::AnnounceQueueEmpty => QueueActionView::AnnounceQueueEmpty,
            QueueAction::Log(m) => QueueActionView::Log(m@),
            QueueAction::Nothing => QueueActionView::Nothing,
        }
    }
}

/// One step of the queue's worker: an album is downloaded and the worker goes
/// on taking queued messages; a shutdown ends it; when draining finds the queue
/// empty it announces so and waits again; when the senders are gone it ends,
/// logging so if it was waiting. A stopped worker stays stopped.
pub open spec fn queue_transition(state: QueueState, event: QueueEventView) -> (
    QueueState,
    QueueActionView,
) {
    match (state, event) {
        (QueueState::Stopped, _) => (QueueState::Stopped, QueueActionView::Nothing),
        (_, QueueEventView::NewAlbum(a)) => (QueueState::Draining, QueueActionView::Download(a)),
        (_, QueueEventView::Shutdown) => (
            QueueState::Stopped,
            QueueActionView::Log("Download queue shutting down."@),
        ),
        (QueueState::Draining, QueueEventView::Empty) => (
            QueueState::Waiting,
            QueueActionView::AnnounceQueueEmpty,
        ),
        (QueueState::Waiting, QueueEventView::Empty) => (
            QueueState::Waiting,
            QueueActionView::Nothing,
        ),
        (QueueState::Waiting, QueueEventView::Disconnected) => (
            QueueState::Stopped,
            QueueActionView::Log("Download queue channel disconnected."@),
        ),
        (QueueState::Draining, QueueEventView::Disconnected) => (
            QueueState::Stopped,
            QueueActionView::Nothing,
        ),
    }
}

/// One step of the queue's worker, as [`queue_transition`] describes it.
pub fn queue_step(state: QueueState, event: QueueEvent) -> (r: (QueueState, QueueAction))
    ensures
        (r.0, r.1@) == queue_transition(state, event@),
{
    if state == QueueState::Stopped {
        return (QueueState::Stopped, QueueAction::Nothing);
    }
    match event {
        QueueEvent::Received(DownloadQueueMessage::NewAlbum(a)) => (
            QueueState::Draining,
            QueueAction::Download(a),
        ),
        QueueEvent::Received(DownloadQueueMessage::Shutdown) => (
            QueueState::Stopped,
            QueueAction::Log(String::from_str("Download queue shutting down.")),
        ),
        QueueEvent::Empty => {
            if state == QueueState::Draining {
                (QueueState::Waiting, QueueAction::AnnounceQueueEmpty)
            } else {
                (QueueState::Waiting, QueueAction::Nothing)
            }
        },
        QueueEvent::Disconnected => {
            if state == QueueState::Waiting {
                (
                    QueueState::Stopped,
                    QueueAction::Log(String::from_str("Download queue channel disconnected.")),
                )
            } else {
                (QueueState::Stopped, QueueAction::Nothing)
            }
        },
    }
}

/// The worker downloads exactly the albums it receives, each when it receives
/// it; it announces an empty queue only when draining finds nothing queued; and
/// once stopped it does nothing more.
pub proof fn lemma_queue_worker(state: QueueState, event: QueueEventView)
    ensures
        ({
            let (next, action) = queue_transition(state, event);
            &&& (action matches QueueActionView::Download(a) ==> event
                == QueueEventView::NewAlbum(a))
            &&& (event matches QueueEventView::NewAlbum(a) ==> (state != QueueState::Stopped
                ==> action == QueueActionView::Download(a)))
            &&& (action == QueueActionView::AnnounceQueueEmpty) <==> (state == QueueState::Draining
                && event == QueueEventView::Empty)
            &&& state == QueueState::Stopped ==> (next == QueueState::Stopped && action
                == QueueActionView::Nothing)
            &&& event == QueueEventView::Shutdown ==> next == QueueState::Stopped
        }),
{
}

} // verus!
