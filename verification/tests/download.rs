use hacksawdio::download::{
    queue_step, start_download, Album as AlbumRequest, DownloadAction, DownloadEvent,
    DownloadJob, DownloadQueueMessage, DownloadStep, QueueAction, QueueEvent, QueueState,
};
use hacksawdio::models::{Album, JellyfinItem, JellyfinItemsResponse};

fn request() -> AlbumRequest {
    AlbumRequest { album_id: "alb".to_string(), user_id: "usr".to_string() }
}

fn local(path: Option<&str>, image: Option<&str>) -> Album {
    Album {
        id: 42,
        jellyfin_id: "alb".to_string(),
        title: "Discovery".to_string(),
        artist: "Daft Punk".to_string(),
        downloaded: false,
        path: path.map(|p| p.to_string()),
        image_id: image.map(|i| i.to_string()),
        image_path: None,
    }
}

fn track(name: &str, id: &str, index: Option<u32>) -> JellyfinItem {
    JellyfinItem {
        name: name.to_string(),
        id: id.to_string(),
        album_artist: None,
        container: Some("flac".to_string()),
        index_number: index,
        image_tags: None,
    }
}

fn started() -> DownloadJob {
    let (job, actions) = start_download(request(), Some("tok".to_string()));
    assert_eq!(actions.len(), 2);
    assert!(matches!(&actions[0], DownloadAction::AnnounceStarted { album_id } if album_id == "alb"));
    assert!(matches!(&actions[1], DownloadAction::FindAlbum { album_id } if album_id == "alb"));
    job.unwrap()
}

fn one(job: DownloadJob, event: DownloadEvent) -> (DownloadJob, DownloadAction) {
    let (job, mut actions) = job.step(event);
    assert_eq!(actions.len(), 1);
    (job, actions.pop().unwrap())
}

#[test]
fn download_without_token_reports_and_stops() {
    let (job, actions) = start_download(request(), None);
    assert!(job.is_none());
    assert_eq!(actions.len(), 1);
    assert!(matches!(&actions[0], DownloadAction::ReportError { message } if message == "Download failed: No auth token available."));
}

#[test]
fn already_downloaded_album_completes_at_once() {
    let (job, action) = one(started(), DownloadEvent::AlbumLookedUp(Some(local(Some("/x"), None))));
    assert!(job.step == DownloadStep::Completed);
    assert!(matches!(action, DownloadAction::AnnounceCompleted { album_id } if album_id == "alb"));
    let (job, actions) = job.step(DownloadEvent::TrackInserted);
    assert!(job.step == DownloadStep::Completed);
    assert!(actions.is_empty());
}

#[test]
fn full_download_of_a_new_album() {
    let job = started();
    let (job, a) = one(job, DownloadEvent::AlbumLookedUp(None));
    assert!(matches!(&a, DownloadAction::FetchItem { item_id, token, user_id } if item_id == "alb" && token == "tok" && user_id == "usr"));
    let mut server_item = track("Discovery", "alb", None);
    server_item.album_artist = Some("Daft Punk".to_string());
    let (job, a) = one(job, DownloadEvent::ItemFetched(server_item));
    match &a {
        DownloadAction::CreateAlbum(row) => {
            assert_eq!(row.jellyfin_id, "alb");
            assert_eq!(row.title, "Discovery");
            assert_eq!(row.artist, "Daft Punk");
        }
        _ => panic!("expected CreateAlbum"),
    }
    let (job, a) = one(job, DownloadEvent::AlbumCreated(local(None, Some("img"))));
    assert!(matches!(&a, DownloadAction::CreateDir { artist, title } if artist == "Daft Punk" && title == "Discovery"));
    let (job, a) = one(job, DownloadEvent::DirCreated("/data/downloads/Daft Punk/Discovery".to_string()));
    assert!(matches!(&a, DownloadAction::DownloadArt { album_id, image_id, path, token }
        if album_id == "alb" && image_id == "img" && path == "/data/downloads/Daft Punk/Discovery/cover.jpg" && token == "tok"));
    let (job, a) = one(job, DownloadEvent::ArtDownloaded);
    assert!(matches!(&a, DownloadAction::FetchTracks { album_id, token } if album_id == "alb" && token == "tok"));
    let tracks = JellyfinItemsResponse {
        total_record_count: 2,
        start_index: 0,
        items: vec![track("One/Two", "t1", Some(1)), track("Three", "t2", None)],
    };
    let (job, a) = one(job, DownloadEvent::TracksFetched(tracks));
    match &a {
        DownloadAction::InsertTrack(t) => {
            assert_eq!(t.jellyfin_id, "t1");
            assert_eq!(t.name, "One/Two");
            assert_eq!(t.album_id, 42);
            assert_eq!(t.track_index, 1);
            assert_eq!(t.path.as_deref(), Some("/data/downloads/Daft Punk/Discovery/1 - OneTwo.flac"));
        }
        _ => panic!("expected InsertTrack"),
    }
    assert!(job.step == DownloadStep::InsertingTrack(0));
    let (job, a) = one(job, DownloadEvent::TrackInserted);
    assert!(matches!(&a, DownloadAction::DownloadTrack { track_id, path, token }
        if track_id == "t1" && path == "/data/downloads/Daft Punk/Discovery/1 - OneTwo.flac" && token == "tok"));
    let (job, a) = one(job, DownloadEvent::TrackDownloaded);
    match &a {
        DownloadAction::InsertTrack(t) => {
            assert_eq!(t.jellyfin_id, "t2");
            assert_eq!(t.track_index, 0);
            assert_eq!(t.path.as_deref(), Some("/data/downloads/Daft Punk/Discovery/0 - Three.flac"));
        }
        _ => panic!("expected InsertTrack"),
    }
    let (job, _) = one(job, DownloadEvent::TrackInserted);
    let (job, a) = one(job, DownloadEvent::TrackDownloaded);
    assert!(matches!(&a, DownloadAction::MarkDownloaded { album_id, dir, image_path }
        if album_id == "alb" && dir == "/data/downloads/Daft Punk/Discovery"
            && image_path.as_deref() == Some("/data/downloads/Daft Punk/Discovery/cover.jpg")));
    let (job, a) = one(job, DownloadEvent::MarkedDownloaded);
    assert!(job.step == DownloadStep::Completed);
    assert!(matches!(a, DownloadAction::AnnounceCompleted { album_id } if album_id == "alb"));
}

#[test]
fn album_without_cover_or_tracks() {
    let (job, _) = one(started(), DownloadEvent::AlbumLookedUp(Some(local(None, None))));
    let (job, a) = one(job, DownloadEvent::DirCreated("/d".to_string()));
    assert!(matches!(a, DownloadAction::FetchTracks { .. }));
    assert!(job.image_path.is_none());
    let empty = JellyfinItemsResponse { total_record_count: 0, start_index: 0, items: vec![] };
    let (job, a) = one(job, DownloadEvent::TracksFetched(empty));
    assert!(matches!(&a, DownloadAction::MarkDownloaded { dir, image_path, .. } if dir == "/d" && image_path.is_none()));
    assert!(job.step == DownloadStep::MarkingDownloaded);
}

#[test]
fn failure_reports_and_ends_the_download() {
    let (job, _) = one(started(), DownloadEvent::AlbumLookedUp(Some(local(None, None))));
    let (job, a) = one(job, DownloadEvent::Failed("disk full".to_string()));
    assert!(job.step == DownloadStep::Failed);
    assert!(matches!(a, DownloadAction::ReportError { message } if message == "Error downloading album alb: disk full"));
    let (job, actions) = job.step(DownloadEvent::DirCreated("/d".to_string()));
    assert!(job.step == DownloadStep::Failed);
    assert!(actions.is_empty());
}

#[test]
fn unexpected_event_changes_nothing() {
    let job = started();
    let (job, actions) = job.step(DownloadEvent::TrackDownloaded);
    assert!(job.step == DownloadStep::FindingAlbum);
    assert!(actions.is_empty());
}

#[test]
fn queue_worker_steps() {
    let (s, a) = queue_step(QueueState::Waiting, QueueEvent::Received(DownloadQueueMessage::NewAlbum(request())));
    assert!(s == QueueState::Draining);
    assert!(matches!(a, QueueAction::Download(r) if r.album_id == "alb"));
    let (s, a) = queue_step(QueueState::Draining, QueueEvent::Empty);
    assert!(s == QueueState::Waiting);
    assert!(matches!(a, QueueAction::AnnounceQueueEmpty));
    let (s, a) = queue_step(QueueState::Draining, QueueEvent::Received(DownloadQueueMessage::Shutdown));
    assert!(s == QueueState::Stopped);
    assert!(matches!(a, QueueAction::Log(m) if m == "Download queue shutting down."));
    let (s, a) = queue_step(QueueState::Waiting, QueueEvent::Disconnected);
    assert!(s == QueueState::Stopped);
    assert!(matches!(a, QueueAction::Log(m) if m == "Download queue channel disconnected."));
    let (s, a) = queue_step(QueueState::Draining, QueueEvent::Disconnected);
    assert!(s == QueueState::Stopped);
    assert!(matches!(a, QueueAction::Nothing));
    let (s, a) = queue_step(QueueState::Stopped, QueueEvent::Received(DownloadQueueMessage::NewAlbum(request())));
    assert!(s == QueueState::Stopped);
    assert!(matches!(a, QueueAction::Nothing));
}
