use hacksawdio::deletion::{start_delete, DeleteAction, DeleteEvent, DeleteJob, DeleteStep};
use hacksawdio::errors::JellyfinError;
use hacksawdio::models::Album;

fn stored(path: Option<&str>) -> Album {
    Album {
        id: 5,
        jellyfin_id: "alb".to_string(),
        title: "T".to_string(),
        artist: "A".to_string(),
        downloaded: true,
        path: path.map(|p| p.to_string()),
        image_id: None,
        image_path: None,
    }
}

fn go(job: DeleteJob, e: DeleteEvent) -> (DeleteJob, DeleteAction) {
    match job.step(e) {
        Ok(r) => r,
        Err(_) => panic!("event not expected"),
    }
}

#[test]
fn deleting_a_missing_album_is_not_found() {
    let (job, a) = start_delete("alb");
    assert!(matches!(a, DeleteAction::FindAlbum { album_id } if album_id == "alb"));
    let (job, a) = go(job, DeleteEvent::AlbumLookedUp(None));
    assert!(job.step == DeleteStep::Done);
    match a {
        DeleteAction::Finish(Err(JellyfinError::ApiError { status, message })) => {
            assert_eq!(status, 404);
            assert_eq!(message, "Album not found");
        }
        _ => panic!("expected not found"),
    }
}

#[test]
fn deleting_removes_dirs_and_records() {
    let (job, _) = start_delete("alb");
    let (job, a) = go(job, DeleteEvent::AlbumLookedUp(Some(stored(Some("/data/downloads/A/T")))));
    assert!(matches!(&a, DeleteAction::CheckExists { path } if path == "/data/downloads/A/T"));
    let (job, a) = go(job, DeleteEvent::PathExists(true));
    assert!(matches!(&a, DeleteAction::RemoveDirAll { path } if path == "/data/downloads/A/T"));
    let (job, a) = go(job, DeleteEvent::DirRemoved);
    assert!(matches!(&a, DeleteAction::CheckIsDir { path } if path == "/data/downloads/A"));
    let (job, a) = go(job, DeleteEvent::ParentIsDir(true));
    assert!(matches!(&a, DeleteAction::CountEntries { path } if path == "/data/downloads/A"));
    let (job, a) = go(job, DeleteEvent::EntryCount(0));
    assert!(matches!(&a, DeleteAction::RemoveDir { path } if path == "/data/downloads/A"));
    let (job, a) = go(job, DeleteEvent::ParentRemoved);
    assert!(matches!(&a, DeleteAction::DeleteRecords(al) if al.id == 5 && al.jellyfin_id == "alb"));
    let (job, a) = go(job, DeleteEvent::RecordsDeleted);
    assert!(job.step == DeleteStep::Done);
    assert!(matches!(a, DeleteAction::Finish(Ok(()))));
    assert!(job.step(DeleteEvent::RecordsDeleted).is_err());
}

#[test]
fn deleting_keeps_a_non_empty_artist_dir() {
    let (job, _) = start_delete("alb");
    let (job, _) = go(job, DeleteEvent::AlbumLookedUp(Some(stored(Some("/m/A/T")))));
    let (job, a) = go(job, DeleteEvent::PathExists(false));
    assert!(matches!(&a, DeleteAction::CheckIsDir { path } if path == "/m/A"));
    let (job, _) = go(job, DeleteEvent::ParentIsDir(true));
    let (_, a) = go(job, DeleteEvent::EntryCount(3));
    assert!(matches!(a, DeleteAction::DeleteRecords(_)));
}

#[test]
fn deleting_an_album_without_path_deletes_records_only() {
    let (job, _) = start_delete("alb");
    let (job, a) = go(job, DeleteEvent::AlbumLookedUp(Some(stored(None))));
    assert!(job.step == DeleteStep::DeletingRecords);
    assert!(matches!(a, DeleteAction::DeleteRecords(_)));
}

#[test]
fn deleting_a_root_path_has_no_parent() {
    let (job, _) = start_delete("alb");
    let (job, _) = go(job, DeleteEvent::AlbumLookedUp(Some(stored(Some("/")))));
    let (_, a) = go(job, DeleteEvent::PathExists(false));
    assert!(matches!(a, DeleteAction::Finish(Err(JellyfinError::GenericError(m))) if m == "Failed to get parent directory"));
}

#[test]
fn deletion_failures_are_prefixed() {
    let (job, _) = start_delete("alb");
    let (job, _) = go(job, DeleteEvent::AlbumLookedUp(Some(stored(Some("/m/A/T")))));
    let (job, _) = go(job, DeleteEvent::PathExists(true));
    let (job, a) = go(job, DeleteEvent::Failed("permission denied".to_string()));
    assert!(job.step == DeleteStep::Done);
    assert!(matches!(a, DeleteAction::Finish(Err(JellyfinError::GenericError(m))) if m == "Failed to delete album dir: permission denied"));

    let (job, _) = start_delete("alb");
    let (job, _) = go(job, DeleteEvent::AlbumLookedUp(Some(stored(Some("/m/A/T")))));
    let (job, _) = go(job, DeleteEvent::PathExists(false));
    let (job, _) = go(job, DeleteEvent::ParentIsDir(true));
    let (_, a) = go(job, DeleteEvent::Failed("io".to_string()));
    assert!(matches!(a, DeleteAction::Finish(Err(JellyfinError::GenericError(m))) if m == "Failed to read dir: io"));

    let (job, _) = start_delete("alb");
    let (job, _) = go(job, DeleteEvent::Failed("db down".to_string()));
    assert!(job.step == DeleteStep::Done);
}

#[test]
fn ill_formed_deletion_state_is_given_back() {
    let job = DeleteJob {
        album_id: "alb".to_string(),
        step: DeleteStep::CheckingParent,
        album: Some(stored(Some("/x/A/T"))),
        parent: None,
    };
    assert!(!job.is_well_formed());
    match job.step(DeleteEvent::ParentIsDir(true)) {
        Err(j) => assert!(j.step == DeleteStep::CheckingParent && j.parent.is_none()),
        Ok(_) => panic!("expected the job back"),
    }
    let (job, _) = start_delete("alb");
    assert!(job.is_well_formed());
}

#[test]
fn relative_album_path_checks_its_artist_dir() {
    let (job, _) = start_delete("alb");
    let (job, _) = go(job, DeleteEvent::AlbumLookedUp(Some(stored(Some("downloads/Some Artist/Album")))));
    let (_, a) = go(job, DeleteEvent::PathExists(false));
    assert!(matches!(&a, DeleteAction::CheckIsDir { path } if path == "downloads/Some Artist"));
}

#[test]
fn parent_found_or_missing() {
    let (job, _) = start_delete("alb");
    let (job, _) = go(job, DeleteEvent::AlbumLookedUp(Some(stored(Some("/x/A/T")))));
    let (job, _) = go(job, DeleteEvent::PathExists(true));
    let (j, a) = job.on_parent_found(Some("/x/A".to_string()));
    assert!(j.step == DeleteStep::CheckingParent);
    assert!(matches!(&a, DeleteAction::CheckIsDir { path } if path == "/x/A"));
    let (j, a) = j.on_parent_found(None);
    assert!(j.step == DeleteStep::Done);
    match a {
        DeleteAction::Finish(Err(JellyfinError::GenericError(m))) => assert_eq!(m, "Failed to get parent directory"),
        _ => panic!("expected a failure"),
    }
}

#[test]
fn album_path_with_trailing_separator() {
    let (job, _) = start_delete("alb");
    let (job, _) = go(job, DeleteEvent::AlbumLookedUp(Some(stored(Some("/x/A/T/")))));
    let (_, a) = go(job, DeleteEvent::PathExists(false));
    assert!(matches!(&a, DeleteAction::CheckIsDir { path } if path == "/x/A"));
}
