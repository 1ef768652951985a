use vstd::prelude::*;

use crate::errors::{not_found, ErrorView, JellyfinError, NOT_FOUND};
use crate::models::{Album, AlbumView};
use crate::text::opt_view;

verus! {

/// A directory path whose text `std::path::Path` keeps as it is on every
/// platform: not empty, not ending in `/`, without `\\` or `:`, without an
/// empty component (`//`), and not ending in a `.` component.
pub open spec fn plain_dir(q: Seq<char>) -> bool {
    &&& q.len() > 0
    &&& q.last() != '/'
    &&& forall|i: int| 0 <= i < q.len() ==> #[trigger] q[i] != '\\' && q[i] != ':'
    &&& forall|i: int| 0 <= i < q.len() - 1 ==> !(#[trigger] q[i] == '/' && q[i + 1] == '/')
    &&& !(q.last() == '.' && (q.len() == 1 || q[q.len() - 2] == '/'))
}

/// `path` without the separators and `.` components at its end, which
/// `std::path::Path` passes over.
pub open spec fn without_trailing_empty(path: Seq<char>) -> Seq<char>
    decreases path.len(),
{
    if path.len() > 1 && path.last() == '/' {
        without_trailing_empty(path.drop_last())
    } else if path.len() > 2 && path.last() == '.' && path[path.len() - 2] == '/' {
        without_trailing_empty(path.take(path.len() - 2))
    } else {
        path
    }
}

/// `path` is the plain directory `q`, a `/` and a last component that is an
/// ordinary name: not empty, without a separator, and neither `.` nor `..`.
pub open spec fn split_at_last(q: Seq<char>, path: Seq<char>) -> bool {
    let c = path.subrange(q.len() + 1int, path.len() as int);
    &&& plain_dir(q)
    &&& q.len() + 1 < path.len()
    &&& q.is_prefix_of(path)
    &&& path[q.len() as int] == '/'
    &&& forall|i: int| 0 <= i < c.len() ==> #[trigger] c[i] != '/' && c[i] != '\\'
    &&& c != seq!['.']
    &&& c != seq!['.', '.']
}

/// `path` is the plain directory `q` and an ordinary last name, maybe followed
/// by separators and `.` components.
pub open spec fn plain_split(q: Seq<char>, path: Seq<char>) -> bool {
    split_at_last(q, without_trailing_empty(path))
}

/// What `Path` passes over at the end of a path is its end.
proof fn lemma_without_trailing_empty_is_prefix(path: Seq<char>)
    ensures
        without_trailing_empty(path).is_prefix_of(path),
    decreases path.len(),
{
    if path.len() > 1 && path.last() == '/' {
        lemma_without_trailing_empty_is_prefix(path.drop_last());
    } else if path.len() > 2 && path.last() == '.' && path[path.len() - 2] == '/' {
        lemma_without_trailing_empty_is_prefix(path.take(path.len() - 2));
    }
}

/// What holds of every parent that `std::path::Path::parent` finds: it is a
/// shorter prefix of the path, and a plain directory followed by an ordinary
/// last component has that directory as its parent.
pub open spec fn parent_of(parent: Option<Seq<char>>, path: Seq<char>) -> bool {
    &&& parent matches Some(q) ==> q.len() < path.len() && q.is_prefix_of(path)
    &&& forall|q: Seq<char>| #[trigger] plain_split(q, path) ==> parent == Some(q)
}

/// `std::path::Path::parent`, converted back to text: the path without its
/// last component, or nothing for a root or empty path. How a path splits into
/// components depends on the platform, so the contract states what holds on
/// every platform: a parent is a shorter prefix of the path, and a path that
/// [`plain_split`] divides (trailing separators and `.` components included)
/// has the plain directory as its parent. Other paths' parents are left
/// unsaid.
#[verifier::external_body]
fn path_parent(path: &str) -> (r: Option<String>)
    ensures
        parent_of(opt_view(r), path@),
{
    std::path::Path::new(path).parent().map(|q| q.to_string_lossy().into_owned())
}

/// A path splits in at most one way into a plain directory and an ordinary
/// last component.
proof fn lemma_plain_split_unique(q1: Seq<char>, q2: Seq<char>, path: Seq<char>)
    requires
        split_at_last(q1, path),
        split_at_last(q2, path),
    ensures
        q1 == q2,
{
    if q1.len() < q2.len() {
        let c1 = path.subrange(q1.len() + 1int, path.len() as int);
        assert(c1[q2.len() - q1.len() - 1] == path[q2.len() as int]);
    } else if q2.len() < q1.len() {
        let c2 = path.subrange(q2.len() + 1int, path.len() as int);
        assert(c2[q1.len() - q2.len() - 1] == path[q1.len() as int]);
    } else {
        assert(q1 =~= q2);
    }
}

/// The parent that a path has wherever [`plain_split`] divides it, and none
/// elsewhere.
pub open spec fn plain_parent(path: Seq<char>) -> Option<Seq<char>> {
    if exists|q: Seq<char>| plain_split(q, path) {
        Some(choose|q: Seq<char>| plain_split(q, path))
    } else {
        None
    }
}

proof fn lemma_plain_parent(path: Seq<char>)
    ensures
        parent_of(plain_parent(path), path),
{
    if exists|q: Seq<char>| plain_split(q, path) {
        let q0 = choose|q: Seq<char>| plain_split(q, path);
        let t = without_trailing_empty(path);
        lemma_without_trailing_empty_is_prefix(path);
        assert(q0.is_prefix_of(path)) by {
            assert forall|i: int| 0 <= i < q0.len() implies q0[i] == path[i] by {
                assert(q0[i] == t[i]);
            }
        }
        assert forall|q: Seq<char>| #[trigger] plain_split(q, path) implies plain_parent(path)
            == Some(q) by {
            lemma_plain_split_unique(q0, q, t);
        }
    }
}

/// Where the deletion of a local album stands.
#[derive(PartialEq, Eq, Structural, Clone, Copy)]
pub enum DeleteStep {
    /// Looking the album up in the local database.
    FindingAlbum,
    /// Checking whether the album's directory exists.
    CheckingAlbumDir,
    /// Removing the album's directory with everything in it.
    RemovingAlbumDir,
    /// Checking whether the parent (artist) directory exists as a directory.
    CheckingParent,
    /// Counting the entries of the parent directory.
    CountingEntries,
    /// Removing the empty parent directory.
    RemovingParent,
    /// Deleting the album and its tracks from the database.
    DeletingRecords,
    /// The deletion has ended; its outcome was reported.
    Done,
}

/// The state of one album deletion.
pub struct DeleteJob {
    pub album_id: String,
    pub step: DeleteStep,
    pub album: Option<Album>,
    pub parent: Option<String>,
}

/// What happened to the last action of a deletion.
pub enum DeleteEvent {
    AlbumLookedUp(Option<Album>),
    PathExists(bool),
    DirRemoved,
    /// Whether the parent exists and is a directory.
    ParentIsDir(bool),
    EntryCount(usize),
    ParentRemoved,
    RecordsDeleted,
    /// The action failed, with the error's message.
    Failed(String),
}

/// What the deletion asks its runner to do.
pub enum DeleteAction {
    FindAlbum { album_id: String },
    CheckExists { path: String },
    RemoveDirAll { path: String },
    CheckIsDir { path: String },
    CountEntries { path: String },
    RemoveDir { path: String },
    DeleteRecords(Album),
    /// The deletion ended with this outcome.
    Finish(Result<(), JellyfinError>),
}

/// The contents of a [`DeleteJob`].
pub struct DeleteJobView {
    pub album_id: Seq<char>,
    pub step: DeleteStep,
    pub album: Option<AlbumView>,
    pub parent: Option<Seq<char>>,
}

impl View for DeleteJob {
    type V = DeleteJobView;

    open spec fn view(&self) -> DeleteJobView {
        DeleteJobView {
            album_id: self.album_id@,
            step: self.step,
            album: match self.album {
                Some(a) => Some(a@),
                None => None,
            },
            parent: opt_view(self.parent),
        }
    }
}

/// The contents of a [`DeleteEvent`].
pub enum DeleteEventView {
    AlbumLookedUp(Option<AlbumView>),
    PathExists(bool),
    DirRemoved,
    ParentIsDir(bool),
    EntryCount(usize),
    ParentRemoved,
    RecordsDeleted,
    Failed(Seq<char>),
}

impl View for DeleteEvent {
    type V = DeleteEventView;

    open spec fn view(&self) -> DeleteEventView {
        match self {
            DeleteEvent::AlbumLookedUp(a) => DeleteEventView::AlbumLookedUp(
                match a {
                    Some(x) => Some(x@),
                    None => None,
                },
            ),
            DeleteEvent::PathExists(b) => DeleteEventView::PathExists(*b),
            DeleteEvent::DirRemoved => DeleteEventView::DirRemoved,
            DeleteEvent::ParentIsDir(b) => DeleteEventView::ParentIsDir(*b),
            DeleteEvent::EntryCount(n) => DeleteEventView::EntryCount(*n),
            DeleteEvent::ParentRemoved => DeleteEventView::ParentRemoved,
            DeleteEvent::RecordsDeleted => DeleteEventView::RecordsDeleted,
            DeleteEvent::Failed(m) => DeleteEventView::Failed(m@),
        }
    }
}

/// The contents of a [`DeleteAction`].
pub enum DeleteActionView {
    FindAlbum { album_id: Seq<char> },
    CheckExists { path: Seq<char> },
    RemoveDirAll { path: Seq<char> },
    CheckIsDir { path: Seq<char> },
    CountEntries { path: Seq<char> },
    RemoveDir { path: Seq<char> },
    DeleteRecords(AlbumView),
    Finish(Result<(), ErrorView>),
}

impl View for DeleteAction {
    type V = DeleteActionView;

    open spec fn view(&self) -> DeleteActionView {
        match self {
            DeleteAction::FindAlbum { album_id } => DeleteActionView::FindAlbum {
                album_id: album_id@,
            },
            DeleteAction::CheckExists { path } => DeleteActionView::CheckExists { path: path@ },
            DeleteAction::RemoveDirAll { path } => DeleteActionView::RemoveDirAll { path: path@ },
            DeleteAction::CheckIsDir { path } => DeleteActionView::CheckIsDir { path: path@ },
            DeleteAction::CountEntries { path } => DeleteActionView::CountEntries { path: path@ },
            DeleteAction::RemoveDir { path } => DeleteActionView::RemoveDir { path: path@ },
            DeleteAction::DeleteRecords(a) => DeleteActionView::DeleteRecords(a@),
            DeleteAction::Finish(r) => DeleteActionView::Finish(
                match r {
                    Ok(()) => Ok(()),
                    Err(e) => Err(e@),
                },
            ),
        }
    }
}

/// The end of a deletion with a failure described by `message`.
pub open spec fn fail_with(j: DeleteJobView, message: Seq<char>) -> (DeleteJobView, DeleteActionView) {
    (
        DeleteJobView { step: DeleteStep::Done, ..j },
        DeleteActionView::Finish(Err(ErrorView::GenericError(message))),
    )
}

/// The step that deletes the album's records.
pub open spec fn delete_records(j: DeleteJobView) -> (DeleteJobView, DeleteActionView) {
    (DeleteJobView { step: DeleteStep::DeletingRecords, ..j }, DeleteActionView::DeleteRecords(j.album->0))
}

/// Once the album's directory is gone: its parent is checked, or the deletion
/// fails when the path has no parent.
pub open spec fn after_album_dir(j: DeleteJobView, parent: Option<Seq<char>>) -> (
    DeleteJobView,
    DeleteActionView,
) {
    match parent {
        Some(q) => (
            DeleteJobView { step: DeleteStep::CheckingParent, parent: Some(q), ..j },
            DeleteActionView::CheckIsDir { path: q },
        ),
        None => fail_with(j, "Failed to get parent directory"@),
    }
}

/// The prefix of the message of a failure in a step.
pub open spec fn failure_prefix(step: DeleteStep) -> Seq<char> {
    match step {
        DeleteStep::RemovingAlbumDir => "Failed to delete album dir: "@,
        DeleteStep::CountingEntries => "Failed to read dir: "@,
        DeleteStep::RemovingParent => "Failed to delete parent dir: "@,
        _ => Seq::empty(),
    }
}

/// The start of an album's deletion: it is looked up locally.
pub open spec fn delete_start(album_id: Seq<char>) -> (DeleteJobView, DeleteActionView) {
    (
        DeleteJobView { album_id, step: DeleteStep::FindingAlbum, album: None, parent: None },
        DeleteActionView::FindAlbum { album_id },
    )
}

/// One step of an album's deletion. A missing album ends it with "Album not
/// found"; an album with a path has its directory removed if it exists, then
/// the parent (artist) directory removed if it is a directory left empty; then
/// the album and its tracks are deleted from the database. A failure ends the
/// deletion with its message, prefixed by what failed. `parent` is the parent
/// of the album's path, where the step needs it. A finished deletion stays as
/// it is, and an event that the state does not wait for changes nothing.
pub open spec fn delete_transition(j: DeleteJobView, e: DeleteEventView, parent: Option<Seq<char>>) -> Option<
    (DeleteJobView, DeleteActionView),
> {
    match (j.step, e) {
        (DeleteStep::Done, _) => None,
        (_, DeleteEventView::Failed(m)) => Some(fail_with(j, failure_prefix(j.step) + m)),
        (DeleteStep::FindingAlbum, DeleteEventView::AlbumLookedUp(None)) => Some(
            (
                DeleteJobView { step: DeleteStep::Done, ..j },
                DeleteActionView::Finish(Err(not_found("Album not found"@))),
            ),
        ),
        (DeleteStep::FindingAlbum, DeleteEventView::AlbumLookedUp(Some(a))) => Some(
            match a.path {
                Some(p) => (
                    DeleteJobView { step: DeleteStep::CheckingAlbumDir, album: Some(a), ..j },
                    DeleteActionView::CheckExists { path: p },
                ),
                None => delete_records(DeleteJobView { album: Some(a), ..j }),
            },
        ),
        (DeleteStep::CheckingAlbumDir, DeleteEventView::PathExists(true)) => Some(
            (
                DeleteJobView { step: DeleteStep::RemovingAlbumDir, ..j },
                DeleteActionView::RemoveDirAll { path: j.album->0.path->0 },
            ),
        ),
        (DeleteStep::CheckingAlbumDir, DeleteEventView::PathExists(false)) => Some(
            after_album_dir(j, parent),
        ),
        (DeleteStep::RemovingAlbumDir, DeleteEventView::DirRemoved) => Some(
            after_album_dir(j, parent),
        ),
        (DeleteStep::CheckingParent, DeleteEventView::ParentIsDir(true)) => Some(
            (
                DeleteJobView { step: DeleteStep::CountingEntries, ..j },
                DeleteActionView::CountEntries { path: j.parent->0 },
            ),
        ),
        (DeleteStep::CheckingParent, DeleteEventView::ParentIsDir(false)) => Some(
            delete_records(j),
        ),
        (DeleteStep::CountingEntries, DeleteEventView::EntryCount(n)) => Some(
            if n == 0 {
                (
                    DeleteJobView { step: DeleteStep::RemovingParent, ..j },
                    DeleteActionView::RemoveDir { path: j.parent->0 },
                )
            } else {
                delete_records(j)
            },
        ),
        (DeleteStep::RemovingParent, DeleteEventView::ParentRemoved) => Some(delete_records(j)),
        (DeleteStep::DeletingRecords, DeleteEventView::RecordsDeleted) => Some(
            (DeleteJobView { step: DeleteStep::Done, ..j }, DeleteActionView::Finish(Ok(()))),
        ),
        _ => None,
    }
}

/// What the state of a deletion always holds: past the lookup the album is
/// known, its directory steps know its path, and the parent steps know the
/// parent.
pub open spec fn delete_wf(j: DeleteJobView) -> bool {
    &&& (match j.step {
        DeleteStep::FindingAlbum | DeleteStep::Done => true,
        _ => j.album is Some,
    })
    &&& (match j.step {
        DeleteStep::CheckingAlbumDir | DeleteStep::RemovingAlbumDir => j.album->0.path is Some,
        _ => true,
    })
    &&& (match j.step {
        DeleteStep::CheckingParent | DeleteStep::CountingEntries | DeleteStep::RemovingParent =>
            j.parent is Some,
        _ => true,
    })
}

/// `r` is what one step of the deletion `j` on the event `e` gives, when the
/// parent of the album's path is `parent`.
pub open spec fn step_outcome(
    j: DeleteJobView,
    e: DeleteEventView,
    parent: Option<Seq<char>>,
    r: Result<(DeleteJob, DeleteAction), DeleteJob>,
) -> bool {
    &&& (j.album matches Some(a) ==> (a.path matches Some(p) ==> parent_of(parent, p)))
    &&& match delete_transition(j, e, parent) {
        Some((n, a)) => r matches Ok((rj, ra)) && rj@ == n && ra@ == a,
        None => r matches Err(rj) && rj@ == j,
    }
}

/// Starts the deletion of a local album, as [`delete_start`] describes it.
pub fn start_delete(album_id: &str) -> (r: (DeleteJob, DeleteAction))
    ensures
        (r.0@, r.1@) == delete_start(album_id@),
        delete_wf(r.0@),
{
    (
        DeleteJob {
            album_id: String::from_str(album_id),
            step: DeleteStep::FindingAlbum,
            album: None,
            parent: None,
        },
        DeleteAction::FindAlbum { album_id: String::from_str(album_id) },
    )
}

fn clone_album(a: &Album) -> (r: Album)
    ensures
        r@ == a@,
{
    Album {
        id: a.id,
        jellyfin_id: a.jellyfin_id.clone(),
        title: a.title.clone(),
        artist: a.artist.clone(),
        downloaded: a.downloaded,
        path: crate::text::opt_string_clone(&a.path),
        image_id: crate::text::opt_string_clone(&a.image_id),
        image_path: crate::text::opt_string_clone(&a.image_path),
    }
}

impl DeleteJob {
    fn fail_with(self, message: String) -> (r: (DeleteJob, DeleteAction))
        ensures
            (r.0@, r.1@) == fail_with(self@, message@),
    {
        (
            DeleteJob { step: DeleteStep::Done, ..self },
            DeleteAction::Finish(Err(JellyfinError::GenericError(message))),
        )
    }

    fn delete_records(self) -> (r: (DeleteJob, DeleteAction))
        requires
            self.album is Some,
        ensures
            (r.0@, r.1@) == delete_records(self@),
    {
        let a = match &self.album {
            Some(a) => clone_album(a),
            None => Album {
                id: 0,
                jellyfin_id: String::new(),
                title: String::new(),
                artist: String::new(),
                downloaded: false,
                path: None,
                image_id: None,
                image_path: None,
            },
        };
        (DeleteJob { step: DeleteStep::DeletingRecords, ..self }, DeleteAction::DeleteRecords(a))
    }

    fn after_album_dir(self) -> (r: (DeleteJob, DeleteAction))
        requires
            self.album is Some,
            self@.album->0.path is Some,
        ensures
            exists|parent: Option<Seq<char>>|
                parent_of(parent, self@.album->0.path->0) && (r.0@, r.1@) == after_album_dir(
                    self@,
                    parent,
                ),
    {
        let path = match &self.album {
            Some(a) => match &a.path {
                Some(p) => p.clone(),
                None => String::new(),
            },
            None => String::new(),
        };
        let parent = path_parent(path.as_str());
        self.on_parent_found(parent)
    }

    /// Once the album's directory is gone, with `parent` as the parent of the
    /// album's path: the parent is checked, or the deletion fails when there is
    /// none, as [`after_album_dir`] describes it.
    pub fn on_parent_found(self, parent: Option<String>) -> (r: (DeleteJob, DeleteAction))
        ensures
            (r.0@, r.1@) == after_album_dir(self@, opt_view(parent)),
    {
        let ghost pv = opt_view(parent);
        match parent {
            Some(q) => {
                let r = (
                    DeleteJob { step: DeleteStep::CheckingParent, parent: Some(q.clone()), ..self },
                    DeleteAction::CheckIsDir { path: q },
                );
                assert((r.0@, r.1@) == after_album_dir(self@, pv));
                r
            },
            None => {
                let r = self.fail_with(String::from_str("Failed to get parent directory"));
                assert((r.0@, r.1@) == after_album_dir(self@, pv));
                r
            },
        }
    }

    /// Whether the state holds what [`delete_wf`] asks of it.
    pub fn is_well_formed(&self) -> (r: bool)
        ensures
            r == delete_wf(self@),
    {
        let album_ok = match self.step {
            DeleteStep::FindingAlbum | DeleteStep::Done => true,
            _ => self.album.is_some(),
        };
        let path_ok = match self.step {
            DeleteStep::CheckingAlbumDir | DeleteStep::RemovingAlbumDir => match &self.album {
                Some(a) => a.path.is_some(),
                None => false,
            },
            _ => true,
        };
        let parent_ok = match self.step {
            DeleteStep::CheckingParent | DeleteStep::CountingEntries | DeleteStep::RemovingParent =>
                self.parent.is_some(),
            _ => true,
        };
        album_ok && path_ok && parent_ok
    }

    /// One step of the deletion on the event that its last action produced, as
    /// [`delete_transition`] describes it, with the parent of the album's path
    /// as `std::path::Path::parent` finds it. `Err` gives the job back
    /// unchanged when the deletion has ended, the state does not wait for the
    /// event, or the state is not well formed. The next state is well formed.
    pub fn step(self, event: DeleteEvent) -> (r: Result<(DeleteJob, DeleteAction), DeleteJob>)
        ensures
            delete_wf(self@) ==> exists|parent: Option<Seq<char>>|
                #[trigger] step_outcome(self@, event@, parent, r),
            !delete_wf(self@) ==> (r matches Err(j) && j@ == self@),
            r matches Ok((j, _)) ==> delete_wf(j@),
    {
        if !self.is_well_formed() {
            return Err(self);
        }
        let ghost before = self@;
        let ghost ev = event@;
        let r = self.transition(event);
        proof {
            let parent = choose|parent: Option<Seq<char>>| #[trigger] step_outcome(before, ev, parent, r);
            lemma_delete_keeps_wf(before, ev, parent);
        }
        r
    }

    fn transition(self, event: DeleteEvent) -> (r: Result<(DeleteJob, DeleteAction), DeleteJob>)
        requires
            delete_wf(self@),
        ensures
            exists|parent: Option<Seq<char>>| #[trigger] step_outcome(self@, event@, parent, r),
    {
        let ghost before = self@;
        let ghost ev = event@;
        let ghost dp = if before.album is Some && before.album->0.path is Some {
            plain_parent(before.album->0.path->0)
        } else {
            None
        };
        proof {
            if before.album is Some && before.album->0.path is Some {
                lemma_plain_parent(before.album->0.path->0);
            }
        }
        if self.step == DeleteStep::Done {
            let r = Err(self);
            assert(step_outcome(before, ev, dp, r));
            return r;
        }
        match event {
            DeleteEvent::Failed(m) => {
                let prefix = match self.step {
                    DeleteStep::RemovingAlbumDir => String::from_str("Failed to delete album dir: "),
                    DeleteStep::CountingEntries => String::from_str("Failed to read dir: "),
                    DeleteStep::RemovingParent => String::from_str("Failed to delete parent dir: "),
                    _ => String::new(),
                };
                let message = prefix.concat(m.as_str());
                assert(message@ == failure_prefix(before.step) + m@);
                let r = self.fail_with(message);
                assert(step_outcome(before, ev, dp, Ok(r)));
                Ok(r)
            },
            DeleteEvent::AlbumLookedUp(found) => {
                if self.step != DeleteStep::FindingAlbum {
                    let r = Err(self);
                    assert(step_outcome(before, ev, dp, r));
                    return r;
                }
                match found {
                    None => {
                        let r = (
                            DeleteJob { step: DeleteStep::Done, ..self },
                            DeleteAction::Finish(
                                Err(
                                    JellyfinError::ApiError {
                                        status: NOT_FOUND,
                                        message: String::from_str("Album not found"),
                                    },
                                ),
                            ),
                        );
                        assert(step_outcome(before, ev, dp, Ok(r)));
                        Ok(r)
                    },
                    Some(a) => {
                        match &a.path {
                            Some(p) => {
                                let path = p.clone();
                                let r = (
                                    DeleteJob {
                                        step: DeleteStep::CheckingAlbumDir,
                                        album: Some(a),
                                        ..self
                                    },
                                    DeleteAction::CheckExists { path },
                                );
                                assert(step_outcome(before, ev, dp, Ok(r)));
                                Ok(r)
                            },
                            None => {
                                let job = DeleteJob { album: Some(a), ..self };
                                let r = job.delete_records();
                                assert(step_outcome(before, ev, dp, Ok(r)));
                                Ok(r)
                            },
                        }
                    },
                }
            },
            DeleteEvent::PathExists(exists) => {
                if self.step != DeleteStep::CheckingAlbumDir {
                    let r = Err(self);
                    assert(step_outcome(before, ev, dp, r));
                    return r;
                }
                if exists {
                    let path = match &self.album {
                        Some(a) => match &a.path {
                            Some(p) => p.clone(),
                            None => String::new(),
                        },
                        None => String::new(),
                    };
                    let r = (
                        DeleteJob { step: DeleteStep::RemovingAlbumDir, ..self },
                        DeleteAction::RemoveDirAll { path },
                    );
                    assert(step_outcome(before, ev, dp, Ok(r)));
                    Ok(r)
                } else {
                    let r = self.after_album_dir();
                    proof {
                        let parent = choose|parent: Option<Seq<char>>|
                            #[trigger] parent_of(parent, before.album->0.path->0) && (r.0@, r.1@)
                                == after_album_dir(before, parent);
                        assert(step_outcome(before, ev, parent, Ok(r)));
                    }
                    Ok(r)
                }
            },
            DeleteEvent::DirRemoved => {
                if self.step != DeleteStep::RemovingAlbumDir {
                    let r = Err(self);
                    assert(step_outcome(before, ev, dp, r));
                    return r;
                }
                let r = self.after_album_dir();
                proof {
                    let parent = choose|parent: Option<Seq<char>>|
                        #[trigger] parent_of(parent, before.album->0.path->0) && (r.0@, r.1@)
                            == after_album_dir(before, parent);
                    assert(step_outcome(before, ev, parent, Ok(r)));
                }
                Ok(r)
            },
            DeleteEvent::ParentIsDir(is_dir) => {
                if self.step != DeleteStep::CheckingParent {
                    let r = Err(self);
                    assert(step_outcome(before, ev, dp, r));
                    return r;
                }
                if is_dir {
                    let path = match &self.parent {
                        Some(q) => q.clone(),
                        None => String::new(),
                    };
                    let r = (
                        DeleteJob { step: DeleteStep::CountingEntries, ..self },
                        DeleteAction::CountEntries { path },
                    );
                    assert(step_outcome(before, ev, dp, Ok(r)));
                    Ok(r)
                } else {
                    let r = self.delete_records();
                    assert(step_outcome(before, ev, dp, Ok(r)));
                    Ok(r)
                }
            },
            DeleteEvent::EntryCount(n) => {
                if self.step != DeleteStep::CountingEntries {
                    let r = Err(self);
                    assert(step_outcome(before, ev, dp, r));
                    return r;
                }
                if n == 0 {
                    let path = match &self.parent {
                        Some(q) => q.clone(),
                        None => String::new(),
                    };
                    let r = (
                        DeleteJob { step: DeleteStep::RemovingParent, ..self },
                        DeleteAction::RemoveDir { path },
                    );
                    assert(step_outcome(before, ev, dp, Ok(r)));
                    Ok(r)
                } else {
                    let r = self.delete_records();
                    assert(step_outcome(before, ev, dp, Ok(r)));
                    Ok(r)
                }
            },
            DeleteEvent::ParentRemoved => {
                if self.step != DeleteStep::RemovingParent {
                    let r = Err(self);
                    assert(step_outcome(before, ev, dp, r));
                    return r;
                }
                let r = self.delete_records();
                assert(step_outcome(before, ev, dp, Ok(r)));
                Ok(r)
            },
            DeleteEvent::RecordsDeleted => {
                if self.step != DeleteStep::DeletingRecords {
                    let r = Err(self);
                    assert(step_outcome(before, ev, dp, r));
                    return r;
                }
                let r = (DeleteJob { step: DeleteStep::Done, ..self }, DeleteAction::Finish(Ok(())));
                assert(step_outcome(before, ev, dp, Ok(r)));
                Ok(r)
            },
        }
    }
}

// ---------------------------------------------------------------------------
// Laws of the deletion
// ---------------------------------------------------------------------------

/// Every step keeps a deletion well formed, and a deletion starts well formed.
pub proof fn lemma_delete_keeps_wf(j: DeleteJobView, e: DeleteEventView, parent: Option<Seq<char>>)
    requires
        delete_wf(j),
    ensures
        delete_wf(delete_start(j.album_id).0),
        delete_transition(j, e, parent) matches Some((n, _)) ==> delete_wf(n),
{
}

/// How far a deletion has come.
pub open spec fn delete_progress(step: DeleteStep) -> nat {
    match step {
        DeleteStep::FindingAlbum => 0,
        DeleteStep::CheckingAlbumDir => 1,
        DeleteStep::RemovingAlbumDir => 2,
        DeleteStep::CheckingParent => 3,
        DeleteStep::CountingEntries => 4,
        DeleteStep::RemovingParent => 5,
        DeleteStep::DeletingRecords => 6,
        DeleteStep::Done => 7,
    }
}

/// Every step that does something moves the deletion forward, so a deletion
/// asks for at most seven actions after its start; the outcome is reported
/// exactly when the deletion ends, and success only once the records are
/// deleted.
pub proof fn lemma_delete_progress_and_outcome(
    j: DeleteJobView,
    e: DeleteEventView,
    parent: Option<Seq<char>>,
)
    ensures
        delete_transition(j, e, parent) matches Some((n, a)) ==> {
            &&& delete_progress(n.step) > delete_progress(j.step)
            &&& (a is Finish <==> n.step == DeleteStep::Done)
            &&& (a == DeleteActionView::Finish(Ok(())) ==> (j.step == DeleteStep::DeletingRecords
                && e == DeleteEventView::RecordsDeleted))
        },
        j.step == DeleteStep::Done ==> delete_transition(j, e, parent) is None,
{
}

/// The deletion removes the album's directory only after finding that it
/// exists, removes the parent directory only after finding it empty, and
/// deletes the records only of the album it looked up.
pub proof fn lemma_delete_removes_only_what_it_checked(
    j: DeleteJobView,
    e: DeleteEventView,
    parent: Option<Seq<char>>,
)
    requires
        delete_wf(j),
    ensures
        delete_transition(j, e, parent) matches Some((n, a)) ==> {
            &&& (a is RemoveDirAll ==> (j.step == DeleteStep::CheckingAlbumDir && e
                == DeleteEventView::PathExists(true) && a->RemoveDirAll_path
                == j.album->0.path->0))
            &&& (a is RemoveDir ==> (j.step == DeleteStep::CountingEntries && e
                == DeleteEventView::EntryCount(0) && a->RemoveDir_path == j.parent->0))
            &&& (a matches DeleteActionView::DeleteRecords(x) ==> n.album == Some(x))
        },
{
}

/// Once the album's directory is gone (found missing, or removed), a deletion
/// whose album lies at a plain directory and an ordinary name goes on to check
/// that directory, the artist's, so as to remove it when it is empty.
pub proof fn lemma_artist_dir_checked(
    j: DeleteJobView,
    e: DeleteEventView,
    parent: Option<Seq<char>>,
    q: Seq<char>,
)
    requires
        j.album is Some,
        j.album->0.path is Some,
        plain_split(q, j.album->0.path->0),
        parent_of(parent, j.album->0.path->0),
        (j.step == DeleteStep::CheckingAlbumDir && e == DeleteEventView::PathExists(false)) || (
        j.step == DeleteStep::RemovingAlbumDir && e == DeleteEventView::DirRemoved),
    ensures
        delete_transition(j, e, parent) == Some(
            (
                DeleteJobView { step: DeleteStep::CheckingParent, parent: Some(q), ..j },
                DeleteActionView::CheckIsDir { path: q },
            ),
        ),
{
}

/// The album's records are deleted whether or not its artist directory is
/// still there: when the parent is missing or is not a directory, and when it
/// still holds entries, the deletion goes on to delete the album it looked up
/// (its records stay only if that deletion fails).
pub proof fn lemma_records_deleted_whatever_the_parent(
    j: DeleteJobView,
    e: DeleteEventView,
    parent: Option<Seq<char>>,
)
    requires
        (j.step == DeleteStep::CheckingParent && e == DeleteEventView::ParentIsDir(false)) || (
        j.step == DeleteStep::CountingEntries && (e matches DeleteEventView::EntryCount(n) && n > 0)),
    ensures
        delete_transition(j, e, parent) == Some(
            (
                DeleteJobView { step: DeleteStep::DeletingRecords, ..j },
                DeleteActionView::DeleteRecords(j.album->0),
            ),
        ),
{
}

/// A missing album is answered with "Album not found" and nothing is removed.
pub proof fn lemma_missing_album_not_found(j: DeleteJobView, parent: Option<Seq<char>>)
    requires
        j.step == DeleteStep::FindingAlbum,
    ensures
        delete_transition(j, DeleteEventView::AlbumLookedUp(None), parent) == Some(
            (
                DeleteJobView { step: DeleteStep::Done, ..j },
                DeleteActionView::Finish(Err(not_found("Album not found"@))),
            ),
        ),
{
}

} // verus!
