//! The internal API: its resource kinds and documents, the updates it
//! queues, and the paths under the downloads directory it reads.
use vstd::prelude::*;
use crate::entity::{UpdateArtistType, Uuid};
use crate::text::{copy_string, to_owned_string};

verus! {

/// The kinds of resources only the internal API serves.
#[derive(PartialEq, Eq, Structural, Clone, Copy, Debug)]
pub enum InternalResourceType {
    Directory,
    Import,
}

/// The kinds of resources the internal API serves: its own and those of the
/// public API.
#[derive(PartialEq, Eq, Structural, Clone, Copy, Debug)]
pub enum ResourceType {
    Internal(InternalResourceType),
    Tempo(crate::documents::ResourceType),
}

/// A file in a directory listing, with its size in bytes.
pub struct FileEntry {
    pub name: String,
    pub path: String,
    pub size: u64,
}

/// A directory and the files in it.
pub struct DirectoryAttributes {
    pub name: String,
    pub path: String,
    pub files: Vec<FileEntry>,
}

/// The relationships of a directory.
#[derive(PartialEq, Eq, Structural, Clone, Copy, Debug, Hash)]
pub enum DirectoryRelation {
    Directories,
}

/// The extra information an import resource can carry; imports carry
/// none.
pub struct ImportMeta {}

/// What an import shows: what its files hold, the covers and the releases
/// it found with their ratings, the choices made, and when it started and
/// ended, in nanoseconds since the Unix epoch. `R` is the type of a cover's
/// rating.
pub struct ImportAttributes<R> {
    pub source_release: crate::entity::InternalRelease,
    pub source_tracks: Vec<crate::entity::InternalTrack>,
    pub covers: Vec<crate::entity::Cover>,
    pub release_matches: std::collections::HashMap<Uuid, crate::entity::ReleaseRating>,
    pub cover_ratings: Vec<R>,
    pub selected_release: Option<Uuid>,
    pub selected_cover: Option<i32>,
    pub started_at: i128,
    pub ended_at: Option<i128>,
}

/// A request to import the files of a directory.
pub struct InsertImportAttributes {
    pub directory: String,
}

/// A request to choose the release an import is matched with.
pub struct UpdateImportRelease {
    pub selected_release: Uuid,
}

/// A request to choose the cover an import uses.
pub struct UpdateImportCover {
    pub selected_cover: i32,
}

/// The changes a request may make to an import.
pub enum UpdateImportAttributes {
    Release(UpdateImportRelease),
    Cover(UpdateImportCover),
}

/// The relationships of an import.
#[derive(PartialEq, Eq, Structural, Clone, Copy, Debug, Hash)]
pub enum ImportRelation {
    Directory,
    Releases,
    Mediums,
    Tracks,
    Artists,
}

/// A request to begin an import of the files under a path.
pub struct ImportBegin {
    pub path: String,
}

/// A request to list a directory under the downloads directory.
pub struct ListRequest {
    pub path: Option<String>,
}

/// Whether a listed entry is a file or a directory.
#[derive(PartialEq, Eq, Structural, Clone, Copy, Debug)]
pub enum EntryType {
    File,
    Directory,
}

/// What a task is related to: the job it belongs to.
pub struct TaskRelated {
    pub job: i64,
}

/// The kinds of background tasks.
#[derive(PartialEq, Eq, Structural, Clone, Copy, Debug)]
pub enum TaskName {
    Scrobble,
    ArtistUrl,
    IndexSearch,
    ArtistDescription,
    LastFMArtistImage,
    ImportFetch,
    ImportFetchRelease,
    ImportRankReleases,
    ImportFetchCovers,
    ImportRankCovers,
    ImportPopulate,
    ImportTrack,
}

/// The updates that are not about artists.
#[derive(PartialEq, Eq, Structural, Clone, Copy, Debug)]
pub enum OtherUpdateType {
    All,
    IndexSearch,
}

/// The updates that can be asked for.
#[derive(PartialEq, Eq, Structural, Clone, Copy, Debug)]
pub enum UpdateType {
    Artist(UpdateArtistType),
    Other(OtherUpdateType),
}

/// Why an update could not be queued: the message of the error met while
/// fetching what to update.
pub enum UpdateError {
    Fetcher(String),
}

/// The single updates an update stands for: every kind of update for
/// `All`, else the update itself.
pub open spec fn unpack_all_spec(u: UpdateType) -> Seq<UpdateType> {
    match u {
        UpdateType::Other(OtherUpdateType::All) => seq![
            UpdateType::Artist(UpdateArtistType::ArtistUrl),
            UpdateType::Artist(UpdateArtistType::ArtistDescription),
            UpdateType::Artist(UpdateArtistType::LastFMArtistImage),
            UpdateType::Other(OtherUpdateType::IndexSearch),
        ],
        _ => seq![u],
    }
}

/// The single updates an update stands for.
pub fn unpack_all(update_type: UpdateType) -> (r: Vec<UpdateType>)
    ensures
        r@ == unpack_all_spec(update_type),
{
    match update_type {
        UpdateType::Other(OtherUpdateType::All) => {
            let mut v: Vec<UpdateType> = Vec::new();
            v.push(UpdateType::Artist(UpdateArtistType::ArtistUrl));
            v.push(UpdateType::Artist(UpdateArtistType::ArtistDescription));
            v.push(UpdateType::Artist(UpdateArtistType::LastFMArtistImage));
            v.push(UpdateType::Other(OtherUpdateType::IndexSearch));
            assert(v@ =~= unpack_all_spec(update_type));
            v
        },
        u => {
            let mut v: Vec<UpdateType> = Vec::new();
            v.push(u);
            assert(v@ =~= unpack_all_spec(update_type));
            v
        },
    }
}

/// The task kind that performs a single update.
pub open spec fn update_task_spec(u: UpdateType) -> Option<TaskName> {
    match u {
        UpdateType::Artist(UpdateArtistType::ArtistUrl) => Some(TaskName::ArtistUrl),
        UpdateType::Artist(UpdateArtistType::ArtistDescription) => Some(TaskName::ArtistDescription),
        UpdateType::Artist(UpdateArtistType::LastFMArtistImage) => Some(TaskName::LastFMArtistImage),
        UpdateType::Other(OtherUpdateType::IndexSearch) => Some(TaskName::IndexSearch),
        UpdateType::Other(OtherUpdateType::All) => None,
    }
}

/// The task kind that performs a single update; `None` for `All`, which is
/// unpacked first.
pub fn update_task(u: UpdateType) -> (r: Option<TaskName>)
    ensures
        r == update_task_spec(u),
{
    match u {
        UpdateType::Artist(UpdateArtistType::ArtistUrl) => Some(TaskName::ArtistUrl),
        UpdateType::Artist(UpdateArtistType::ArtistDescription) => Some(TaskName::ArtistDescription),
        UpdateType::Artist(UpdateArtistType::LastFMArtistImage) => Some(TaskName::LastFMArtistImage),
        UpdateType::Other(OtherUpdateType::IndexSearch) => Some(TaskName::IndexSearch),
        UpdateType::Other(OtherUpdateType::All) => None,
    }
}

/// Every update that unpacking gives is performed by some task kind, so the
/// handlers never meet an update they cannot queue.
pub proof fn lemma_unpacked_updates_have_tasks(u: UpdateType)
    ensures
        forall|i: int|
            0 <= i < unpack_all_spec(u).len() ==> (#[trigger] update_task_spec(unpack_all_spec(u)[i])) is Some,
{
}

/// Whether a path is relative: on Unix, whether it does not start at the
/// root.
pub open spec fn is_relative_spec(path: Seq<char>) -> bool {
    !(path.len() > 0 && path[0] == '/')
}

/// Whether a Unix path is relative, as `Path::is_relative` decides it: it
/// does not start at the root.
fn path_is_relative(path: &str) -> (r: bool)
    ensures
        r == is_relative_spec(path@),
{
    let n = path.unicode_len();
    !(n > 0 && path.get_char(0) == '/')
}

/// `base` joined with the relative path `rel`: a separator between them
/// unless `base` is empty or already ends with one.
pub open spec fn join_spec(base: Seq<char>, rel: Seq<char>) -> Seq<char> {
    if base.len() == 0 || base.last() == '/' {
        base + rel
    } else {
        base + seq!['/'] + rel
    }
}

/// A relative Unix path joined onto a base as `Path::join` does it: after
/// a separator, which is added when the base is not empty and does not end
/// with one.
fn path_join(base: &str, rel: &str) -> (r: String)
    requires
        is_relative_spec(rel@),
    ensures
        r@ == join_spec(base@, rel@),
{
    let mut joined = crate::text::to_owned_string(base);
    let n = base.unicode_len();
    if !(n == 0 || base.get_char(n - 1) == '/') {
        joined.append("/");
        proof {
            reveal_strlit("/");
        }
    }
    joined.append(rel);
    joined
}

/// The directory a download path stands for: the downloads directory when
/// none is given, the given path under it when that is relative; an
/// absolute path is refused.
pub fn abs_path(downloads: &str, path: Option<String>) -> (r: Result<String, crate::api_error::Error>)
    ensures
        match path {
            None => r is Ok && r->Ok_0@ == downloads@,
            Some(p) => if is_relative_spec(p@) {
                r is Ok && r->Ok_0@ == join_spec(downloads@, p@)
            } else {
                r is Err && (r->Err_0 matches crate::api_error::Error::BadRequest(Some(m))
                    && m@ == "Path is not relative"@)
            },
        },
{
    match path {
        None => Ok(to_owned_string(downloads)),
        Some(p) => if path_is_relative(p.as_str()) {
            Ok(path_join(downloads, p.as_str()))
        } else {
            Err(crate::api_error::Error::BadRequest(Some(to_owned_string("Path is not relative"))))
        },
    }
}

/// The directory a listing request is for: the given path under the
/// downloads directory when it is relative, else the downloads directory.
pub fn list_path(root: &str, request: &ListRequest) -> (r: String)
    ensures
        r@ == match request.path {
            Some(p) => if is_relative_spec(p@) { join_spec(root@, p@) } else { root@ },
            None => root@,
        },
{
    match &request.path {
        Some(p) => if path_is_relative(p.as_str()) {
            path_join(root, p.as_str())
        } else {
            to_owned_string(root)
        },
        None => to_owned_string(root),
    }
}

/// The recurring jobs the scheduler runs.
#[derive(PartialEq, Eq, Structural, Clone, Copy, Debug)]
pub enum JobType {
    ArtistUrl,
    ArtistDescription,
    IndexSearch,
    LastFMArtistImage,
}

/// The kind of the tasks a recurring job queues.
pub open spec fn job_task_spec(job: JobType) -> TaskName {
    match job {
        JobType::ArtistUrl => TaskName::ArtistUrl,
        JobType::ArtistDescription => TaskName::ArtistDescription,
        JobType::IndexSearch => TaskName::IndexSearch,
        JobType::LastFMArtistImage => TaskName::LastFMArtistImage,
    }
}

/// The kind of the tasks a recurring job queues.
pub fn job_task_name(job: JobType) -> (r: TaskName)
    ensures
        r == job_task_spec(job),
{
    match job {
        JobType::ArtistUrl => TaskName::ArtistUrl,
        JobType::ArtistDescription => TaskName::ArtistDescription,
        JobType::IndexSearch => TaskName::IndexSearch,
        JobType::LastFMArtistImage => TaskName::LastFMArtistImage,
    }
}

/// A task to be queued: its kind, its payload, the ids of the tasks it
/// waits for and how long it may run, in seconds.
pub struct InsertTask<P> {
    pub name: TaskName,
    pub payload: Option<P>,
    pub depends_on: Vec<String>,
    pub duration_seconds: i64,
}

/// One task of the given kind for each value, in order, each carrying the
/// value as its payload, waiting for nothing and allowed a minute.
pub fn map_insert_task<P>(name: TaskName, values: Vec<P>) -> (r: Vec<InsertTask<P>>)
    ensures
        r@.len() == values@.len(),
        forall|i: int| 0 <= i < r@.len() ==> {
            &&& (#[trigger] r@[i]).name == name
            &&& r@[i].payload == Some(values@[i])
            &&& r@[i].depends_on@.len() == 0
            &&& r@[i].duration_seconds == 60
        },
{
    let ghost src = values@;
    let mut rest = values;
    let mut out: Vec<InsertTask<P>> = Vec::new();
    let ghost mut done: int = 0;
    while rest.len() > 0
        invariant
            0 <= done <= src.len(),
            rest@ == src.skip(done),
            out@.len() == done,
            forall|i: int| 0 <= i < done ==> {
                &&& (#[trigger] out@[i]).name == name
                &&& out@[i].payload == Some(src[i])
                &&& out@[i].depends_on@.len() == 0
                &&& out@[i].duration_seconds == 60
            },
        decreases rest.len(),
    {
        let v = rest.remove(0);
        assert(v == src[done]);
        out.push(InsertTask { name, payload: Some(v), depends_on: Vec::new(), duration_seconds: 60 });
        proof {
            done = done + 1;
        }
        assert(rest@ =~= src.skip(done));
    }
    out
}

/// The tasks a run of a recurring job queues: one of the job's kind for
/// each value fetched for it, in order.
pub fn scheduled_tasks<P>(job: JobType, data: Vec<P>) -> (r: Vec<InsertTask<P>>)
    ensures
        r@.len() == data@.len(),
        forall|i: int| 0 <= i < r@.len() ==> {
            &&& (#[trigger] r@[i]).name == job_task_spec(job)
            &&& r@[i].payload == Some(data@[i])
            &&& r@[i].depends_on@.len() == 0
            &&& r@[i].duration_seconds == 60
        },
{
    map_insert_task(job_task_name(job), data)
}

/// The change an accepted edit makes to an import.
#[derive(PartialEq, Eq, Structural, Clone, Copy, Debug)]
pub enum ImportEdit {
    /// The release the import is matched with; its covers are fetched anew.
    SelectRelease(Uuid),
    /// The cover the import uses.
    SelectCover(i32),
}

/// Whether the cover count, as an `i32`, has a cover at the index.
pub open spec fn cover_exists(selected: i32, covers_len: usize) -> bool {
    0 <= selected && selected < (covers_len as i32)
}

/// Checks an edit of an import against the import's releases and number
/// of covers: a release can be chosen only among the import's releases, a
/// cover only by an index below the number of covers; otherwise the edit
/// is a bad request.
pub fn edit_plan(update: &UpdateImportAttributes, release_ids: &Vec<Uuid>, covers_len: usize) -> (r: Result<ImportEdit, crate::api_error::Error>)
    ensures
        match *update {
            UpdateImportAttributes::Release(u) => if release_ids@.contains(u.selected_release) {
                r == Ok::<ImportEdit, crate::api_error::Error>(ImportEdit::SelectRelease(u.selected_release))
            } else {
                r matches Err(crate::api_error::Error::BadRequest(Some(m))) && m@ == "Cannot select a non-existant release"@
            },
            UpdateImportAttributes::Cover(u) => if cover_exists(u.selected_cover, covers_len) {
                r == Ok::<ImportEdit, crate::api_error::Error>(ImportEdit::SelectCover(u.selected_cover))
            } else {
                r matches Err(crate::api_error::Error::BadRequest(Some(m))) && m@ == "Cannot select a non-existant cover"@
            },
        },
{
    match update {
        UpdateImportAttributes::Release(u) => {
            let mut i: usize = 0;
            while i < release_ids.len()
                invariant
                    i <= release_ids@.len(),
                    *update == UpdateImportAttributes::Release(*u),
                    forall|k: int| 0 <= k < i ==> release_ids@[k] != u.selected_release,
                decreases release_ids.len() - i,
            {
                if release_ids[i] == u.selected_release {
                    assert(release_ids@[i as int] == u.selected_release);
                    return Ok(ImportEdit::SelectRelease(u.selected_release));
                }
                i = i + 1;
            }
            Err(crate::api_error::Error::BadRequest(Some(to_owned_string("Cannot select a non-existant release"))))
        },
        UpdateImportAttributes::Cover(u) => {
            let count = #[verifier::truncate] (covers_len as i32);
            if u.selected_cover < 0 || u.selected_cover >= count {
                Err(crate::api_error::Error::BadRequest(Some(to_owned_string("Cannot select a non-existant cover"))))
            } else {
                Ok(ImportEdit::SelectCover(u.selected_cover))
            }
        },
    }
}

/// The number of workers that run background tasks: as many as the
/// settings ask for, and at least one.
pub fn worker_count(configured: usize) -> (r: usize)
    ensures
        r == if configured >= 1 { configured } else { 1 },
{
    if configured >= 1 { configured } else { 1 }
}

/// What a worker of the task queue learns while it works.
#[derive(PartialEq, Eq, Structural, Clone, Copy, Debug)]
pub enum WorkerEvent {
    /// The task ran to the end without error.
    Completed,
    /// The task ended with an error.
    Failed,
    /// The task's result was lost.
    ChannelClosed,
    /// The task did not end before its deadline.
    TimedOut,
    /// No task could be taken from the queue.
    PopFailed,
}

/// What a worker does next.
#[derive(PartialEq, Eq, Structural, Clone, Copy, Debug)]
pub enum WorkerAction {
    /// Report the task complete to the queue, then take the next task.
    ReportComplete,
    /// Take the next task without reporting this one.
    Next,
    /// Stop working.
    Stop,
}

/// The next step of a worker: a task that ran to the end is reported
/// complete, a task that failed, lost its result or ran out of time is
/// not, and a worker that cannot take a task stops.
pub fn worker_step(event: WorkerEvent) -> (r: WorkerAction)
    ensures
        r == match event {
            WorkerEvent::Completed => WorkerAction::ReportComplete,
            WorkerEvent::PopFailed => WorkerAction::Stop,
            _ => WorkerAction::Next,
        },
{
    match event {
        WorkerEvent::Completed => WorkerAction::ReportComplete,
        WorkerEvent::PopFailed => WorkerAction::Stop,
        _ => WorkerAction::Next,
    }
}

} // verus!
