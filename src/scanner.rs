//! The scanner's decisions: which scan jobs run, and the folder and file
//! records that a directory entry becomes.

use vstd::prelude::*;
use crate::db::{File, FilescanJob, Folder};
use crate::errors::FixMyLibErrors;
use crate::time::Timestamp;

verus! {

/// What `std::path::Path::file_stem` gives for a path.
pub uninterp spec fn path_file_stem(p: Seq<char>) -> Option<Seq<char>>;

/// What `std::path::Path::extension` gives for a path.
pub uninterp spec fn path_extension(p: Seq<char>) -> Option<Seq<char>>;

/// What `std::path::Path::parent` gives for a path.
pub uninterp spec fn path_parent(p: Seq<char>) -> Option<Seq<char>>;

/// What `std::path::Path::file_name` gives for a path.
pub uninterp spec fn path_file_name(p: Seq<char>) -> Option<Seq<char>>;

/// What `std::path::Path::strip_prefix` gives for a path and a base.
pub uninterp spec fn path_strip_prefix(p: Seq<char>, base: Seq<char>) -> Option<Seq<char>>;

/// What `str::to_lowercase` gives for a string.
pub uninterp spec fn lower_of(s: Seq<char>) -> Seq<char>;

/// Relies on `std::path::Path::file_stem`: the file name without its last
/// extension, if the path has a file name.
#[verifier::external_body]
fn file_stem_of(p: &str) -> (r: Option<String>)
    ensures
        r matches Some(s) ==> path_file_stem(p@) == Some(s@),
        r is None ==> path_file_stem(p@) is None,
{
    match std::path::Path::new(p).file_stem() {
        Some(s) => Some(s.to_string_lossy().into_owned()),
        None => None,
    }
}

/// Relies on `std::path::Path::extension`: what follows the last `.` of
/// the file name, if there is one.
#[verifier::external_body]
fn extension_of(p: &str) -> (r: Option<String>)
    ensures
        r matches Some(s) ==> path_extension(p@) == Some(s@),
        r is None ==> path_extension(p@) is None,
{
    match std::path::Path::new(p).extension() {
        Some(s) => Some(s.to_string_lossy().into_owned()),
        None => None,
    }
}

/// Relies on `std::path::Path::parent`: the path without its last
/// component, if it has one.
#[verifier::external_body]
fn parent_of(p: &str) -> (r: Option<String>)
    ensures
        r matches Some(s) ==> path_parent(p@) == Some(s@),
        r is None ==> path_parent(p@) is None,
{
    match std::path::Path::new(p).parent() {
        Some(s) => Some(s.to_string_lossy().into_owned()),
        None => None,
    }
}

/// Relies on `std::path::Path::file_name`: the last component of the path,
/// unless it is `..`.
#[verifier::external_body]
fn file_name_of(p: &str) -> (r: Option<String>)
    ensures
        r matches Some(s) ==> path_file_name(p@) == Some(s@),
        r is None ==> path_file_name(p@) is None,
{
    match std::path::Path::new(p).file_name() {
        Some(s) => Some(s.to_string_lossy().into_owned()),
        None => None,
    }
}

/// Relies on `std::path::Path::strip_prefix`: the path relative to `base`,
/// when `base` is made of its leading components.
#[verifier::external_body]
fn strip_prefix_of(p: &str, base: &str) -> (r: Option<String>)
    ensures
        r matches Some(s) ==> path_strip_prefix(p@, base@) == Some(s@),
        r is None ==> path_strip_prefix(p@, base@) is None,
{
    match std::path::Path::new(p).strip_prefix(base) {
        Ok(s) => Some(s.to_string_lossy().into_owned()),
        Err(_) => None,
    }
}

/// Relies on `str::to_lowercase`: the lowercase form of each character; an
/// empty string stays empty.
#[verifier::external_body]
pub(crate) fn lowercase(s: &str) -> (r: String)
    ensures
        r@ == lower_of(s@),
        s@.len() == 0 ==> r@.len() == 0,
{
    s.to_lowercase()
}

/// Relies on `uuid::Uuid::new_v4`: a random identifier, as a number.
#[verifier::external_body]
fn new_scan_id() -> (r: u128) {
    uuid::Uuid::new_v4().as_u128()
}

/// A directory entry met by a walk below `root`: its path, its size and
/// when it was last modified.
#[derive(Debug, Clone, PartialEq)]
pub struct EntryProperties {
    pub full_path: String,
    pub root: String,
    pub size: u64,
    pub modified_at: Timestamp,
}

/// The file record an entry becomes in the scan with `job_id` at `now`.
pub open spec fn file_from(f: File, e: EntryProperties, job_id: u128, now: Timestamp) -> bool {
    &&& f.file_full_path@ == e.full_path@
    &&& path_parent(e.full_path@) == Some(f.folder_full_path@)
    &&& path_strip_prefix(e.full_path@, e.root@) == Some(f.path@)
    &&& f.size == e.size as i64
    &&& path_file_stem(e.full_path@) == Some(f.stem@)
    &&& (path_extension(e.full_path@) matches Some(x) && f.extension@ == lower_of(x))
    &&& path_file_name(e.full_path@) == Some(f.name@)
    &&& !f.has_been_processed
    &&& f.created_at == now
    &&& f.updated_at == now
    &&& f.file_modified_at == e.modified_at
    &&& f.job_id == job_id
}

/// The entry's path has every part a file record needs.
pub open spec fn is_complete_file_path(e: EntryProperties) -> bool {
    &&& path_parent(e.full_path@) is Some
    &&& path_strip_prefix(e.full_path@, e.root@) is Some
    &&& path_file_stem(e.full_path@) is Some
    &&& path_extension(e.full_path@) is Some
    &&& path_file_name(e.full_path@) is Some
}

impl EntryProperties {
    pub fn filesize(&self) -> (r: u64)
        ensures
            r == self.size,
    {
        self.size
    }

    pub fn modified_date(&self) -> (r: Timestamp)
        ensures
            r == self.modified_at,
    {
        self.modified_at
    }

    pub fn full_path(&self) -> (r: String)
        ensures
            r@ == self.full_path@,
    {
        self.full_path.clone()
    }

    /// The path relative to the scan root.
    pub fn path(&self) -> (r: Result<String, FixMyLibErrors>)
        ensures
            r matches Ok(s) ==> path_strip_prefix(self.full_path@, self.root@) == Some(s@),
            r is Err ==> path_strip_prefix(self.full_path@, self.root@) is None && r->Err_0 is PathParsing,
    {
        match strip_prefix_of(self.full_path.as_str(), self.root.as_str()) {
            Some(p) => Ok(p),
            None => Err(FixMyLibErrors::PathParsing("prefix not found".to_owned())),
        }
    }

    pub fn parent_folder_full_path(&self) -> (r: Result<String, FixMyLibErrors>)
        ensures
            r matches Ok(s) ==> path_parent(self.full_path@) == Some(s@),
            r is Err ==> path_parent(self.full_path@) is None && r->Err_0 is PathParsing,
    {
        match parent_of(self.full_path.as_str()) {
            Some(p) => Ok(p),
            None => Err(FixMyLibErrors::PathParsing("failure obtaining parent_folder".to_owned())),
        }
    }

    pub fn stem(&self) -> (r: Result<String, FixMyLibErrors>)
        ensures
            r matches Ok(s) ==> path_file_stem(self.full_path@) == Some(s@),
            r is Err ==> r->Err_0 is PathParsing && (path_file_stem(self.full_path@) is None
                || path_strip_prefix(self.full_path@, self.root@) is None),
    {
        match file_stem_of(self.full_path.as_str()) {
            Some(s) => Ok(s),
            None => {
                let p = self.path()?;
                Err(FixMyLibErrors::PathParsing("No filestem found for ".to_owned().concat(p.as_str())))
            },
        }
    }

    pub fn filename(&self) -> (r: Result<String, FixMyLibErrors>)
        ensures
            r matches Ok(s) ==> path_file_name(self.full_path@) == Some(s@),
            r is Err ==> r->Err_0 is PathParsing && (path_file_name(self.full_path@) is None
                || path_strip_prefix(self.full_path@, self.root@) is None),
    {
        match file_name_of(self.full_path.as_str()) {
            Some(s) => Ok(s),
            None => {
                let p = self.path()?;
                Err(
                    FixMyLibErrors::PathParsing(
                        "Failure parsing filename for ".to_owned().concat(p.as_str()),
                    ),
                )
            },
        }
    }

    /// The extension, in lower case.
    pub fn extension(&self) -> (r: Result<String, FixMyLibErrors>)
        ensures
            r matches Ok(s) ==> (path_extension(self.full_path@) matches Some(x) && s@ == lower_of(x)),
            r is Err ==> r->Err_0 is PathParsing && (path_extension(self.full_path@) is None
                || path_strip_prefix(self.full_path@, self.root@) is None),
    {
        match extension_of(self.full_path.as_str()) {
            Some(x) => Ok(lowercase(x.as_str())),
            None => {
                let p = self.path()?;
                Err(FixMyLibErrors::PathParsing("No extension found for ".to_owned().concat(p.as_str())))
            },
        }
    }

    /// The file record of this entry in the scan with `job_id`, made at
    /// `now`; an error when the path lacks a part.
    pub fn to_file(&self, job_id: u128, now: Timestamp) -> (r: Result<File, FixMyLibErrors>)
        ensures
            r matches Ok(f) ==> file_from(f, *self, job_id, now),
            r is Ok <==> is_complete_file_path(*self),
            r is Err ==> r->Err_0 is PathParsing,
    {
        let file_full_path = self.full_path();
        let folder_full_path = self.parent_folder_full_path()?;
        let path = self.path()?;
        #[verifier::truncate]
        let size: i64 = self.filesize() as i64;
        let stem = self.stem()?;
        let extension = self.extension()?;
        let name = self.filename()?;
        Ok(
            File {
                file_full_path,
                folder_full_path,
                path,
                size,
                stem,
                extension,
                name,
                has_been_processed: false,
                created_at: now,
                updated_at: now,
                file_modified_at: self.modified_date(),
                job_id,
            },
        )
    }
}

/// The folder record an entry becomes in the scan with `job_id`: a folder
/// already known keeps its record and takes the new job; a new one is made
/// from the entry, the scan root being its own parent.
pub open spec fn folder_from(f: Folder, existing: Option<Folder>, e: EntryProperties, job_id: u128) -> bool {
    match existing {
        Some(old) => f == (Folder { job_id, ..old }),
        None => {
            &&& f.folder_full_path@ == e.full_path@
            &&& path_strip_prefix(e.full_path@, e.root@) == Some(f.path@)
            &&& path_file_name(e.full_path@) == Some(f.name@)
            &&& if e.full_path@ == e.root@ {
                f.parent_folder_full_path@ == e.full_path@
            } else {
                path_parent(e.full_path@) == Some(f.parent_folder_full_path@)
            }
            &&& f.job_id == job_id
        },
    }
}

/// The folder record of a directory entry, given the record the store
/// already holds for its path, if any.
pub fn folder_for_entry(existing: Option<Folder>, entry: &EntryProperties, job_id: u128) -> (r: Result<Folder, FixMyLibErrors>)
    ensures
        r matches Ok(f) ==> folder_from(f, existing, *entry, job_id),
        existing is Some ==> r is Ok,
        existing is None ==> (r is Ok <==> (path_strip_prefix(entry.full_path@, entry.root@) is Some
            && path_file_name(entry.full_path@) is Some && (entry.full_path@ == entry.root@
            || path_parent(entry.full_path@) is Some))),
        r is Err ==> r->Err_0 is PathParsing,
{
    match existing {
        Some(folder) => Ok(Folder { job_id, ..folder }),
        None => {
            let full_path = entry.full_path();
            let parent_folder_full_path = if full_path == entry.root {
                entry.full_path()
            } else {
                entry.parent_folder_full_path()?
            };
            let path = entry.path()?;
            let name = entry.filename()?;
            Ok(Folder { folder_full_path: full_path, path, name, parent_folder_full_path, job_id })
        },
    }
}

/// A new scan of `root`, started at `now`.
pub fn new_scan_job(root: &str, now: Timestamp) -> (r: FilescanJob)
    ensures
        r.full_path@ == root@,
        r.created_at == now,
        r.finished_at is None,
{
    FilescanJob { id: new_scan_id(), full_path: root.to_owned(), created_at: now, finished_at: None }
}

/// The scan jobs to run: the unfinished ones, in order; when there are
/// none, a new scan of the input folder, which is also returned as the job
/// to store before it runs.
pub fn scan_jobs_to_run(unfinished: Vec<FilescanJob>, input_folder: &str, now: Timestamp) -> (r: (Vec<FilescanJob>, Option<FilescanJob>))
    ensures
        unfinished@.len() > 0 ==> r.0 == unfinished && r.1 is None,
        unfinished@.len() == 0 ==> {
            &&& r.0@.len() == 1
            &&& r.1 == Some(r.0@[0])
            &&& r.0@[0].full_path@ == input_folder@
            &&& r.0@[0].created_at == now
            &&& r.0@[0].finished_at is None
        },
{
    if unfinished.len() > 0 {
        (unfinished, None)
    } else {
        let job = new_scan_job(input_folder, now);
        let stored = job.duplicate();
        let mut jobs: Vec<FilescanJob> = Vec::new();
        jobs.push(job);
        (jobs, Some(stored))
    }
}

/// The job marked finished at `now`.
pub fn finished_scan_job(job: FilescanJob, now: Timestamp) -> (r: FilescanJob)
    ensures
        r == (FilescanJob { finished_at: Some(now), ..job }),
{
    FilescanJob { finished_at: Some(now), ..job }
}

/// Scanning twice with nothing changed on disk gives the same records but
/// for the scan's job and the time the file record was made: a folder seen
/// again keeps its record apart from the job, and a file's record differs
/// only in `job_id`, `created_at` and `updated_at` (the store keeps the
/// first `created_at`).
pub proof fn lemma_rescan_keeps_records(
    e: EntryProperties,
    first_folder: Folder,
    second_folder: Folder,
    first_file: File,
    second_file: File,
    job1: u128,
    job2: u128,
    now1: Timestamp,
    now2: Timestamp,
)
    requires
        folder_from(first_folder, None, e, job1),
        folder_from(second_folder, Some(first_folder), e, job2),
        file_from(first_file, e, job1, now1),
        file_from(second_file, e, job2, now2),
    ensures
        second_folder == (Folder { job_id: job2, ..first_folder }),
        second_file.file_full_path@ == first_file.file_full_path@,
        second_file.folder_full_path@ == first_file.folder_full_path@,
        second_file.path@ == first_file.path@,
        second_file.size == first_file.size,
        second_file.stem@ == first_file.stem@,
        second_file.extension@ == first_file.extension@,
        second_file.name@ == first_file.name@,
        second_file.has_been_processed == first_file.has_been_processed,
        second_file.file_modified_at == first_file.file_modified_at,
        second_file.job_id == job2,
        second_file.created_at == now2,
        second_file.updated_at == now2,
{
}

} // verus!
