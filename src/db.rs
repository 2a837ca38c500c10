//! The catalogue's records: folders, files, scan jobs and file jobs.

use vstd::prelude::*;
use crate::time::Timestamp;

verus! {

/// Copies an optional string.
pub fn duplicate_text(o: &Option<String>) -> (r: Option<String>)
    ensures
        r == *o,
{
    match o {
        Some(s) => Some(s.clone()),
        None => None,
    }
}

/// A regular file found under the input tree.
#[derive(Debug, PartialEq, Clone)]
pub struct File {
    pub file_full_path: String,
    pub folder_full_path: String,
    pub path: String,
    pub size: i64,
    pub stem: String,
    pub extension: String,
    pub name: String,
    pub has_been_processed: bool,
    pub created_at: Timestamp,
    pub updated_at: Timestamp,
    pub file_modified_at: Timestamp,
    pub job_id: u128,
}

impl File {
    pub fn duplicate(&self) -> (r: File)
        ensures
            r == *self,
    {
        File {
            file_full_path: self.file_full_path.clone(),
            folder_full_path: self.folder_full_path.clone(),
            path: self.path.clone(),
            size: self.size,
            stem: self.stem.clone(),
            extension: self.extension.clone(),
            name: self.name.clone(),
            has_been_processed: self.has_been_processed,
            created_at: self.created_at,
            updated_at: self.updated_at,
            file_modified_at: self.file_modified_at,
            job_id: self.job_id,
        }
    }
}

/// A directory found under the input tree. The scan root is its own parent.
#[derive(Debug, PartialEq, Clone)]
pub struct Folder {
    pub folder_full_path: String,
    pub path: String,
    pub name: String,
    pub parent_folder_full_path: String,
    pub job_id: u128,
}

impl Folder {
    pub open spec fn is_root(&self) -> bool {
        self.parent_folder_full_path@ == self.folder_full_path@
    }

    pub fn duplicate(&self) -> (r: Folder)
        ensures
            r == *self,
    {
        Folder {
            folder_full_path: self.folder_full_path.clone(),
            path: self.path.clone(),
            name: self.name.clone(),
            parent_folder_full_path: self.parent_folder_full_path.clone(),
            job_id: self.job_id,
        }
    }
}

/// One sweep of the input tree.
#[derive(Debug, PartialEq, Clone)]
pub struct FilescanJob {
    pub id: u128,
    pub full_path: String,
    pub created_at: Timestamp,
    pub finished_at: Option<Timestamp>,
}

impl FilescanJob {
    pub fn duplicate(&self) -> (r: FilescanJob)
        ensures
            r == *self,
    {
        FilescanJob {
            id: self.id,
            full_path: self.full_path.clone(),
            created_at: self.created_at,
            finished_at: self.finished_at,
        }
    }
}

/// The work of one preset on one file, durable until it is finished.
#[derive(Debug, PartialEq, Clone)]
pub struct FileJob {
    pub file_full_path: String,
    pub job_name: String,
    pub created_at: Timestamp,
    pub finished_at: Option<Timestamp>,
    pub command: Option<String>,
    pub command_log: Option<String>,
    pub has_succeeded: Option<bool>,
}

impl FileJob {
    /// A job is finished exactly when its outcome is recorded.
    pub open spec fn well_formed(&self) -> bool {
        self.finished_at is Some <==> self.has_succeeded is Some
    }

    /// A pending job waits to be processed.
    pub open spec fn is_pending(&self) -> bool {
        self.finished_at is None
    }

    /// A pending job of `preset` for the file at `file_full_path`.
    pub open spec fn is_fresh(&self, file_full_path: Seq<char>, preset: Seq<char>, now: Timestamp) -> bool {
        &&& self.file_full_path@ == file_full_path
        &&& self.job_name@ == preset
        &&& self.created_at == now
        &&& self.finished_at is None
        &&& self.command is None
        &&& self.command_log is None
        &&& self.has_succeeded is None
    }

    pub fn pending(file_full_path: &String, preset: &str, now: Timestamp) -> (r: FileJob)
        ensures
            r.is_fresh(file_full_path@, preset@, now),
            r.well_formed(),
    {
        FileJob {
            file_full_path: file_full_path.clone(),
            job_name: preset.to_owned(),
            created_at: now,
            finished_at: None,
            command: None,
            command_log: None,
            has_succeeded: None,
        }
    }

    pub fn duplicate(&self) -> (r: FileJob)
        ensures
            r == *self,
    {
        FileJob {
            file_full_path: self.file_full_path.clone(),
            job_name: self.job_name.clone(),
            created_at: self.created_at,
            finished_at: self.finished_at,
            command: duplicate_text(&self.command),
            command_log: duplicate_text(&self.command_log),
            has_succeeded: self.has_succeeded,
        }
    }
}

} // verus!
