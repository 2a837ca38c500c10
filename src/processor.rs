//! The processor's decisions: which presets run, which jobs a page of files
//! needs, how the files of a page are sorted by media type, how a shell
//! script is composed and judged, and which job rows a page writes back.

use vstd::prelude::*;
use crate::config::Config;
use crate::db::{File, FileJob};
use crate::exiftool::{Exiftool, ExiftoolError};
use crate::text::{chars_of, contains, contains_chars, replace_first, replace_first_str};
use crate::time::Timestamp;

verus! {

/// The transcoding speed of a video, in frames per second.
#[derive(Debug, PartialEq, Eq, Clone, Copy)]
pub struct VideoMetrics {
    pub fps: u32,
}

/// What was measured while a file was processed.
#[derive(Debug, PartialEq, Eq, Clone, Copy)]
pub enum ProcessingMetrics {
    Video(VideoMetrics),
    Image,
}

/// The outcome of processing one file.
#[derive(Debug, PartialEq, Clone)]
pub struct ProcessingResult {
    pub command: String,
    pub command_log: String,
    pub has_succeeded: bool,
    pub processing_started_at: Timestamp,
    pub processing_finished_at: Timestamp,
    pub metrics: Option<ProcessingMetrics>,
}

impl ProcessingResult {
    /// A result that has not succeeded yet, with no command and no log.
    pub fn new(now: Timestamp) -> (r: ProcessingResult)
        ensures
            r.command@ == Seq::<char>::empty(),
            r.command_log@ == Seq::<char>::empty(),
            !r.has_succeeded,
            r.processing_started_at == now,
            r.processing_finished_at == now,
            r.metrics is None,
    {
        ProcessingResult {
            command: String::new(),
            command_log: String::new(),
            has_succeeded: false,
            processing_started_at: now,
            processing_finished_at: now,
            metrics: None,
        }
    }

    pub fn with_command_log(self, command_log: String) -> (r: ProcessingResult)
        ensures
            r == (ProcessingResult { command_log, ..self }),
    {
        ProcessingResult { command_log, ..self }
    }

    pub fn with_command(self, command: String) -> (r: ProcessingResult)
        ensures
            r == (ProcessingResult { command, ..self }),
    {
        ProcessingResult { command, ..self }
    }

    pub fn with_metrics(self, metrics: ProcessingMetrics) -> (r: ProcessingResult)
        ensures
            r == (ProcessingResult { metrics: Some(metrics), ..self }),
    {
        ProcessingResult { metrics: Some(metrics), ..self }
    }

    /// Marks the result as a success that ended at `now`.
    pub fn succeeded(self, now: Timestamp) -> (r: ProcessingResult)
        ensures
            r == (ProcessingResult { has_succeeded: true, processing_finished_at: now, ..self }),
    {
        ProcessingResult { has_succeeded: true, processing_finished_at: now, ..self }
    }

    /// Marks the result as a failure that ended at `now`.
    pub fn failed(self, now: Timestamp) -> (r: ProcessingResult)
        ensures
            r == (ProcessingResult { has_succeeded: false, processing_finished_at: now, ..self }),
    {
        ProcessingResult { has_succeeded: false, processing_finished_at: now, ..self }
    }

    pub fn duplicate(&self) -> (r: ProcessingResult)
        ensures
            r == *self,
    {
        ProcessingResult {
            command: self.command.clone(),
            command_log: self.command_log.clone(),
            has_succeeded: self.has_succeeded,
            processing_started_at: self.processing_started_at,
            processing_finished_at: self.processing_finished_at,
            metrics: self.metrics,
        }
    }
}

/// One line of a script.
pub open spec fn line(s: Seq<char>) -> Seq<char> {
    s + "\n"@
}

/// The lines every script starts with: the shell, and stopping at the first
/// failing command.
pub open spec fn prologue() -> Seq<char> {
    line("#!/bin/sh"@) + line("set -e"@)
}

/// How a script run ended, as the process runner saw it.
#[derive(Debug, PartialEq, Clone)]
pub enum CommandOutcome {
    /// The shell could not be started; why.
    SpawnFailed(String),
    /// The shell ran; its exit code when it exited normally, and what it
    /// printed on stdout and stderr together.
    Finished { exit_code: Option<u32>, output: String },
}

/// A shell script under composition, and the directory it runs in.
pub struct CommandRunner {
    pub cwd: String,
    pub cmd: String,
}

impl CommandRunner {
    /// A script that runs in `cwd` and holds the prologue.
    pub fn build(cwd: &str) -> (r: CommandRunner)
        ensures
            r.cwd@ == cwd@,
            r.cmd@ == prologue(),
    {
        let r = CommandRunner { cwd: cwd.to_owned(), cmd: String::new() };
        let r = r.with("#!/bin/sh").with("set -e");
        assert(Seq::<char>::empty() + line("#!/bin/sh"@) =~= line("#!/bin/sh"@));
        r
    }

    /// The script with `partial_cmd` appended as one more line.
    pub fn with(self, partial_cmd: &str) -> (r: CommandRunner)
        ensures
            r.cwd == self.cwd,
            r.cmd@ == self.cmd@ + line(partial_cmd@),
    {
        let ghost before = self.cmd@;
        let mut cmd = self.cmd;
        cmd.append(partial_cmd);
        cmd.append("\n");
        assert(before + partial_cmd@ + "\n"@ =~= before + line(partial_cmd@));
        CommandRunner { cwd: self.cwd, cmd }
    }

    /// The result of running the script: a success, with the output and no
    /// command, when the shell exited with code 0; otherwise a failure that
    /// keeps the script for post-mortem, with the output or the reason it
    /// could not start.
    pub fn conclude(&self, outcome: CommandOutcome, started_at: Timestamp, finished_at: Timestamp) -> (r: ProcessingResult)
        ensures
            r.processing_started_at == started_at,
            r.processing_finished_at == finished_at,
            r.metrics is None,
            match outcome {
                CommandOutcome::SpawnFailed(e) => {
                    &&& !r.has_succeeded
                    &&& r.command@ == self.cmd@
                    &&& r.command_log@ == e@
                },
                CommandOutcome::Finished { exit_code, output } => if exit_code == Some(0u32) {
                    &&& r.has_succeeded
                    &&& r.command@ == Seq::<char>::empty()
                    &&& r.command_log@ == output@
                } else {
                    &&& !r.has_succeeded
                    &&& r.command@ == self.cmd@
                    &&& r.command_log@ == output@
                },
            },
    {
        let result = ProcessingResult::new(started_at);
        match outcome {
            CommandOutcome::SpawnFailed(e) => result.with_command(self.cmd.clone()).with_command_log(
                e,
            ).failed(finished_at),
            CommandOutcome::Finished { exit_code, output } => {
                match exit_code {
                    Some(code) => {
                        if code == 0 {
                            return result.with_command_log(output).succeeded(finished_at);
                        }
                    },
                    None => {},
                }
                result.with_command(self.cmd.clone()).with_command_log(output).failed(finished_at)
            },
        }
    }

    /// The directory the script runs in.
    pub fn working_dir(&self) -> (r: &str)
        ensures
            r@ == self.cwd@,
    {
        self.cwd.as_str()
    }

    /// The script as composed so far.
    pub fn script(&self) -> (r: &str)
        ensures
            r@ == self.cmd@,
    {
        self.cmd.as_str()
    }
}

/// A MIME type names an image.
pub open spec fn is_image_mime(m: Seq<char>) -> bool {
    contains(m, "image"@)
}

/// A MIME type names a video.
pub open spec fn is_video_mime(m: Seq<char>) -> bool {
    contains(m, "video"@)
}

/// Where the derivatives of files in `folder` go, below the output folder:
/// the preset, then the folder with the input root replaced by `.`.
pub open spec fn relative_path_of(preset: Seq<char>, folder: Seq<char>, root: Seq<char>) -> Seq<char> {
    preset + "/"@ + replace_first(folder, root, "."@)
}

/// A derivative's path: its folder, the file's stem and the new extension.
pub open spec fn output_path_of(relative: Seq<char>, stem: Seq<char>, extension: Seq<char>) -> Seq<char> {
    relative + "/"@ + stem + "."@ + extension
}

/// A probed file of a page, with what it needs to be transcoded.
#[derive(Debug, PartialEq, Clone)]
pub struct FileToBeProcessed {
    pub root: String,
    pub output_folder: String,
    pub preset_name: String,
    pub file: File,
    pub file_job: FileJob,
    pub exif: Exiftool,
}

impl FileToBeProcessed {
    pub open spec fn spec_relative_path(&self) -> Seq<char> {
        relative_path_of(self.preset_name@, self.file.folder_full_path@, self.root@)
    }

    pub fn file_full_path(&self) -> (r: &str)
        ensures
            r@ == self.file.file_full_path@,
    {
        self.file.file_full_path.as_str()
    }

    pub fn file_stem(&self) -> (r: &str)
        ensures
            r@ == self.file.stem@,
    {
        self.file.stem.as_str()
    }

    pub fn folder_full_path(&self) -> (r: &str)
        ensures
            r@ == self.file.folder_full_path@,
    {
        self.file.folder_full_path.as_str()
    }

    pub fn is_image(&self) -> (r: bool)
        ensures
            r == is_image_mime(self.exif.mime_type@),
    {
        let m = chars_of(self.exif.mime_type.as_str());
        let p = chars_of("image");
        contains_chars(m.as_slice(), p.as_slice())
    }

    pub fn is_video(&self) -> (r: bool)
        ensures
            r == is_video_mime(self.exif.mime_type@),
    {
        let m = chars_of(self.exif.mime_type.as_str());
        let p = chars_of("video");
        contains_chars(m.as_slice(), p.as_slice())
    }

    pub fn relative_path_with_file_stem_and_a_given_extension(&self, target_extension: &str) -> (r: String)
        ensures
            r@ == output_path_of(self.spec_relative_path(), self.file.stem@, target_extension@),
    {
        self.relative_path().concat("/").concat(self.file_stem()).concat(".").concat(target_extension)
    }

    pub fn relative_path(&self) -> (r: String)
        ensures
            r@ == self.spec_relative_path(),
    {
        let folder = replace_first_str(self.folder_full_path(), self.root.as_str(), ".");
        self.preset_name.clone().concat("/").concat(folder.as_str())
    }
}

/// The names of the enabled presets: `preview`, then `thumbnail`.
pub open spec fn preset_names_of(config: Config) -> Seq<Seq<char>> {
    (if config.enable_preview_preset { seq!["preview"@] } else { Seq::empty() }) + (
    if config.enable_thumbnail_preset {
        seq!["thumbnail"@]
    } else {
        Seq::empty()
    })
}

pub fn get_preset_names(config: &Config) -> (r: Vec<String>)
    ensures
        r@.map_values(|s: String| s@) == preset_names_of(*config),
{
    let mut presets: Vec<String> = Vec::new();
    if config.enable_preview_preset {
        presets.push("preview".to_owned());
    }
    if config.enable_thumbnail_preset {
        presets.push("thumbnail".to_owned());
    }
    assert(presets@.map_values(|s: String| s@) =~= preset_names_of(*config));
    presets
}

/// A pending job of `preset` for each file of a page, in order.
pub fn pending_file_jobs(files: &Vec<File>, preset_name: &str, now: Timestamp) -> (r: Vec<FileJob>)
    ensures
        r@.len() == files@.len(),
        forall|i: int|
            #![trigger r@[i]]
            0 <= i < r@.len() ==> r@[i].is_fresh(files@[i].file_full_path@, preset_name@, now)
                && r@[i].well_formed(),
{
    let mut jobs: Vec<FileJob> = Vec::new();
    let mut k: usize = 0;
    while k < files.len()
        invariant
            k <= files@.len(),
            jobs@.len() == k,
            forall|i: int|
                #![trigger jobs@[i]]
                0 <= i < k ==> jobs@[i].is_fresh(files@[i].file_full_path@, preset_name@, now)
                    && jobs@[i].well_formed(),
        decreases files.len() - k,
    {
        jobs.push(FileJob::pending(&files[k].file_full_path, preset_name, now));
        k += 1;
    }
    jobs
}

/// How a probed file is handled.
#[derive(Debug, PartialEq, Eq, Structural, Clone, Copy)]
pub enum Classification {
    Image,
    Video,
    Other,
    ProbeFailed,
}

/// Images first: a MIME type that names both is an image.
pub open spec fn classification_of(probe: Result<Exiftool, ExiftoolError>) -> Classification {
    match probe {
        Ok(e) => if is_image_mime(e.mime_type@) {
            Classification::Image
        } else if is_video_mime(e.mime_type@) {
            Classification::Video
        } else {
            Classification::Other
        },
        Err(_) => Classification::ProbeFailed,
    }
}

pub fn classify(probe: &Result<Exiftool, ExiftoolError>) -> (r: Classification)
    ensures
        r == classification_of(*probe),
{
    match probe {
        Ok(e) => {
            let m = chars_of(e.mime_type.as_str());
            let image = chars_of("image");
            let video = chars_of("video");
            if contains_chars(m.as_slice(), image.as_slice()) {
                Classification::Image
            } else if contains_chars(m.as_slice(), video.as_slice()) {
                Classification::Video
            } else {
                Classification::Other
            }
        },
        Err(_) => Classification::ProbeFailed,
    }
}

/// The indices, in order, of the probes of the given class.
pub open spec fn indices_of(probes: Seq<Result<Exiftool, ExiftoolError>>, class: Classification) -> Seq<int>
    decreases probes.len(),
{
    if probes.len() == 0 {
        Seq::empty()
    } else {
        let front = indices_of(probes.drop_last(), class);
        if classification_of(probes.last()) == class {
            front.push(probes.len() - 1)
        } else {
            front
        }
    }
}

/// How many probes of the same class come before index `i`.
pub open spec fn rank_of(probes: Seq<Result<Exiftool, ExiftoolError>>, i: int, class: Classification) -> int {
    indices_of(probes.take(i), class).len() as int
}

proof fn lemma_indices_step(probes: Seq<Result<Exiftool, ExiftoolError>>, i: int, class: Classification)
    requires
        0 <= i < probes.len(),
    ensures
        indices_of(probes.take(i + 1), class) == if classification_of(probes[i]) == class {
            indices_of(probes.take(i), class).push(i)
        } else {
            indices_of(probes.take(i), class)
        },
{
    assert(probes.take(i + 1).drop_last() =~= probes.take(i));
}

proof fn lemma_indices_monotone(probes: Seq<Result<Exiftool, ExiftoolError>>, j: int, class: Classification)
    requires
        0 <= j <= probes.len(),
    ensures
        indices_of(probes.take(j), class).len() <= indices_of(probes, class).len(),
    decreases probes.len(),
{
    if j == probes.len() {
        assert(probes.take(j) =~= probes);
    } else {
        assert(probes.take(j) =~= probes.drop_last().take(j));
        lemma_indices_monotone(probes.drop_last(), j, class);
    }
}

/// `f` is the file of `entry`, probed as `probe`, ready for `preset`.
pub open spec fn prepared_from(
    f: FileToBeProcessed,
    root: Seq<char>,
    output_folder: Seq<char>,
    preset: Seq<char>,
    entry: (File, FileJob),
    probe: Result<Exiftool, ExiftoolError>,
) -> bool {
    &&& f.root@ == root
    &&& f.output_folder@ == output_folder
    &&& f.preset_name@ == preset
    &&& f.file == entry.0
    &&& f.file_job == entry.1
    &&& probe == Ok::<Exiftool, ExiftoolError>(f.exif)
}

/// The images and the videos of a page, each in page order.
pub struct MediaFiles {
    pub images: Vec<FileToBeProcessed>,
    pub videos: Vec<FileToBeProcessed>,
}

/// The indices, in page order, of the probes of the given class.
pub fn indices_of_class(probes: &Vec<Result<Exiftool, ExiftoolError>>, class: Classification) -> (r: Vec<usize>)
    ensures
        r@.len() == indices_of(probes@, class).len(),
        forall|k: int| 0 <= k < r@.len() ==> #[trigger] r@[k] as int == indices_of(probes@, class)[k],
        forall|k: int| 0 <= k < r@.len() ==> #[trigger] r@[k] < probes@.len(),
{
    let mut r: Vec<usize> = Vec::new();
    let mut i: usize = 0;
    while i < probes.len()
        invariant
            i <= probes@.len(),
            r@.len() == indices_of(probes@.take(i as int), class).len(),
            forall|k: int| 0 <= k < r@.len() ==> #[trigger] r@[k] as int == indices_of(probes@.take(i as int), class)[k],
            forall|k: int| 0 <= k < r@.len() ==> #[trigger] r@[k] < i,
        decreases probes.len() - i,
    {
        proof {
            lemma_indices_step(probes@, i as int, class);
        }
        if classify(&probes[i]) == class {
            r.push(i);
        }
        i += 1;
    }
    proof {
        assert(probes@.take(i as int) =~= probes@);
    }
    r
}

/// The file of `entry`, probed as `exif`, ready for `preset`.
pub fn prepare(root: &str, output_folder: &str, preset_name: &str, entry: &(File, FileJob), exif: &Exiftool) -> (r: FileToBeProcessed)
    ensures
        prepared_from(r, root@, output_folder@, preset_name@, *entry, Ok::<Exiftool, ExiftoolError>(*exif)),
{
    FileToBeProcessed {
        root: root.to_owned(),
        output_folder: output_folder.to_owned(),
        preset_name: preset_name.to_owned(),
        file: entry.0.duplicate(),
        file_job: entry.1.duplicate(),
        exif: exif.duplicate(),
    }
}

/// The files at the given indices of a page, in that order; each of them
/// must have been probed.
pub fn prepare_all(
    root: &str,
    output_folder: &str,
    preset_name: &str,
    page: &Vec<(File, FileJob)>,
    probes: &Vec<Result<Exiftool, ExiftoolError>>,
    idx: &Vec<usize>,
) -> (r: Vec<FileToBeProcessed>)
    requires
        page@.len() == probes@.len(),
        forall|k: int| 0 <= k < idx@.len() ==> #[trigger] idx@[k] < probes@.len(),
        forall|k: int| 0 <= k < idx@.len() ==> (#[trigger] probes@[idx@[k] as int]) is Ok,
    ensures
        r@.len() == idx@.len(),
        forall|k: int|
            #![trigger r@[k]]
            0 <= k < r@.len() ==> prepared_from(
                r@[k],
                root@,
                output_folder@,
                preset_name@,
                page@[idx@[k] as int],
                probes@[idx@[k] as int],
            ),
{
    let mut r: Vec<FileToBeProcessed> = Vec::new();
    let mut k: usize = 0;
    while k < idx.len()
        invariant
            k <= idx@.len(),
            page@.len() == probes@.len(),
            forall|m: int| 0 <= m < idx@.len() ==> #[trigger] idx@[m] < probes@.len(),
            forall|m: int| 0 <= m < idx@.len() ==> (#[trigger] probes@[idx@[m] as int]) is Ok,
            r@.len() == k,
            forall|m: int|
                #![trigger r@[m]]
                0 <= m < k ==> prepared_from(
                    r@[m],
                    root@,
                    output_folder@,
                    preset_name@,
                    page@[idx@[m] as int],
                    probes@[idx@[m] as int],
                ),
        decreases idx.len() - k,
    {
        let j = idx[k];
        assert(probes@[j as int] is Ok);
        match &probes[j] {
            Ok(exif) => {
                let f = prepare(root, output_folder, preset_name, &page[j], exif);
                r.push(f);
            },
            Err(_) => {},
        }
        k += 1;
    }
    r
}

/// Sorts the probed files of a page into images and videos, each list in
/// page order; the other files and the failed probes are left out.
pub fn media_files_of_page(
    root: &str,
    output_folder: &str,
    preset_name: &str,
    page: &Vec<(File, FileJob)>,
    probes: &Vec<Result<Exiftool, ExiftoolError>>,
) -> (r: MediaFiles)
    requires
        page@.len() == probes@.len(),
    ensures
        r.images@.len() == indices_of(probes@, Classification::Image).len(),
        r.videos@.len() == indices_of(probes@, Classification::Video).len(),
        forall|k: int|
            #![trigger r.images@[k]]
            0 <= k < r.images@.len() ==> {
                let i = indices_of(probes@, Classification::Image)[k];
                prepared_from(r.images@[k], root@, output_folder@, preset_name@, page@[i], probes@[i])
            },
        forall|k: int|
            #![trigger r.videos@[k]]
            0 <= k < r.videos@.len() ==> {
                let i = indices_of(probes@, Classification::Video)[k];
                prepared_from(r.videos@[k], root@, output_folder@, preset_name@, page@[i], probes@[i])
            },
{
    let image_idx = indices_of_class(probes, Classification::Image);
    let video_idx = indices_of_class(probes, Classification::Video);
    proof {
        lemma_indices_class(probes@, Classification::Image);
        lemma_indices_class(probes@, Classification::Video);
        assert forall|k: int| 0 <= k < image_idx@.len() implies (#[trigger] probes@[image_idx@[k] as int]) is Ok by {
            assert(classification_of(probes@[indices_of(probes@, Classification::Image)[k]]) == Classification::Image);
        }
        assert forall|k: int| 0 <= k < video_idx@.len() implies (#[trigger] probes@[video_idx@[k] as int]) is Ok by {
            assert(classification_of(probes@[indices_of(probes@, Classification::Video)[k]]) == Classification::Video);
        }
    }
    let images = prepare_all(root, output_folder, preset_name, page, probes, &image_idx);
    let videos = prepare_all(root, output_folder, preset_name, page, probes, &video_idx);
    MediaFiles { images, videos }
}

/// Every index listed for a class is in range and of that class.
proof fn lemma_indices_class(probes: Seq<Result<Exiftool, ExiftoolError>>, class: Classification)
    ensures
        forall|k: int|
            0 <= k < indices_of(probes, class).len() ==> 0 <= #[trigger] indices_of(probes, class)[k] < probes.len()
                && classification_of(probes[indices_of(probes, class)[k]]) == class,
    decreases probes.len(),
{
    if probes.len() > 0 {
        lemma_indices_class(probes.drop_last(), class);
        let front = indices_of(probes.drop_last(), class);
        assert forall|k: int| 0 <= k < front.len() implies probes[#[trigger] front[k]] == probes.drop_last()[front[k]] by {}
    }
}

/// The first index of a job for the file at `path`, if any.
pub open spec fn job_index_of(jobs: Seq<FileJob>, path: Seq<char>) -> Option<int> {
    if exists|j: int| 0 <= j < jobs.len() && #[trigger] jobs[j].file_full_path@ == path {
        Some(
            choose|j: int|
                0 <= j < jobs.len() && #[trigger] jobs[j].file_full_path@ == path && forall|m: int|
                    0 <= m < j ==> jobs[m].file_full_path@ != path,
        )
    } else {
        None
    }
}

/// Pairs each file of a page, in order, with its job: the first job for
/// the same path, or a fresh pending job of `preset` when there is none.
pub fn pair_files_with_jobs(files: Vec<File>, jobs: &Vec<FileJob>, preset_name: &str, now: Timestamp) -> (r: Vec<(File, FileJob)>)
    ensures
        r@.len() == files@.len(),
        forall|i: int|
            #![trigger r@[i]]
            0 <= i < r@.len() ==> {
                &&& r@[i].0 == files@[i]
                &&& match job_index_of(jobs@, files@[i].file_full_path@) {
                    Some(j) => r@[i].1 == jobs@[j],
                    None => r@[i].1.is_fresh(files@[i].file_full_path@, preset_name@, now),
                }
            },
{
    let mut r: Vec<(File, FileJob)> = Vec::new();
    let mut i: usize = 0;
    while i < files.len()
        invariant
            i <= files@.len(),
            r@.len() == i,
            forall|m: int|
                #![trigger r@[m]]
                0 <= m < i ==> {
                    &&& r@[m].0 == files@[m]
                    &&& match job_index_of(jobs@, files@[m].file_full_path@) {
                        Some(j) => r@[m].1 == jobs@[j],
                        None => r@[m].1.is_fresh(files@[m].file_full_path@, preset_name@, now),
                    }
                },
        decreases files.len() - i,
    {
        let path = &files[i].file_full_path;
        let mut j: usize = 0;
        let mut found: Option<usize> = None;
        while j < jobs.len()
            invariant_except_break
                j <= jobs@.len(),
                found is None,
                forall|m: int| 0 <= m < j ==> #[trigger] jobs@[m].file_full_path@ != path@,
            ensures
                match found {
                    Some(w) => w < jobs@.len() && jobs@[w as int].file_full_path@ == path@ && forall|m: int|
                        0 <= m < w ==> #[trigger] jobs@[m].file_full_path@ != path@,
                    None => forall|m: int| 0 <= m < jobs@.len() ==> #[trigger] jobs@[m].file_full_path@ != path@,
                },
            decreases jobs.len() - j,
        {
            if jobs[j].file_full_path == *path {
                found = Some(j);
                break;
            }
            j += 1;
        }
        let job = match found {
            Some(j) => {
                proof {
                    let p = files@[i as int].file_full_path@;
                    assert(0 <= j < jobs@.len() && jobs@[j as int].file_full_path@ == p);
                    let w = choose|w: int|
                        0 <= w < jobs@.len() && #[trigger] jobs@[w].file_full_path@ == p && forall|m: int|
                            0 <= m < w ==> jobs@[m].file_full_path@ != p;
                    if w < j {
                        assert(jobs@[w].file_full_path@ != p);
                    }
                    if j < w {
                        assert(jobs@[j as int].file_full_path@ != p);
                    }
                    assert(job_index_of(jobs@, p) == Some(j as int));
                }
                jobs[j].duplicate()
            },
            None => {
                proof {
                    let p = files@[i as int].file_full_path@;
                    assert(!(exists|w: int| 0 <= w < jobs@.len() && #[trigger] jobs@[w].file_full_path@ == p));
                }
                FileJob::pending(path, preset_name, now)
            },
        };
        r.push((files[i].duplicate(), job));
        i += 1;
    }
    r
}

/// The outcome recorded for entry `i` of a page: the pool's result for an
/// image or a video, a success for a file that is neither, and a failure
/// that carries the probe's error otherwise. Command, log and success.
pub open spec fn outcome_of(
    probes: Seq<Result<Exiftool, ExiftoolError>>,
    image_results: Seq<ProcessingResult>,
    video_results: Seq<ProcessingResult>,
    i: int,
) -> (Seq<char>, Seq<char>, bool) {
    match probes[i] {
        Ok(e) => if is_image_mime(e.mime_type@) {
            let x = image_results[rank_of(probes, i, Classification::Image)];
            (x.command@, x.command_log@, x.has_succeeded)
        } else if is_video_mime(e.mime_type@) {
            let x = video_results[rank_of(probes, i, Classification::Video)];
            (x.command@, x.command_log@, x.has_succeeded)
        } else {
            (Seq::empty(), "File is neither imager or video. Mime type: "@ + e.mime_type@, true)
        },
        Err(err) => (Seq::empty(), "Failure extracting exif data: "@ + err.spec_describe(), false),
    }
}

/// `j` is the finished row of `job` for `file` under `preset`, with the
/// given command, log and success.
pub open spec fn written_job(
    j: FileJob,
    file: File,
    job: FileJob,
    preset: Seq<char>,
    now: Timestamp,
    outcome: (Seq<char>, Seq<char>, bool),
) -> bool {
    &&& j.file_full_path == file.file_full_path
    &&& j.job_name@ == preset
    &&& j.created_at == job.created_at
    &&& j.finished_at == Some(now)
    &&& j.command matches Some(c) && c@ == outcome.0
    &&& j.command_log matches Some(l) && l@ == outcome.1
    &&& j.has_succeeded == Some(outcome.2)
}

/// The finished row of `job` for `file` with the outcome in `result`.
pub fn updated_file_job(file: &File, job: &FileJob, preset_name: &str, result: ProcessingResult, now: Timestamp) -> (r: FileJob)
    ensures
        written_job(r, *file, *job, preset_name@, now, (result.command@, result.command_log@, result.has_succeeded)),
        r.well_formed(),
{
    FileJob {
        file_full_path: file.file_full_path.clone(),
        job_name: preset_name.to_owned(),
        created_at: job.created_at,
        finished_at: Some(now),
        command: Some(result.command),
        command_log: Some(result.command_log),
        has_succeeded: Some(result.has_succeeded),
    }
}

/// The rows a page writes back, one for each entry and in page order:
/// row `i` finishes the job of file `i` with that file's outcome.
pub fn file_jobs_of_page(
    page: &Vec<(File, FileJob)>,
    probes: &Vec<Result<Exiftool, ExiftoolError>>,
    image_results: &Vec<ProcessingResult>,
    video_results: &Vec<ProcessingResult>,
    preset_name: &str,
    now: Timestamp,
) -> (r: Vec<FileJob>)
    requires
        page@.len() == probes@.len(),
        image_results@.len() == indices_of(probes@, Classification::Image).len(),
        video_results@.len() == indices_of(probes@, Classification::Video).len(),
    ensures
        r@.len() == page@.len(),
        forall|i: int|
            #![trigger r@[i]]
            0 <= i < r@.len() ==> written_job(
                r@[i],
                page@[i].0,
                page@[i].1,
                preset_name@,
                now,
                outcome_of(probes@, image_results@, video_results@, i),
            ) && r@[i].well_formed(),
{
    let mut r: Vec<FileJob> = Vec::new();
    let mut images_seen: usize = 0;
    let mut videos_seen: usize = 0;
    let mut i: usize = 0;
    while i < page.len()
        invariant
            i <= page@.len(),
            page@.len() == probes@.len(),
            image_results@.len() == indices_of(probes@, Classification::Image).len(),
            video_results@.len() == indices_of(probes@, Classification::Video).len(),
            images_seen == rank_of(probes@, i as int, Classification::Image),
            videos_seen == rank_of(probes@, i as int, Classification::Video),
            r@.len() == i,
            forall|m: int|
                #![trigger r@[m]]
                0 <= m < i ==> written_job(
                    r@[m],
                    page@[m].0,
                    page@[m].1,
                    preset_name@,
                    now,
                    outcome_of(probes@, image_results@, video_results@, m),
                ) && r@[m].well_formed(),
        decreases page.len() - i,
    {
        proof {
            lemma_indices_step(probes@, i as int, Classification::Image);
            lemma_indices_step(probes@, i as int, Classification::Video);
            lemma_indices_monotone(probes@, i + 1, Classification::Image);
            lemma_indices_monotone(probes@, i + 1, Classification::Video);
        }
        let class = classify(&probes[i]);
        let result = match &probes[i] {
            Ok(exif) => {
                if class == Classification::Image {
                    let n: usize = image_results.len();
                    assert(images_seen + 1 <= n);
                    let x = image_results[images_seen].duplicate();
                    images_seen += 1;
                    x
                } else if class == Classification::Video {
                    let n: usize = video_results.len();
                    assert(videos_seen + 1 <= n);
                    let x = video_results[videos_seen].duplicate();
                    videos_seen += 1;
                    x
                } else {
                    let log = "File is neither imager or video. Mime type: ".to_owned().concat(
                        exif.mime_type.as_str(),
                    );
                    ProcessingResult::new(now).with_command_log(log).succeeded(now)
                }
            },
            Err(e) => {
                let log = "Failure extracting exif data: ".to_owned().concat(e.describe().as_str());
                ProcessingResult::new(now).with_command_log(log).failed(now)
            },
        };
        let job = updated_file_job(&page[i].0, &page[i].1, preset_name, result, now);
        r.push(job);
        i += 1;
    }
    r
}

proof fn lemma_indices_prefix(probes: Seq<Result<Exiftool, ExiftoolError>>, j: int, class: Classification)
    requires
        0 <= j <= probes.len(),
    ensures
        indices_of(probes.take(j), class).len() <= indices_of(probes, class).len(),
        indices_of(probes.take(j), class) == indices_of(probes, class).take(
            indices_of(probes.take(j), class).len() as int,
        ),
    decreases probes.len(),
{
    if j == probes.len() {
        assert(probes.take(j) =~= probes);
        assert(indices_of(probes, class).take(indices_of(probes, class).len() as int) =~= indices_of(probes, class));
    } else {
        assert(probes.take(j) =~= probes.drop_last().take(j));
        lemma_indices_prefix(probes.drop_last(), j, class);
        let a = indices_of(probes.take(j), class);
        let b = indices_of(probes.drop_last(), class);
        let c = indices_of(probes, class);
        assert(c.take(a.len() as int) =~= b.take(a.len() as int));
    }
}

/// Results come back in the order their files were handed out: for entry
/// `i` of a page, the result at its rank among the files of its class is
/// the one for the file prepared from entry `i`.
pub proof fn lemma_result_matches_entry(probes: Seq<Result<Exiftool, ExiftoolError>>, i: int, class: Classification)
    requires
        0 <= i < probes.len(),
        classification_of(probes[i]) == class,
    ensures
        0 <= rank_of(probes, i, class) < indices_of(probes, class).len(),
        indices_of(probes, class)[rank_of(probes, i, class)] == i,
{
    lemma_indices_step(probes, i, class);
    lemma_indices_prefix(probes, i + 1, class);
    let r = rank_of(probes, i, class);
    let after = indices_of(probes.take(i + 1), class);
    assert(after[r] == i);
    assert(after[r] == indices_of(probes, class).take(after.len() as int)[r]);
}

/// Per-preset isolation: with only the thumbnail preset enabled, the only
/// preset that runs is `thumbnail`, so no job made for a running preset is
/// keyed by `preview`.
pub proof fn lemma_per_preset_isolation(config: Config, jobs: Seq<FileJob>)
    requires
        config.enable_thumbnail_preset,
        !config.enable_preview_preset,
        forall|k: int| 0 <= k < jobs.len() ==> preset_names_of(config).contains(#[trigger] jobs[k].job_name@),
    ensures
        preset_names_of(config) == seq!["thumbnail"@],
        forall|k: int| 0 <= k < jobs.len() ==> #[trigger] jobs[k].job_name@ != "preview"@,
{
    reveal_strlit("thumbnail");
    reveal_strlit("preview");
    assert(preset_names_of(config) =~= seq!["thumbnail"@]);
    assert forall|k: int| 0 <= k < jobs.len() implies #[trigger] jobs[k].job_name@ != "preview"@ by {
        assert(preset_names_of(config).contains(jobs[k].job_name@));
        assert(jobs[k].job_name@ == "thumbnail"@);
        assert("thumbnail"@.len() != "preview"@.len());
    }
}

/// A page's writeback finishes every job it touches and keeps each job's
/// key, the file's path and the preset: re-running a page after a restart
/// updates the same rows rather than adding new ones.
pub proof fn lemma_writeback_finishes_jobs(
    rows: Seq<FileJob>,
    page: Seq<(File, FileJob)>,
    preset: Seq<char>,
    now: Timestamp,
    outcomes: Seq<(Seq<char>, Seq<char>, bool)>,
)
    requires
        rows.len() == page.len(),
        outcomes.len() == page.len(),
        forall|i: int|
            0 <= i < rows.len() ==> written_job(#[trigger] rows[i], page[i].0, page[i].1, preset, now, outcomes[i]),
    ensures
        forall|i: int|
            0 <= i < rows.len() ==> !(#[trigger] rows[i]).is_pending() && rows[i].well_formed()
                && rows[i].file_full_path == page[i].0.file_full_path && rows[i].job_name@ == preset,
{
    assert forall|i: int| 0 <= i < rows.len() implies !(#[trigger] rows[i]).is_pending() && rows[i].well_formed()
        && rows[i].file_full_path == page[i].0.file_full_path && rows[i].job_name@ == preset by {
        assert(written_job(rows[i], page[i].0, page[i].1, preset, now, outcomes[i]));
    }
}

} // verus!
