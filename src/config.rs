//! The settings the processor runs with.

use vstd::prelude::*;

verus! {

/// Run-time settings: where the store and the trees are, how many workers
/// each pool has, how long the loops sleep, and which presets are enabled.
#[derive(Debug, Clone, PartialEq)]
pub struct Config {
    pub database_url: String,
    pub input_folder: String,
    pub output_folder: String,
    pub scanner_threads: usize,
    pub image_converter_threads: usize,
    pub video_converter_threads: usize,
    pub seconds_between_file_scans: u64,
    pub seconds_between_processor_runs: u64,
    pub enable_thumbnail_preset: bool,
    pub enable_preview_preset: bool,
}

} // verus!
