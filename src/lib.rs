//! A durable, resumable media-library processor: the decisions that the
//! scanner and processor loops make, stated and proved over plain values.

pub mod config;
pub mod config_parser;
pub mod db;
pub mod errors;
pub mod exiftool;
pub mod image_converter;
pub mod processor;
pub mod scanner;
pub mod scans;
pub mod text;
pub mod time;
pub mod video_converter;
