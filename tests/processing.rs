use fixmylib::config::Config;
use fixmylib::db::{File, FileJob};
use fixmylib::exiftool::{exiftool_on_file, Exiftool, ExiftoolError};
use fixmylib::image_converter::ImageConverter;
use fixmylib::processor::{
    classify, file_jobs_of_page, get_preset_names, media_files_of_page, pair_files_with_jobs,
    pending_file_jobs, Classification, CommandOutcome, CommandRunner, FileToBeProcessed,
    ProcessingMetrics, ProcessingResult, VideoMetrics,
};
use fixmylib::time::Timestamp;
use fixmylib::video_converter::{TranscodeMode, VideoConverter, VideoStep};

fn t(m: i64) -> Timestamp {
    Timestamp::from_micros(m)
}

fn file(path: &str, folder: &str, stem: &str, ext: &str) -> File {
    File {
        file_full_path: path.to_string(),
        folder_full_path: folder.to_string(),
        path: path.trim_start_matches("/input/").to_string(),
        size: 200,
        stem: stem.to_string(),
        extension: ext.to_string(),
        name: format!("{stem}.{ext}"),
        has_been_processed: false,
        created_at: t(1),
        updated_at: t(1),
        file_modified_at: t(0),
        job_id: 7,
    }
}

fn exif(mime: &str) -> Exiftool {
    Exiftool { file_type: "X".to_string(), mime_type: mime.to_string() }
}

fn config(preview: bool, thumbnail: bool) -> Config {
    Config {
        database_url: "postgres://localhost/db".to_string(),
        input_folder: "/input".to_string(),
        output_folder: "/output".to_string(),
        scanner_threads: 2,
        image_converter_threads: 2,
        video_converter_threads: 1,
        seconds_between_file_scans: 10,
        seconds_between_processor_runs: 10,
        enable_thumbnail_preset: thumbnail,
        enable_preview_preset: preview,
    }
}

fn to_be_processed(preset: &str, f: File, mime: &str) -> FileToBeProcessed {
    let job = FileJob::pending(&f.file_full_path, preset, t(2));
    FileToBeProcessed {
        root: "/input".to_string(),
        output_folder: "/output".to_string(),
        preset_name: preset.to_string(),
        file: f,
        file_job: job,
        exif: exif(mime),
    }
}

#[test]
fn command_runner_composes_script() {
    let r = CommandRunner::build("/out").with("echo hi");
    assert_eq!(r.script(), "#!/bin/sh\nset -e\necho hi\n");
    assert_eq!(r.working_dir(), "/out");
}

#[test]
fn command_runner_concludes_outcomes() {
    let r = CommandRunner::build("/out").with("false");
    let ok = r.conclude(CommandOutcome::Finished { exit_code: Some(0), output: "done".to_string() }, t(1), t(5));
    assert!(ok.has_succeeded);
    assert_eq!(ok.command, "");
    assert_eq!(ok.command_log, "done");
    assert_eq!(ok.processing_finished_at, t(5));
    let failed = r.conclude(CommandOutcome::Finished { exit_code: Some(1), output: "boom".to_string() }, t(1), t(5));
    assert!(!failed.has_succeeded);
    assert_eq!(failed.command, "#!/bin/sh\nset -e\nfalse\n");
    assert_eq!(failed.command_log, "boom");
    let killed = r.conclude(CommandOutcome::Finished { exit_code: None, output: "".to_string() }, t(1), t(5));
    assert!(!killed.has_succeeded);
    let spawn = r.conclude(CommandOutcome::SpawnFailed("no shell".to_string()), t(1), t(5));
    assert!(!spawn.has_succeeded);
    assert_eq!(spawn.command_log, "no shell");
}

#[test]
fn processing_result_builders() {
    let r = ProcessingResult::new(t(3)).with_command("c".to_string()).with_command_log("l".to_string());
    assert!(!r.has_succeeded);
    let s = r.clone().succeeded(t(9));
    assert!(s.has_succeeded);
    assert_eq!(s.processing_started_at, t(3));
    assert_eq!(s.processing_finished_at, t(9));
    let m = s.with_metrics(ProcessingMetrics::Video(VideoMetrics { fps: 30 }));
    assert_eq!(m.metrics, Some(ProcessingMetrics::Video(VideoMetrics { fps: 30 })));
    assert!(!m.failed(t(10)).has_succeeded);
}

#[test]
fn preset_names_in_order() {
    assert_eq!(get_preset_names(&config(true, true)), vec!["preview".to_string(), "thumbnail".to_string()]);
    assert_eq!(get_preset_names(&config(false, true)), vec!["thumbnail".to_string()]);
    assert!(get_preset_names(&config(false, false)).is_empty());
}

#[test]
fn only_thumbnail_enabled_makes_no_preview_jobs() {
    let files = vec![file("/input/a.jpg", "/input", "a", "jpg"), file("/input/b.mp4", "/input", "b", "mp4")];
    for preset in get_preset_names(&config(false, true)) {
        let jobs = pending_file_jobs(&files, &preset, t(4));
        assert_eq!(jobs.len(), 2);
        assert!(jobs.iter().all(|j| j.job_name == "thumbnail" && j.finished_at.is_none()));
    }
}

#[test]
fn pending_jobs_are_fresh() {
    let files = vec![file("/input/a.jpg", "/input", "a", "jpg")];
    let jobs = pending_file_jobs(&files, "preview", t(4));
    assert_eq!(jobs[0].file_full_path, "/input/a.jpg");
    assert_eq!(jobs[0].created_at, t(4));
    assert_eq!(jobs[0].has_succeeded, None);
    assert_eq!(jobs[0].command, None);
}

#[test]
fn output_paths_mirror_the_input_tree() {
    let f = to_be_processed("preview", file("/input/sub/a.jpg", "/input/sub", "a", "jpg"), "image/jpeg");
    assert_eq!(f.relative_path(), "preview/./sub");
    assert_eq!(f.relative_path_with_file_stem_and_a_given_extension("jpg"), "preview/./sub/a.jpg");
    assert!(f.is_image());
    assert!(!f.is_video());
    assert_eq!(f.file_stem(), "a");
    assert_eq!(f.folder_full_path(), "/input/sub");
}

#[test]
fn single_jpeg_image_script() {
    let f = to_be_processed("preview", file("/input/a.jpg", "/input", "a", "jpg"), "image/jpeg");
    let script = ImageConverter::from(&f).script();
    assert_eq!(script.working_dir(), "/output");
    assert_eq!(
        script.script(),
        "#!/bin/sh\nset -e\nmkdir -p \"preview/.\"\ninput=\"/input/a.jpg\"\noutput=\"preview/./a.jpg\"\n\
convert \"$input\" -resize 1280x1280^ \"$output\"\ntouch -r \"$input\" \"$output\"\n"
    );
    let thumb = to_be_processed("thumbnail", file("/input/a.jpg", "/input", "a", "jpg"), "image/jpeg");
    assert!(ImageConverter::from(&thumb).script().script().contains("-resize 400x400^"));
}

#[test]
fn video_fallback_hw_then_sw() {
    let f = to_be_processed("preview", file("/input/b.mov", "/input", "b", "mov"), "video/quicktime");
    let v = VideoConverter::from(&f);
    let hw_failed = match v.run_using_hw_or_sw_transcoding(None) {
        VideoStep::Run(TranscodeMode::Hardware, runner) => {
            assert!(runner.script().contains("h264_vaapi"));
            assert!(runner.script().contains("output=\"preview/./b.mp4\""));
            runner.conclude(CommandOutcome::Finished { exit_code: Some(1), output: "hw error".to_string() }, t(1), t(2))
        }
        _ => panic!("the hardware attempt comes first"),
    };
    let sw_failed = match v.run_using_hw_or_sw_transcoding(Some((TranscodeMode::Hardware, hw_failed))) {
        VideoStep::Run(TranscodeMode::Software, runner) => {
            assert!(runner.script().contains("libx264"));
            runner.conclude(CommandOutcome::Finished { exit_code: Some(1), output: "sw stderr".to_string() }, t(2), t(3))
        }
        _ => panic!("a hardware failure falls back to software"),
    };
    match v.run_using_hw_or_sw_transcoding(Some((TranscodeMode::Software, sw_failed))) {
        VideoStep::Done(r) => {
            assert!(!r.has_succeeded);
            assert!(r.command.contains("libx264"));
            assert_eq!(r.command_log, "sw stderr");
            assert_eq!(r.metrics, None);
        }
        _ => panic!("the software attempt ends the video"),
    }
}

#[test]
fn video_hw_success_skips_software() {
    let f = to_be_processed("thumbnail", file("/input/b.mp4", "/input", "b", "mp4"), "video/mp4");
    let v = VideoConverter::from(&f);
    let ok = ProcessingResult::new(t(1)).with_command_log("frame= 10 fps= 40 q=1.0\n".to_string()).succeeded(t(2));
    match v.run_using_hw_or_sw_transcoding(Some((TranscodeMode::Hardware, ok))) {
        VideoStep::Done(r) => {
            assert!(r.has_succeeded);
            assert_eq!(r.metrics, Some(ProcessingMetrics::Video(VideoMetrics { fps: 40 })));
        }
        _ => panic!("a hardware success ends the video"),
    }
}

#[test]
fn fps_mean_of_progress_lines() {
    let f = to_be_processed("preview", file("/input/b.mp4", "/input", "b", "mp4"), "video/mp4");
    let v = VideoConverter::from(&f);
    let log = "ffmpeg version 6\nInput #0, mov\nframe= 30 fps= 60 q=28.0 size=1kB\nnoise line\nframe= 60 fps= 62 q=28.0 size=2kB\nend\n";
    assert_eq!(v.parse_fps(log), Some(61));
    assert_eq!(v.parse_fps("frame=1 fps=10 q=1\rframe=2 fps=20 q=1\rframe=3 fps=1 q=1"), Some(15));
    assert_eq!(v.parse_fps("nothing here"), None);
    assert_eq!(v.parse_fps("frame= 1 fps=abc q=1"), None);
    assert_eq!(v.parse_single_fps_line(&fixmylib::text::chars_of("fps=25 q=3")), Some(25));
}

#[test]
fn exiftool_first_element() {
    let listing = Ok(vec![exif("image/jpeg"), exif("video/mp4")]);
    assert_eq!(exiftool_on_file(listing).unwrap().mime_type, "image/jpeg");
    assert_eq!(exiftool_on_file(Ok(vec![])), Err(ExiftoolError::MissingElement));
    assert_eq!(exiftool_on_file(Err(ExiftoolError::Io("gone".to_string()))), Err(ExiftoolError::Io("gone".to_string())));
    assert_eq!(ExiftoolError::Status("exit 1".to_string()).describe(), "Status(exit 1)");
}

#[test]
fn classification_prefers_images() {
    assert_eq!(classify(&Ok(exif("image/png"))), Classification::Image);
    assert_eq!(classify(&Ok(exif("video/mp4"))), Classification::Video);
    assert_eq!(classify(&Ok(exif("text/plain"))), Classification::Other);
    assert_eq!(classify(&Err(ExiftoolError::MissingElement)), Classification::ProbeFailed);
}

#[test]
fn mixed_page_of_three() {
    let files = vec![
        file("/input/a.jpg", "/input", "a", "jpg"),
        file("/input/b.mp4", "/input", "b", "mp4"),
        file("/input/c.txt", "/input", "c", "txt"),
    ];
    let page = pair_files_with_jobs(files, &vec![], "preview", t(5));
    let probes = vec![Ok(exif("image/jpeg")), Ok(exif("video/mp4")), Ok(exif("text/plain"))];
    let media = media_files_of_page("/input", "/output", "preview", &page, &probes);
    assert_eq!(media.images.len(), 1);
    assert_eq!(media.videos.len(), 1);
    assert_eq!(media.images[0].file.file_full_path, "/input/a.jpg");
    assert_eq!(media.videos[0].file.file_full_path, "/input/b.mp4");
    let image_results = vec![ProcessingResult::new(t(6)).with_command_log("converted".to_string()).succeeded(t(7))];
    let video_results = vec![ProcessingResult::new(t(6)).with_command_log("transcoded".to_string()).succeeded(t(8))];
    let rows = file_jobs_of_page(&page, &probes, &image_results, &video_results, "preview", t(9));
    assert_eq!(rows.len(), 3);
    assert_eq!(rows[0].file_full_path, "/input/a.jpg");
    assert_eq!(rows[1].file_full_path, "/input/b.mp4");
    assert_eq!(rows[2].file_full_path, "/input/c.txt");
    assert!(rows.iter().all(|r| r.has_succeeded == Some(true) && r.finished_at == Some(t(9))));
    assert_eq!(rows[0].command_log.as_deref(), Some("converted"));
    assert_eq!(rows[1].command_log.as_deref(), Some("transcoded"));
    assert!(rows[2].command_log.as_deref().unwrap().starts_with("File is neither"));
    assert!(rows[2].command_log.as_deref().unwrap().ends_with("text/plain"));
}

#[test]
fn writeback_keeps_input_order_when_classes_interleave() {
    let files = vec![
        file("/input/v1.mp4", "/input", "v1", "mp4"),
        file("/input/i1.jpg", "/input", "i1", "jpg"),
        file("/input/bad.bin", "/input", "bad", "bin"),
        file("/input/i2.jpg", "/input", "i2", "jpg"),
    ];
    let page = pair_files_with_jobs(files, &vec![], "preview", t(5));
    let probes = vec![
        Ok(exif("video/mp4")),
        Ok(exif("image/jpeg")),
        Err(ExiftoolError::Deserialize("bad json".to_string())),
        Ok(exif("image/jpeg")),
    ];
    let image_results = vec![
        ProcessingResult::new(t(1)).with_command_log("first image".to_string()).succeeded(t(2)),
        ProcessingResult::new(t(1)).with_command("cmd".to_string()).with_command_log("second image".to_string()).failed(t(2)),
    ];
    let video_results = vec![ProcessingResult::new(t(1)).with_command_log("video".to_string()).succeeded(t(2))];
    let rows = file_jobs_of_page(&page, &probes, &image_results, &video_results, "preview", t(9));
    assert_eq!(rows[0].command_log.as_deref(), Some("video"));
    assert_eq!(rows[1].command_log.as_deref(), Some("first image"));
    assert_eq!(rows[2].has_succeeded, Some(false));
    assert_eq!(rows[2].command_log.as_deref(), Some("Failure extracting exif data: Deserialize(bad json)"));
    assert_eq!(rows[3].command_log.as_deref(), Some("second image"));
    assert_eq!(rows[3].command.as_deref(), Some("cmd"));
    assert_eq!(rows[3].has_succeeded, Some(false));
}

#[test]
fn restart_reselects_unfinished_jobs() {
    let files = vec![file("/input/a.jpg", "/input", "a", "jpg"), file("/input/b.mp4", "/input", "b", "mp4")];
    let existing = vec![
        FileJob::pending(&"/input/b.mp4".to_string(), "preview", t(1)),
        FileJob::pending(&"/input/a.jpg".to_string(), "preview", t(2)),
    ];
    let page = pair_files_with_jobs(files, &existing, "preview", t(50));
    assert_eq!(page[0].1.created_at, t(2));
    assert_eq!(page[1].1.created_at, t(1));
    assert!(page.iter().all(|(f, j)| f.file_full_path == j.file_full_path && j.finished_at.is_none()));
    let lone = pair_files_with_jobs(vec![file("/input/z.jpg", "/input", "z", "jpg")], &existing, "preview", t(50));
    assert_eq!(lone[0].1.created_at, t(50));
}
