use fixmylib::config_parser::{
    builtin_preset_name, get_preset_path, replace_args_on_string_contents, validate_config,
    validate_script_contents, IterateOn, Preset, Scan, Script, YamlConfig, YamlConfigPreset,
    YamlIterateOn, YamlPreset, YamlPresetScan, YamlPresetScanScript,
};
use fixmylib::db::{FilescanJob, Folder};
use fixmylib::errors::FixMyLibErrors;
use fixmylib::scanner::{finished_scan_job, folder_for_entry, scan_jobs_to_run, EntryProperties};
use fixmylib::time::Timestamp;

fn t(m: i64) -> Timestamp {
    Timestamp::from_micros(m)
}

fn entry(path: &str) -> EntryProperties {
    EntryProperties { full_path: path.to_string(), root: "/input".to_string(), size: 200, modified_at: t(11) }
}

fn config_preset(args: &[(&str, &str)]) -> YamlConfigPreset {
    YamlConfigPreset {
        name: "builtins/thumbs".to_string(),
        args: args.iter().map(|(k, v)| (k.to_string(), v.to_string())).collect(),
    }
}

#[test]
fn empty_tree_starts_one_scan() {
    let (jobs, stored) = scan_jobs_to_run(vec![], "/input", t(3));
    assert_eq!(jobs.len(), 1);
    assert_eq!(jobs[0].full_path, "/input");
    assert_eq!(jobs[0].created_at, t(3));
    assert_eq!(stored, Some(jobs[0].clone()));
    let done = finished_scan_job(jobs[0].clone(), t(4));
    assert_eq!(done.finished_at, Some(t(4)));
    assert_eq!(done.id, jobs[0].id);
    let root = folder_for_entry(None, &entry("/input"), done.id).unwrap();
    assert_eq!(root.parent_folder_full_path, root.folder_full_path);
    assert_eq!(root.path, "");
}

#[test]
fn unfinished_scans_are_resumed() {
    let old = FilescanJob { id: 5, full_path: "/input".to_string(), created_at: t(1), finished_at: None };
    let (jobs, stored) = scan_jobs_to_run(vec![old.clone()], "/elsewhere", t(3));
    assert_eq!(jobs, vec![old]);
    assert_eq!(stored, None);
}

#[test]
fn entry_becomes_file_record() {
    let f = entry("/input/sub/Photo.JPG").to_file(9, t(20)).unwrap();
    assert_eq!(f.file_full_path, "/input/sub/Photo.JPG");
    assert_eq!(f.folder_full_path, "/input/sub");
    assert_eq!(f.path, "sub/Photo.JPG");
    assert_eq!(f.stem, "Photo");
    assert_eq!(f.extension, "jpg");
    assert_eq!(f.name, "Photo.JPG");
    assert_eq!(f.size, 200);
    assert_eq!(f.file_modified_at, t(11));
    assert_eq!(f.job_id, 9);
    assert!(!f.has_been_processed);
}

#[test]
fn entry_without_extension_is_an_error() {
    match entry("/input/README").to_file(1, t(1)) {
        Err(FixMyLibErrors::PathParsing(m)) => assert_eq!(m, "No extension found for README"),
        other => panic!("unexpected {other:?}"),
    }
}

#[test]
fn rescanning_keeps_records() {
    let e = entry("/input/sub");
    let first = folder_for_entry(None, &e, 1).unwrap();
    assert_eq!(first.parent_folder_full_path, "/input");
    assert_eq!(first.name, "sub");
    let second = folder_for_entry(Some(first.clone()), &e, 2).unwrap();
    assert_eq!(second, Folder { job_id: 2, ..first.clone() });
    let a = entry("/input/sub/a.jpg").to_file(1, t(1)).unwrap();
    let b = entry("/input/sub/a.jpg").to_file(2, t(2)).unwrap();
    assert_eq!(b.file_full_path, a.file_full_path);
    assert_eq!(b.stem, a.stem);
    assert_eq!(b.size, a.size);
    assert_ne!(b.job_id, a.job_id);
}

#[test]
fn preset_arguments_and_required_fields() {
    let p = config_preset(&[("input_folder", "/in"), ("concurrency", "4"), ("working_dir", "/tmp")]);
    assert_eq!(p.input_folder(), "/in");
    assert_eq!(p.working_dir(), "/tmp");
    assert_eq!(p.concurrency(), Some(4));
    assert!(p.contains_required_fields().is_ok());
    let q = config_preset(&[("concurrency", "x")]);
    assert_eq!(q.input_folder(), "");
    assert_eq!(q.concurrency(), None);
    assert_eq!(
        q.contains_required_fields(),
        Err(FixMyLibErrors::InvalidConfigPreset(
            "The following required arguments were not found for preset builtins/thumbs: input_folder,working_dir".to_string()
        ))
    );
    assert!(validate_config(&YamlConfig { presets: vec![p.clone()] }).is_ok());
    assert!(validate_config(&YamlConfig { presets: vec![p, q] }).is_err());
}

#[test]
fn argument_substitution() {
    let p = config_preset(&[("size", "400"), ("input_folder", "/in")]);
    assert_eq!(replace_args_on_string_contents("resize <&size>x<&size> <&input_folder>", &p).unwrap(), "resize 400x400 /in");
    match replace_args_on_string_contents("a <&missing> b <&other>", &p) {
        Err(FixMyLibErrors::InvalidConfigPreset(m)) => assert_eq!(
            m,
            "[builtins/thumbs] Some arguments for this preset are missing. Could not find args for <&missing>, <&other>, please add them in your config.yaml."
        ),
        other => panic!("unexpected {other:?}"),
    }
}

#[test]
fn script_parameter_validation() {
    assert!(validate_script_contents("cp <file-stem> <file-path>", "p/s.sh", YamlIterateOn::Files).is_ok());
    assert!(validate_script_contents("if [ a < b ]; then echo > x; fi", "p/s.sh", YamlIterateOn::Files).is_ok());
    assert_eq!(
        validate_script_contents("cp <file-stem> <bogus> <also>", "p/s.sh", YamlIterateOn::Folders),
        Err(FixMyLibErrors::InvalidConfigPreset(
            "[p/s.sh] The following parameters are not valid: <file-stem>, <bogus>, <also>".to_string()
        ))
    );
}

#[test]
fn preset_from_definition() {
    let cfg = config_preset(&[("input_folder", "/in"), ("concurrency", "3"), ("working_dir", "/w"), ("q", "80")]);
    let def = YamlPreset {
        name: "thumbs".to_string(),
        description: "Thumbnails".to_string(),
        args: vec![],
        scans: vec![YamlPresetScan {
            iterate_on: YamlIterateOn::Files,
            scripts: vec![YamlPresetScanScript {
                name: "convert.sh".to_string(),
                target_extensions: Some("JPG,png".to_string()),
                exclude_extensions: None,
            }],
            concurrency: None,
        }],
    };
    let contents = vec![vec!["convert <input-file-full-path> -quality <&q> out".to_string()]];
    let preset: Preset = Preset::from(&def, &cfg, "/builtins/thumbs", &contents).unwrap();
    assert_eq!(preset.name, "builtins/thumbs");
    assert_eq!(preset.description, "Thumbnails");
    let scan: &Scan = &preset.scans[0];
    assert_eq!(scan.threads, 3);
    assert_eq!(scan.iterate_on, IterateOn::Files);
    assert_eq!(scan.input_folder, "/in");
    let script: &Script = &scan.scripts[0];
    assert_eq!(script.contents, "convert <input-file-full-path> -quality 80 out");
    assert_eq!(script.working_dir, "/w");
    assert!(script.extension_list.is_desired("jpg"));
    assert!(!script.extension_list.is_desired("gif"));
    assert_eq!(scan.name(), "iterate_on_files_convert.sh");

    let bad = vec![vec!["convert <input-folder-path>".to_string()]];
    assert!(Preset::from(&def, &cfg, "/builtins/thumbs", &bad).is_err());
}

#[test]
fn scan_name_joins_scripts() {
    let s = Scan {
        threads: 1,
        iterate_on: IterateOn::Folders,
        scripts: vec![
            Script { name: "a".to_string(), ..Default::default() },
            Script { name: "b".to_string(), ..Default::default() },
        ],
        input_folder: "/in".to_string(),
    };
    assert_eq!(s.name(), "iterate_on_folders_a_and_b");
}

#[test]
fn builtin_names_and_paths() {
    assert_eq!(builtin_preset_name("builtins/thumbs"), Some("thumbs".to_string()));
    assert_eq!(builtin_preset_name("custom/thumbs"), None);
    assert_eq!(get_preset_path("/opt/builtins", "thumbs"), "/opt/builtins/thumbs");
    assert_eq!(IterateOn::from(YamlIterateOn::Folders), IterateOn::Folders);
}

#[test]
fn error_messages() {
    assert_eq!(FixMyLibErrors::PathParsing("x".to_string()).message(), "Failure parsing path: x");
    assert_eq!(FixMyLibErrors::DbInit("down".to_string()).message(), "Error starting DB: down");
}
