use ingest::{
    accompanying_jpeg, exists_plus_one, BackupNeeds, CopyKind, CopyOp, ErrorKind, Filter, FsPath,
    Ingestor, IngestorBuilder, IsHidden, IsJpeg, Needs, PathSet, Position, Rename, Snapshot,
    SourceEntry, Structure, VolumeStatus,
};

fn fsp(parts: &[&str]) -> FsPath {
    FsPath::from_vec(parts.iter().map(|s| s.to_string()).collect())
}

fn path_str(p: &FsPath) -> String {
    p.components().join("/")
}

fn file_entry(root: &[&str], path: &[&str], size: u64, has_jpg: bool, has_jpeg: bool) -> SourceEntry {
    SourceEntry {
        root: fsp(root),
        path: fsp(path),
        size,
        is_dir: false,
        has_jpg,
        has_jpeg,
        has_mate: has_jpg || has_jpeg,
    }
}

fn mated_entry(root: &[&str], path: &[&str], size: u64) -> SourceEntry {
    SourceEntry {
        root: fsp(root),
        path: fsp(path),
        size,
        is_dir: false,
        has_jpg: false,
        has_jpeg: false,
        has_mate: true,
    }
}

fn dir_entry(root: &[&str], path: &[&str]) -> SourceEntry {
    SourceEntry {
        root: fsp(root),
        path: fsp(path),
        size: 0,
        is_dir: true,
        has_jpg: false,
        has_jpeg: false,
        has_mate: false,
    }
}

fn images_rename_ingestor(zeroes: u8, sequence: i32) -> Ingestor {
    let rename = Rename {
        name: None,
        position: Position::Prefix,
        sequence,
        zeroes,
    };
    IngestorBuilder::new()
        .with_structure(Structure::Rename(rename))
        .with_target(fsp(&["out"]))
        .with_source(vec![fsp(&["src"])])
        .with_filter(Filter::images())
        .copy_xmp(false)
        .build()
        .unwrap()
}

fn outputs_of(ops: &[CopyOp]) -> Vec<String> {
    ops.iter().map(|op| path_str(&op.output)).collect()
}

#[test]
fn filter_matches_is_case_insensitive_on_extensions() {
    let f = Filter::images();
    assert!(f.matches(&fsp(&["src", "a.cr2"]), 10));
    assert!(f.matches(&fsp(&["src", "a.CR2"]), 10));
    assert!(f.matches(&fsp(&["src", "a.Jpg"]), 10));
    assert!(!f.matches(&fsp(&["src", "a.zip"]), 10));
}

#[test]
fn filter_with_empty_extension_accepts_extensionless_within_bounds() {
    let f = Filter {
        extensions: vec![String::new()],
        min_size: 10,
        max_size: 100,
        ignore_hidden: true,
    };
    assert!(f.matches(&fsp(&["src", "data"]), 50));
    assert!(f.matches(&fsp(&["src", "data"]), 10));
    assert!(f.matches(&fsp(&["src", "data"]), 100));
    assert!(!f.matches(&fsp(&["src", "data"]), 9));
    assert!(!f.matches(&fsp(&["src", "data"]), 101));
    assert!(!f.matches(&fsp(&["src", ".data"]), 50));
}

#[test]
fn filter_rejects_junk_names_and_extensions() {
    let any = Filter {
        extensions: Vec::new(),
        min_size: 0,
        max_size: u64::MAX,
        ignore_hidden: true,
    };
    assert!(!any.matches(&fsp(&["src", "IndexerVolumeGuid"]), 10));
    assert!(!any.matches(&fsp(&["src", "System Volume Information"]), 10));
    assert!(!any.matches(&fsp(&["src", "a.xmp"]), 10));
    assert!(!any.matches(&fsp(&["src", "setup.exe"]), 10));
    assert!(any.matches(&fsp(&["src", "a.cr2"]), 10));
}

#[test]
fn filter_hidden_handling() {
    let f = Filter::images();
    assert!(!f.matches(&fsp(&["src", ".a.cr2"]), 10));
    let loose = Filter {
        ignore_hidden: false,
        ..Filter::images()
    };
    assert!(loose.matches(&fsp(&["src", ".a.cr2"]), 10));
    assert!(loose.matches(&fsp(&["src", "a.cr2"]), 10));
}

#[test]
fn rename_file_stem_formats_prefix_and_suffix() {
    let p = fsp(&["src", "a.cr2"]);
    let prefix = Rename {
        name: None,
        position: Position::Prefix,
        sequence: 7,
        zeroes: 3,
    };
    assert_eq!(prefix.file_stem(&p).unwrap(), "007-a");
    let suffix = Rename {
        name: None,
        position: Position::Suffix,
        sequence: 7,
        zeroes: 3,
    };
    assert_eq!(suffix.file_stem(&p).unwrap(), "a-007");
    let negative = Rename {
        name: None,
        position: Position::Prefix,
        sequence: -3,
        zeroes: 5,
    };
    assert_eq!(negative.file_stem(&p).unwrap(), "-0003-a");
    let named = Rename {
        name: Some("image".to_string()),
        position: Position::Suffix,
        sequence: 1,
        zeroes: 5,
    };
    assert_eq!(named.file_stem(&p).unwrap(), "image-00001");
}

#[test]
fn rename_next_advances_by_one_per_success_and_not_on_failure() {
    let mut r = Rename {
        name: None,
        position: Position::Prefix,
        sequence: 0,
        zeroes: 3,
    };
    assert_eq!(r.next(&fsp(&["a.cr2"])).unwrap(), "000-a");
    assert_eq!(r.sequence, 1);
    assert_eq!(r.next(&fsp(&["b.png"])).unwrap(), "001-b");
    assert_eq!(r.sequence, 2);
    let empty = FsPath::from_vec(Vec::new());
    assert_eq!(r.next(&empty), Err(ErrorKind::MissingStem));
    assert_eq!(r.sequence, 2);
}

#[test]
fn collision_free_path_is_returned_unchanged() {
    let existing = PathSet::new();
    let p = fsp(&["out", "a.jpg"]);
    let r = exists_plus_one(&p, &existing).unwrap();
    assert_eq!(path_str(&r), "out/a.jpg");
}

#[test]
fn collision_suffix_chain_increments() {
    let existing = PathSet::from_vec(&vec![fsp(&["out", "a.jpg"])]);
    let r = exists_plus_one(&fsp(&["out", "a.jpg"]), &existing).unwrap();
    assert_eq!(path_str(&r), "out/a-1.jpg");

    let existing3 = PathSet::from_vec(&vec![
        fsp(&["out", "a.jpg"]),
        fsp(&["out", "a-1.jpg"]),
        fsp(&["out", "a-2.jpg"]),
    ]);
    let r3 = exists_plus_one(&fsp(&["out", "a.jpg"]), &existing3).unwrap();
    assert_eq!(path_str(&r3), "out/a-3.jpg");
}

#[test]
fn collision_on_extensionless_path_fails() {
    let existing = PathSet::from_vec(&vec![fsp(&["out", "data"])]);
    assert_eq!(
        exists_plus_one(&fsp(&["out", "data"]), &existing),
        Err(ErrorKind::MissingExtension)
    );
    let empty_path = FsPath::from_vec(Vec::new());
    let holds_empty = PathSet::from_vec(&vec![FsPath::from_vec(Vec::new())]);
    assert_eq!(
        exists_plus_one(&empty_path, &holds_empty),
        Err(ErrorKind::MissingFileName)
    );
}

#[test]
fn fits_requires_strict_surplus() {
    let n = Needs {
        total: 100,
        free: 100,
        backup: None,
    };
    assert!(!n.fits());
    let n2 = Needs {
        total: 100,
        free: 101,
        backup: None,
    };
    assert!(n2.fits());
    assert!(!n2.fits_with(1));
    let n3 = Needs {
        total: 100,
        free: 106,
        backup: None,
    };
    assert!(n3.fits_with(5));
    assert!(!n3.fits_with(6));
}

#[test]
fn fits_with_backup_on_same_disk_doubles_the_requirement() {
    let same = |free: u64| Needs {
        total: 100,
        free,
        backup: Some(BackupNeeds {
            free: 0,
            same_disk: true,
        }),
    };
    assert!(!same(200).fits());
    assert!(same(201).fits());
    let split = Needs {
        total: 100,
        free: 150,
        backup: Some(BackupNeeds {
            free: 100,
            same_disk: false,
        }),
    };
    assert!(!split.fits());
    let split_ok = Needs {
        total: 100,
        free: 150,
        backup: Some(BackupNeeds {
            free: 101,
            same_disk: false,
        }),
    };
    assert!(split_ok.fits());
}

#[test]
fn accompanying_jpeg_fails_on_a_jpeg() {
    assert_eq!(
        accompanying_jpeg(&fsp(&["src", "a.jpg"]), true, true),
        Err(ErrorKind::JpegHasNoCompanion)
    );
    assert_eq!(
        accompanying_jpeg(&fsp(&["src", "a.JPEG"]), true, true),
        Err(ErrorKind::JpegHasNoCompanion)
    );
}

#[test]
fn accompanying_jpeg_resolves_jpg_before_jpeg() {
    let jpg = accompanying_jpeg(&fsp(&["src", "a.cr2"]), true, true).unwrap();
    assert_eq!(path_str(&jpg), "src/a.jpg");
    let jpeg = accompanying_jpeg(&fsp(&["src", "a.cr2"]), false, true).unwrap();
    assert_eq!(path_str(&jpeg), "src/a.jpeg");
    assert_eq!(
        accompanying_jpeg(&fsp(&["src", "a.cr2"]), false, false),
        Err(ErrorKind::NoAccompanyingJpeg)
    );
    assert_eq!(
        accompanying_jpeg(&fsp(&["src", "noext"]), true, true),
        Err(ErrorKind::MissingExtension)
    );
}

#[test]
fn ingest_copies_a_paired_jpeg_exactly_once() {
    let mut ing = images_rename_ingestor(3, 0);
    let snap = Snapshot {
        entries: vec![
            file_entry(&["src"], &["src", "a.cr2"], 10, true, false),
            mated_entry(&["src"], &["src", "a.jpg"], 5),
        ],
        target: VolumeStatus {
            free: 1_000_000,
            existing: Vec::new(),
        },
        backup: None,
        same_disk: false,
    };
    let mut ops: Vec<CopyOp> = Vec::new();
    ing.ingest(&snap, false, &mut ops).unwrap();
    let jpeg_artifacts: Vec<&CopyOp> = ops
        .iter()
        .filter(|op| path_str(&op.output) == "out/000-a.jpg")
        .collect();
    assert_eq!(jpeg_artifacts.len(), 1);
    assert_eq!(jpeg_artifacts[0].kind, CopyKind::JpegCompanion);
    let primaries: Vec<&CopyOp> = ops
        .iter()
        .filter(|op| op.kind == CopyKind::Primary)
        .collect();
    assert_eq!(primaries.len(), 1);
    assert_eq!(path_str(&primaries[0].output), "out/000-a.cr2");
}

#[test]
fn ingest_renames_one_contiguous_sequence() {
    let mut ing = images_rename_ingestor(3, 0);
    let snap = Snapshot {
        entries: vec![
            file_entry(&["src"], &["src", "a.cr2"], 10, true, false),
            mated_entry(&["src"], &["src", "a.jpg"], 5),
            file_entry(&["src"], &["src", "b.png"], 7, false, false),
        ],
        target: VolumeStatus {
            free: 1_000_000,
            existing: Vec::new(),
        },
        backup: None,
        same_disk: false,
    };
    let mut ops: Vec<CopyOp> = Vec::new();
    ing.ingest(&snap, false, &mut ops).unwrap();
    let mut outputs = outputs_of(&ops);
    outputs.sort();
    assert_eq!(
        outputs,
        vec![
            "out/000-a.cr2".to_string(),
            "out/000-a.jpg".to_string(),
            "out/001-b.png".to_string(),
        ]
    );
    assert_eq!(ing.progress, 3);
}

#[test]
fn ingest_retain_mirrors_the_relative_path() {
    let mut ing = IngestorBuilder::new()
        .with_structure(Structure::Retain)
        .with_target(fsp(&["out"]))
        .with_source(vec![fsp(&["src"])])
        .with_filter(Filter::images())
        .copy_xmp(false)
        .build()
        .unwrap();
    let snap = Snapshot {
        entries: vec![
            dir_entry(&["src"], &["src", "x"]),
            dir_entry(&["src"], &["src", "x", "y"]),
            file_entry(&["src"], &["src", "x", "y", "f.cr2"], 10, false, false),
        ],
        target: VolumeStatus {
            free: 1_000_000,
            existing: Vec::new(),
        },
        backup: None,
        same_disk: false,
    };
    let mut ops: Vec<CopyOp> = Vec::new();
    ing.ingest(&snap, false, &mut ops).unwrap();
    assert_eq!(ops.len(), 1);
    assert_eq!(ops[0].kind, CopyKind::Primary);
    assert_eq!(path_str(&ops[0].input), "src/x/y/f.cr2");
    assert_eq!(path_str(&ops[0].output), "out/x/y/f.cr2");
}

#[test]
fn ingest_preserve_flattens_to_the_file_name() {
    let mut ing = IngestorBuilder::new()
        .with_structure(Structure::Preserve)
        .with_target(fsp(&["out"]))
        .with_source(vec![fsp(&["src"])])
        .with_filter(Filter::images())
        .copy_xmp(false)
        .build()
        .unwrap();
    let snap = Snapshot {
        entries: vec![file_entry(
            &["src"],
            &["src", "x", "y", "f.cr2"],
            10,
            false,
            false,
        )],
        target: VolumeStatus {
            free: 1_000_000,
            existing: Vec::new(),
        },
        backup: None,
        same_disk: false,
    };
    let mut ops: Vec<CopyOp> = Vec::new();
    ing.ingest(&snap, false, &mut ops).unwrap();
    assert_eq!(ops.len(), 1);
    assert_eq!(path_str(&ops[0].output), "out/f.cr2");
}

#[test]
fn ingest_cancelled_before_start_plans_nothing() {
    let mut ing = images_rename_ingestor(3, 0);
    let snap = Snapshot {
        entries: vec![file_entry(&["src"], &["src", "a.cr2"], 10, false, false)],
        target: VolumeStatus {
            free: 1_000_000,
            existing: Vec::new(),
        },
        backup: None,
        same_disk: false,
    };
    let mut ops: Vec<CopyOp> = Vec::new();
    assert_eq!(ing.ingest(&snap, true, &mut ops), Err(ErrorKind::Cancelled));
    assert!(ops.is_empty());
    assert_eq!(ing.progress, 0);
}

#[test]
fn ingest_fails_before_any_copy_when_both_volumes_are_short() {
    let mut ing = IngestorBuilder::new()
        .with_structure(Structure::Retain)
        .with_target(fsp(&["out"]))
        .backup(fsp(&["bk"]))
        .with_source(vec![fsp(&["src"])])
        .with_filter(Filter::images())
        .build()
        .unwrap();
    let snap = Snapshot {
        entries: vec![file_entry(&["src"], &["src", "a.cr2"], 100, false, false)],
        target: VolumeStatus {
            free: 90,
            existing: Vec::new(),
        },
        backup: Some(VolumeStatus {
            free: 95,
            existing: Vec::new(),
        }),
        same_disk: false,
    };
    let mut ops: Vec<CopyOp> = Vec::new();
    assert_eq!(
        ing.ingest(&snap, false, &mut ops),
        Err(ErrorKind::InsufficientSpace)
    );
    assert!(ops.is_empty());
    assert_eq!(ing.progress, 0);
}

#[test]
fn ingest_fails_when_free_space_merely_equals_the_requirement() {
    let mut ing = images_rename_ingestor(3, 0);
    let snap = Snapshot {
        entries: vec![file_entry(&["src"], &["src", "a.cr2"], 100, false, false)],
        target: VolumeStatus {
            free: 100,
            existing: Vec::new(),
        },
        backup: None,
        same_disk: false,
    };
    let mut ops: Vec<CopyOp> = Vec::new();
    assert_eq!(
        ing.ingest(&snap, false, &mut ops),
        Err(ErrorKind::InsufficientSpace)
    );
    assert!(ops.is_empty());
}

#[test]
fn ingest_backup_pass_repeats_the_run_with_restarted_numbering() {
    let rename = Rename {
        name: None,
        position: Position::Prefix,
        sequence: 0,
        zeroes: 3,
    };
    let mut ing = IngestorBuilder::new()
        .with_structure(Structure::Rename(rename))
        .with_target(fsp(&["out"]))
        .backup(fsp(&["bk"]))
        .with_source(vec![fsp(&["src"])])
        .with_filter(Filter::images())
        .copy_xmp(false)
        .copy_jpg(false)
        .build()
        .unwrap();
    let snap = Snapshot {
        entries: vec![
            file_entry(&["src"], &["src", "a.cr2"], 10, false, false),
            file_entry(&["src"], &["src", "b.png"], 7, false, false),
        ],
        target: VolumeStatus {
            free: 1_000_000,
            existing: Vec::new(),
        },
        backup: Some(VolumeStatus {
            free: 1_000_000,
            existing: Vec::new(),
        }),
        same_disk: false,
    };
    let mut ops: Vec<CopyOp> = Vec::new();
    ing.ingest(&snap, false, &mut ops).unwrap();
    assert_eq!(
        outputs_of(&ops),
        vec![
            "out/000-a.cr2".to_string(),
            "out/001-b.png".to_string(),
            "bk/000-a.cr2".to_string(),
            "bk/001-b.png".to_string(),
        ]
    );
    assert!(ing.backup.is_none());
    assert_eq!(path_str(&ing.target), "bk");
}

#[test]
fn ingest_avoids_existing_target_names() {
    let mut ing = images_rename_ingestor(3, 0);
    let snap = Snapshot {
        entries: vec![file_entry(&["src"], &["src", "a.cr2"], 10, false, false)],
        target: VolumeStatus {
            free: 1_000_000,
            existing: vec![fsp(&["out", "000-a.cr2"])],
        },
        backup: None,
        same_disk: false,
    };
    let mut ops: Vec<CopyOp> = Vec::new();
    ing.ingest(&snap, false, &mut ops).unwrap();
    assert_eq!(outputs_of(&ops), vec!["out/000-a-1.cr2".to_string()]);
}

#[test]
fn ingest_plans_xmp_sidecars_when_enabled() {
    let rename = Rename {
        name: None,
        position: Position::Prefix,
        sequence: 0,
        zeroes: 3,
    };
    let mut ing = IngestorBuilder::new()
        .with_structure(Structure::Rename(rename))
        .with_target(fsp(&["out"]))
        .with_source(vec![fsp(&["src"])])
        .with_filter(Filter::images())
        .build()
        .unwrap();
    let snap = Snapshot {
        entries: vec![file_entry(&["src"], &["src", "a.cr2"], 10, false, false)],
        target: VolumeStatus {
            free: 1_000_000,
            existing: Vec::new(),
        },
        backup: None,
        same_disk: false,
    };
    let mut ops: Vec<CopyOp> = Vec::new();
    ing.ingest(&snap, false, &mut ops).unwrap();
    assert_eq!(ops.len(), 2);
    assert_eq!(ops[0].kind, CopyKind::XmpSidecar);
    assert_eq!(path_str(&ops[0].input), "src/a.xmp");
    assert_eq!(path_str(&ops[0].output), "out/000-a.xmp");
    assert_eq!(ops[1].kind, CopyKind::Primary);
}

#[test]
fn builder_requires_the_four_mandatory_fields() {
    let mut b = IngestorBuilder::new();
    b.with_target(fsp(&["out"]));
    assert_eq!(b.build().err(), Some(ErrorKind::MissingField));
    let ok = IngestorBuilder::new()
        .with_structure(Structure::Retain)
        .with_target(fsp(&["out"]))
        .with_source(vec![fsp(&["src"])])
        .with_filter(Filter::default())
        .build();
    assert!(ok.is_ok());
}

#[test]
fn builder_applies_the_documented_defaults() {
    let ing = IngestorBuilder::new()
        .with_structure(Structure::Retain)
        .with_target(fsp(&["out"]))
        .with_source(vec![fsp(&["src"])])
        .with_filter(Filter::default())
        .build()
        .unwrap();
    assert!(ing.copy_xmp);
    assert!(ing.copy_jpg);
    assert_eq!(ing.progress, 0);
    assert_eq!(ing.depth, usize::MAX);
    assert!(ing.backup.is_none());
    assert!(ing.structure.is_retained());
}

#[test]
fn strip_prefix_reports_a_mismatched_root() {
    let p = fsp(&["elsewhere", "f.cr2"]);
    assert_eq!(
        p.strip_prefix(&fsp(&["src"])).err(),
        Some(ErrorKind::StripPrefixError)
    );
    let rel = fsp(&["src", "x", "f.cr2"]).strip_prefix(&fsp(&["src"])).unwrap();
    assert_eq!(path_str(&rel), "x/f.cr2");
}

#[test]
fn renamed_transfer_reports_per_file_errors() {
    let mut ing = images_rename_ingestor(3, 0);
    let mut rename = Rename {
        name: None,
        position: Position::Prefix,
        sequence: i32::MAX,
        zeroes: 3,
    };
    let mut created = PathSet::new();
    let mut ops: Vec<CopyOp> = Vec::new();
    assert_eq!(
        ing.ingest_file_renamed(
            &fsp(&["src", "a.cr2"]),
            &mut rename,
            false,
            false,
            &mut created,
            &mut ops
        ),
        Err(ErrorKind::SequenceExhausted)
    );
    let mut fresh = Rename {
        name: None,
        position: Position::Prefix,
        sequence: 0,
        zeroes: 3,
    };
    assert_eq!(
        ing.ingest_file_renamed(
            &fsp(&["src", "noext"]),
            &mut fresh,
            false,
            false,
            &mut created,
            &mut ops
        ),
        Err(ErrorKind::MissingExtension)
    );
    assert_eq!(fresh.sequence, 0);
    assert!(ops.is_empty());
}

#[test]
fn queries_report_files_folders_and_totals() {
    let ing = images_rename_ingestor(3, 0);
    let entries = vec![
        dir_entry(&["src"], &["src", "x"]),
        file_entry(&["src"], &["src", "a.cr2"], 10, false, false),
        file_entry(&["src"], &["src", "notes.txt"], 4, false, false),
        file_entry(&["src"], &["src", "b.png"], 7, false, false),
    ];
    let files = ing.files(&entries);
    let names: Vec<String> = files.iter().map(path_str).collect();
    assert_eq!(names, vec!["src/a.cr2".to_string(), "src/b.png".to_string()]);
    let folders = ing.folders(&entries);
    assert_eq!(folders.len(), 1);
    assert_eq!(path_str(&folders[0]), "src/x");
    assert_eq!(ing.total_size(&entries), 17);
    let needs = ing.needs(&entries, 40, None);
    assert_eq!(needs.total, 17);
    assert_eq!(needs.free, 40);
    assert!(needs.backup.is_none());
    assert!(ing.fits(&entries, 18, &None));
    assert!(!ing.fits(&entries, 17, &None));
    assert!(ing.fits_with(&entries, 26, &None, 8));
    assert!(!ing.fits_with(&entries, 25, &None, 8));
}

#[test]
fn path_queries_fold_case_and_spot_hidden_names() {
    assert!(fsp(&["src", "a.JPeG"]).is_jpeg());
    assert!(fsp(&["src", "a.jpg"]).is_jpeg());
    assert!(!fsp(&["src", "a.cr2"]).is_jpeg());
    assert!(fsp(&["src", ".config"]).is_hidden());
    assert!(!fsp(&["src", "plain"]).is_hidden());
    assert_eq!(
        fsp(&["a", "b.tar.gz"]).extension().as_deref(),
        Some("gz")
    );
    assert_eq!(
        fsp(&["a", "b.tar.gz"]).file_stem().as_deref(),
        Some("b.tar")
    );
    assert_eq!(fsp(&["a", ".config"]).extension(), None);
    assert_eq!(
        path_str(&fsp(&["a", "b.cr2"]).with_extension("jpg")),
        "a/b.jpg"
    );
}

#[test]
fn ingest_copies_a_standalone_jpeg_exactly_once() {
    let mut ing = images_rename_ingestor(3, 0);
    let snap = Snapshot {
        entries: vec![file_entry(&["src"], &["src", "solo.jpg"], 5, false, false)],
        target: VolumeStatus {
            free: 1_000_000,
            existing: Vec::new(),
        },
        backup: None,
        same_disk: false,
    };
    let mut ops: Vec<CopyOp> = Vec::new();
    ing.ingest(&snap, false, &mut ops).unwrap();
    assert_eq!(outputs_of(&ops), vec!["out/000-solo.jpg".to_string()]);
}

#[test]
fn ingest_replays_a_sidecar_whose_mate_never_arrives() {
    let mut ing = images_rename_ingestor(3, 0);
    let snap = Snapshot {
        entries: vec![mated_entry(&["src"], &["src", "a.jpg"], 5)],
        target: VolumeStatus {
            free: 1_000_000,
            existing: Vec::new(),
        },
        backup: None,
        same_disk: false,
    };
    let mut ops: Vec<CopyOp> = Vec::new();
    ing.ingest(&snap, false, &mut ops).unwrap();
    assert_eq!(
        outputs_of(&ops),
        vec!["out/000-a.jpg".to_string(), "out/001-a.jpg".to_string()]
    );
    assert_eq!(ing.progress, 2);
}

#[test]
fn stock_filters_list_the_documented_extensions() {
    let raws = Filter::raws();
    assert!(raws.matches(&fsp(&["a.nef"]), 1));
    assert!(raws.matches(&fsp(&["a.x3f"]), 1));
    assert!(!raws.matches(&fsp(&["a.jpg"]), 1));
    let lossy = Filter::jpegs();
    assert!(lossy.matches(&fsp(&["a.tiff"]), 1));
    assert!(lossy.matches(&fsp(&["a.jpg"]), 1));
    assert!(!lossy.matches(&fsp(&["a.nef"]), 1));
    let any = Filter::default();
    assert!(any.matches(&fsp(&["anything.xyz"]), 0));
    let preset = IngestorBuilder::images();
    assert!(preset.filter.is_some());
    let blank = Ingestor::builder();
    assert!(blank.structure.is_none());
    assert!(blank.filter.is_none());
}

#[test]
fn structure_predicates_identify_the_variant() {
    assert!(Structure::Retain.is_retained());
    assert!(!Structure::Retain.is_renamed());
    assert!(Structure::Preserve.is_preserved());
    let renamed = Structure::Rename(Rename {
        name: None,
        position: Position::Prefix,
        sequence: 0,
        zeroes: 0,
    });
    assert!(renamed.is_renamed());
    assert!(!renamed.is_preserved());
}
