use s21_hijack::backup::{
    backup_dir, backup_file_name, backup_target, stamped_file_name, backups_to_prune, is_corruption_error, newest_first, parse_name,
    sanitized_stem, BackupKind, BackupStamp, RecoveryCandidate, BACKUP_SUBDIR, KEEP_AUTOSAVES,
    KEEP_BACKUPS, TS_FMT,
};

fn stem_of(path: &str) -> Option<&str> {
    std::path::Path::new(path).file_stem().and_then(|s| s.to_str())
}

fn stamp_text(st: BackupStamp) -> String {
    chrono::DateTime::from_timestamp(st.secs, st.nanos)
        .unwrap()
        .format(TS_FMT)
        .to_string()
}

#[test]
fn sanitized_stem_strips_illegal_chars() {
    assert_eq!(sanitized_stem(stem_of("/shows/My Show #1!.s21show")), "My_Show__1_");
    assert_eq!(sanitized_stem(stem_of("/shows/Set_2-Final.v3.s21show")), "Set_2-Final.v3");
}

#[test]
fn sanitized_stem_of_missing_or_empty_stem_is_untitled() {
    assert_eq!(sanitized_stem(None), "untitled");
    assert_eq!(sanitized_stem(Some("")), "untitled");
    assert_eq!(sanitized_stem(Some("Ünïcode")), "_n_code");
}

#[test]
fn backup_target_round_trips_through_parse() {
    let p = "/shows/My_Show.s21show";
    let target = backup_target(p, BackupKind::Autosave, chrono::Utc::now().timestamp()).unwrap();
    let target = std::path::Path::new(&target);
    assert!(target.starts_with("/shows/.s21backups"));
    let name = target.file_name().unwrap().to_string_lossy();
    let (kind, stem, _ts) = parse_name(&name).expect("parses");
    assert_eq!(kind, BackupKind::Autosave);
    assert_eq!(stem, "My_Show");
}

#[test]
fn backup_target_is_exact_for_a_fixed_time() {
    // 2026-05-27 14:03:11 UTC
    let t = backup_target("/shows/My Show.s21show", BackupKind::Backup, 1_779_890_591).unwrap();
    assert_eq!(t, "/shows/.s21backups/backup__My_Show__20260527-140311.s21show");
    let (kind, stem, stamp) = parse_name("backup__My_Show__20260527-140311.s21show").unwrap();
    assert_eq!((kind, stem.as_str()), (BackupKind::Backup, "My_Show"));
    assert_eq!((stamp.secs, stamp.nanos), (1_779_890_591, 0));
    let early = backup_target("/a/b.s21show", BackupKind::Autosave, -30_610_224_000).unwrap();
    assert!(early.ends_with("autosave__b__10000101-000000.s21show"));
    assert_eq!(backup_target("/", BackupKind::Backup, 0), None);
    assert_eq!(backup_target("/a/b.s21show", BackupKind::Backup, i64::MAX), None);
}

#[test]
fn backup_dir_of_a_root_is_none() {
    assert_eq!(backup_dir("/"), None);
    assert_eq!(backup_dir(""), None);
    assert!(backup_dir("show.s21show").unwrap().ends_with(BACKUP_SUBDIR));
}

#[test]
fn parse_name_handles_underscored_stem() {
    let (kind, stem, ts) = parse_name("backup__a__b__c__20260527-140311.s21show").expect("parses");
    assert_eq!(kind, BackupKind::Backup);
    assert_eq!(stem, "a__b__c");
    assert_eq!(stamp_text(ts), "20260527-140311");
    assert!(parse_name("autosave__x__20260527-140311.json").is_none());
    assert!(parse_name("random__x__20260527-140311.s21show").is_none());
    assert!(parse_name("autosave__x__not-a-date.s21show").is_none());
}

#[test]
fn parse_name_rejects_empty_stem() {
    assert!(parse_name("autosave____20260527-140311.s21show").is_none());
}

#[test]
fn file_name_layout() {
    assert_eq!(
        backup_file_name(BackupKind::Backup, "Show", "20260101-000001"),
        "backup__Show__20260101-000001.s21show"
    );
    assert_eq!(BackupKind::Autosave.prefix(), "autosave");
    assert_eq!(BackupKind::Autosave.keep(), KEEP_AUTOSAVES);
    assert_eq!(BackupKind::Backup.keep(), KEEP_BACKUPS);
    assert_eq!(BackupKind::Backup.label(), "Backup");
}

fn series() -> Vec<String> {
    let mut names = Vec::new();
    for ts in ["20260101-000001", "20260101-000002", "20260101-000003", "20260101-000004"] {
        for stem in ["MyShow", "OtherShow"] {
            names.push(format!("autosave__{stem}__{ts}.s21show"));
        }
    }
    names.push("backup__MyShow__20260101-000001.s21show".to_string());
    names.push("notes.txt".to_string());
    names
}

#[test]
fn prune_is_per_show_and_per_kind() {
    let names = series();
    let doomed = backups_to_prune(&names, BackupKind::Autosave, "MyShow", 2);
    let doomed_names: Vec<&str> = doomed.iter().map(|&i| names[i].as_str()).collect();
    assert_eq!(
        doomed_names,
        vec![
            "autosave__MyShow__20260101-000002.s21show",
            "autosave__MyShow__20260101-000001.s21show",
        ]
    );
    assert!(backups_to_prune(&names, BackupKind::Backup, "MyShow", 5).is_empty());
    assert!(backups_to_prune(&names, BackupKind::Autosave, "OtherShow", 4).is_empty());
}

#[test]
fn newest_first_sorts_by_stamp_and_filters() {
    let names = vec![
        "backup__MyShow__20990101-000000.s21show".to_string(),
        "autosave__MyShow__20260101-120000.s21show".to_string(),
        "autosave__OtherShow__20990101-000001.s21show".to_string(),
        "autosave__MyShow__20270101-120000.s21show".to_string(),
    ];
    assert_eq!(newest_first(&names, None, "MyShow"), vec![0, 3, 1]);
    assert_eq!(newest_first(&names, Some(BackupKind::Autosave), "MyShow"), vec![3, 1]);
}

#[test]
fn corruption_error_classification() {
    let invalid = std::io::Error::new(std::io::ErrorKind::InvalidData, "bad json");
    assert!(is_corruption_error(&invalid));
    let not_found = std::io::Error::new(std::io::ErrorKind::NotFound, "missing");
    assert!(!is_corruption_error(&not_found));
    let eof = std::io::Error::new(std::io::ErrorKind::UnexpectedEof, "short");
    assert!(is_corruption_error(&eof));
}

#[test]
fn recovery_candidate_description() {
    let (_, _, stamp) = parse_name("autosave__S__20260527-140311.s21show").unwrap();
    let c = RecoveryCandidate {
        path: "x".to_string(),
        kind: BackupKind::Autosave,
        stamp,
        size: 12_698,
        valid: true,
        version: Some(15),
    };
    assert_eq!(c.describe(), "Autosave — 2026-05-27 14:03:11 UTC (12.4 KB, v15)");
    let bad = RecoveryCandidate {
        path: "y".to_string(),
        kind: BackupKind::Backup,
        stamp,
        size: 1536,
        valid: false,
        version: None,
    };
    assert_eq!(bad.describe(), "Backup — 2026-05-27 14:03:11 UTC (1.5 KB) — UNREADABLE");
}

#[test]
fn recovery_size_rounds_like_one_decimal_float() {
    for size in [0u64, 51, 52, 153, 256, 512, 768, 1023, 1024, 1280, 5_000_000, 12_698] {
        let c = RecoveryCandidate {
            path: String::new(),
            kind: BackupKind::Backup,
            stamp: BackupStamp { secs: 0, nanos: 0 },
            size,
            valid: true,
            version: None,
        };
        let expected = format!(
            "Backup — 1970-01-01 00:00:00 UTC ({:.1} KB)",
            size as f64 / 1024.0
        );
        assert_eq!(c.describe(), expected);
    }
}

#[test]
fn backup_dir_exists_for_named_paths() {
    assert!(backup_dir("/shows/My_Show.s21show").is_some());
    assert!(backup_dir("My_Show.s21show").is_some());
    assert!(backup_dir("a/b/.").is_some());
}

#[test]
fn stamped_file_name_round_trips_with_underscored_stem() {
    let n = stamped_file_name(BackupKind::Backup, "a__b", 1_779_890_591).unwrap();
    assert_eq!(n, "backup__a__b__20260527-140311.s21show");
    let (kind, stem, stamp) = parse_name(&n).unwrap();
    assert_eq!((kind, stem.as_str(), stamp.secs, stamp.nanos), (BackupKind::Backup, "a__b", 1_779_890_591, 0));
    assert_eq!(stamped_file_name(BackupKind::Backup, "x", i64::MAX), None);
}
