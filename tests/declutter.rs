use duansheli::{
    archive_file_name, archive_move_at, archive_move_at_time, archive_path,
    wall_time_from_epoch_offset, STAMP_MAX_SECS, STAMP_MIN_SECS, delete_file, elapsed_seconds, is_due,
    join_path, list_dir_with_meta, move_to_archive, scan_listing, ArchiveMove, Config,
    DeclutterError, DirConfig, DirEntryWithAge, RawEntry, Removal, WallTime, ARCHIVE_DIR_NAME,
    MISSING_FILEPATH,
};
use std::time::{SystemTime, UNIX_EPOCH};

const STAMP: &str = "20240102T030405Z";

fn config(archive_hours: u64, delete_hours: u64) -> DirConfig {
    DirConfig {
        path: "/data/inbox".to_string(),
        time_to_archive_hours: archive_hours,
        time_to_delete_from_archive_hours: delete_hours,
    }
}

fn entry(path: &str, age: u64, is_dir: bool) -> DirEntryWithAge {
    DirEntryWithAge { path: path.to_string(), seconds_since_modification: age, is_dir }
}

fn raw(name: &str, is_dir: bool, modified: Option<WallTime>) -> RawEntry {
    RawEntry { name: name.to_string(), is_dir, modified }
}

fn at(secs: i64, nanos: u32) -> WallTime {
    WallTime { secs, nanos }
}

fn expect_move(r: Result<Option<ArchiveMove>, DeclutterError>) -> ArchiveMove {
    match r {
        Ok(Some(m)) => m,
        other => panic!("expected a move, got {:?}", other),
    }
}

fn wall_clock_now() -> WallTime {
    let d = SystemTime::now().duration_since(UNIX_EPOCH).unwrap();
    WallTime { secs: d.as_secs() as i64, nanos: d.subsec_nanos() }
}

#[test]
fn file_past_archive_threshold_is_moved() {
    let cfg = config(1, 999);
    let e = entry("/data/inbox/f_old.txt", 3601, false);
    let m = expect_move(archive_move_at(&cfg, &e, STAMP));
    assert_eq!(m.from, "/data/inbox/f_old.txt");
    assert_eq!(m.to, "/data/inbox/.duansheli-archive/f_old.txt.20240102T030405Z.bak");
}

#[test]
fn young_file_stays_in_place() {
    let cfg = config(1, 999);
    let e = entry("/data/inbox/f_young.txt", 10, false);
    assert!(matches!(archive_move_at(&cfg, &e, STAMP), Ok(None)));
    assert!(matches!(move_to_archive(&cfg, &e), Ok(None)));
}

#[test]
fn entry_past_both_thresholds_is_archived_then_removed() {
    let cfg = config(1, 2);
    let e = entry("/data/inbox/f_old.txt", 7201, false);
    let m = expect_move(archive_move_at(&cfg, &e, STAMP));
    let archived = entry(&m.to, 7201, false);
    match delete_file(&cfg, &archived) {
        Some(Removal::File(p)) => assert_eq!(p, m.to),
        other => panic!("expected a file removal, got {:?}", other),
    }
    let d = entry("/data/inbox/D_OLD", 7201, true);
    let md = expect_move(archive_move_at(&cfg, &d, STAMP));
    match delete_file(&cfg, &entry(&md.to, 7201, true)) {
        Some(Removal::Directory(p)) => assert_eq!(p, md.to),
        other => panic!("expected a directory removal, got {:?}", other),
    }
}

#[test]
fn entry_between_thresholds_is_archived_and_kept() {
    let cfg = config(1, 2);
    let e = entry("/data/inbox/f_medium.txt", 3601, false);
    let m = expect_move(archive_move_at(&cfg, &e, STAMP));
    let name = m.to.rsplit('/').next().unwrap();
    assert!(name.starts_with("f_medium.txt."));
    assert!(name.ends_with(".bak"));
    assert!(delete_file(&cfg, &entry(&m.to, 3601, false)).is_none());
}

#[test]
fn same_name_with_different_stamps_gets_distinct_destinations() {
    let cfg = config(1, 999);
    let a = entry("/data/inbox/report.txt", 5000, false);
    let b = entry("/data/inbox/sub/report.txt", 5000, false);
    let ma = expect_move(archive_move_at(&cfg, &a, "20240102T030405Z"));
    let mb = expect_move(archive_move_at(&cfg, &b, "20240102T030406Z"));
    assert_ne!(ma.to, mb.to);
}

#[test]
fn same_name_within_one_second_collides() {
    let cfg = config(1, 999);
    let a = entry("/data/inbox/report.txt", 5000, false);
    let b = entry("/data/inbox/sub/report.txt", 5000, false);
    let ma = expect_move(archive_move_at(&cfg, &a, STAMP));
    let mb = expect_move(archive_move_at(&cfg, &b, STAMP));
    assert_eq!(ma.to, mb.to);
}

#[test]
fn age_exactly_at_threshold_is_due() {
    assert!(is_due(3600, 1));
    assert!(!is_due(3599, 1));
    assert!(is_due(0, 0));
    assert!(!is_due(u64::MAX, u64::MAX));
    let cfg = config(1, 2);
    assert!(archive_move_at(&cfg, &entry("/data/inbox/a", 3600, false), STAMP)
        .unwrap()
        .is_some());
    assert!(delete_file(&cfg, &entry("/data/inbox/a", 7200, false)).is_some());
    assert!(delete_file(&cfg, &entry("/data/inbox/a", 7199, false)).is_none());
}

#[test]
fn decluttered_directory_gets_no_further_decisions() {
    let cfg = config(1, 2);
    let left = vec![entry("/data/inbox/f_young.txt", 0, false), entry("/data/inbox/D_YOUNG", 3599, true)];
    for e in &left {
        assert!(matches!(archive_move_at(&cfg, e, STAMP), Ok(None)));
    }
    let archived = vec![entry("/data/inbox/.duansheli-archive/x.20240102T030405Z.bak", 7199, false)];
    for e in &archived {
        assert!(delete_file(&cfg, e).is_none());
    }
}

#[test]
fn archive_folder_is_excluded_from_its_parent_scan() {
    let now = at(10_000, 0);
    let listing = vec![
        raw(ARCHIVE_DIR_NAME, true, Some(at(0, 0))),
        raw("f_old.txt", false, Some(at(0, 0))),
    ];
    let scanned = scan_listing("/data/inbox", &listing, Some(ARCHIVE_DIR_NAME), now);
    assert_eq!(scanned.len(), 1);
    assert_eq!(scanned[0].path, "/data/inbox/f_old.txt");
    assert_eq!(scanned[0].seconds_since_modification, 10_000);
    let all = scan_listing("/data/inbox", &listing, None, now);
    assert_eq!(all.len(), 2);
    assert_eq!(all[0].path, "/data/inbox/.duansheli-archive");
    assert!(all[0].is_dir);
}

#[test]
fn unreadable_and_future_entries_are_skipped() {
    let now = at(1_000, 500);
    let listing = vec![
        raw("no_meta", false, None),
        raw("future", false, Some(at(1_000, 501))),
        raw("bad_nanos", false, Some(at(10, 1_000_000_000))),
        raw("same_instant", true, Some(at(1_000, 500))),
        raw("older", false, Some(at(400, 900))),
    ];
    let scanned = scan_listing("dir", &listing, None, now);
    assert_eq!(scanned.len(), 2);
    assert_eq!(scanned[0].path, "dir/same_instant");
    assert_eq!(scanned[0].seconds_since_modification, 0);
    assert!(scanned[0].is_dir);
    assert_eq!(scanned[1].path, "dir/older");
    assert_eq!(scanned[1].seconds_since_modification, 599);
}

#[test]
fn empty_listing_scans_to_nothing() {
    let scanned = scan_listing("dir", &Vec::new(), Some(ARCHIVE_DIR_NAME), at(5, 0));
    assert!(scanned.is_empty());
}

#[test]
fn missing_directory_is_refused() {
    let r = list_dir_with_meta("/no/such/dir", false, &Vec::new(), None);
    assert!(matches!(r, Err(DeclutterError::DirectoryNotFound)));
}

#[test]
fn scan_uses_the_present_instant() {
    let now = wall_clock_now();
    let listing = vec![raw("f", false, Some(at(now.secs - 100, now.nanos)))];
    let scanned = list_dir_with_meta("d", true, &listing, None).unwrap();
    assert_eq!(scanned.len(), 1);
    let age = scanned[0].seconds_since_modification;
    assert!((100..200).contains(&age), "age {}", age);
}

#[test]
fn elapsed_seconds_rounds_down() {
    assert_eq!(elapsed_seconds(at(10, 5), at(5, 6)), Some(4));
    assert_eq!(elapsed_seconds(at(10, 6), at(5, 5)), Some(5));
    assert_eq!(elapsed_seconds(at(5, 5), at(5, 5)), Some(0));
    assert_eq!(elapsed_seconds(at(5, 5), at(5, 6)), None);
    assert_eq!(elapsed_seconds(at(-3, 0), at(-5, 999_999_999)), Some(1));
    assert_eq!(elapsed_seconds(at(i64::MAX, 0), at(i64::MIN, 0)), Some(u64::MAX));
}

#[test]
fn moving_reads_the_clock_for_the_stamp() {
    let cfg = config(1, 999);
    let e = entry("/data/inbox/f_old.txt", 3601, false);
    let m = expect_move(move_to_archive(&cfg, &e));
    let prefix = "/data/inbox/.duansheli-archive/f_old.txt.";
    assert!(m.to.starts_with(prefix));
    assert!(m.to.ends_with(".bak"));
    let stamp = &m.to[prefix.len()..m.to.len() - 4];
    assert_eq!(stamp.len(), 16);
    assert_eq!(stamp.as_bytes()[8], b'T');
    assert_eq!(stamp.as_bytes()[15], b'Z');
    assert!(stamp.starts_with("20"));
}

#[test]
fn path_without_file_name_is_an_error() {
    let cfg = config(1, 999);
    for p in ["/data/inbox/..", "/"] {
        let e = entry(p, 3601, false);
        assert!(matches!(archive_move_at(&cfg, &e, STAMP), Err(DeclutterError::InvalidFileName)));
        assert!(matches!(move_to_archive(&cfg, &e), Err(DeclutterError::InvalidFileName)));
    }
}

#[test]
fn archive_names_and_paths() {
    assert_eq!(archive_file_name("D_OLD", STAMP), "D_OLD.20240102T030405Z.bak");
    assert_eq!(archive_path(&config(1, 1)), "/data/inbox/.duansheli-archive");
    let mut cfg = config(1, 1);
    cfg.path = "/data/inbox/".to_string();
    assert_eq!(archive_path(&cfg), "/data/inbox/.duansheli-archive");
    assert_eq!(join_path("", "x"), "x");
    assert_eq!(join_path("a", "x"), "a/x");
    assert_eq!(join_path("a/", "x"), "a/x");
}

#[test]
fn command_line_needs_a_config_path() {
    let none: Vec<String> = vec!["duansheli".to_string()];
    assert_eq!(Config::build(&none).unwrap_err(), MISSING_FILEPATH);
    assert_eq!(Config::build(&Vec::new()).unwrap_err(), "Missing filepath");
    let args = vec!["duansheli".to_string(), "cfg.toml".to_string(), "extra".to_string()];
    assert_eq!(Config::build(&args).unwrap().filepath, "cfg.toml");
}

#[test]
fn epoch_offsets_become_wall_times() {
    assert_eq!(wall_time_from_epoch_offset(true, 5, 7), at(5, 7));
    assert_eq!(wall_time_from_epoch_offset(false, 5, 0), at(-5, 0));
    assert_eq!(wall_time_from_epoch_offset(false, 5, 250_000_000), at(-6, 750_000_000));
    assert_eq!(wall_time_from_epoch_offset(false, 0, 0), at(0, 0));
    assert_eq!(wall_time_from_epoch_offset(false, 1 << 63, 0), at(i64::MIN, 0));
    assert_eq!(wall_time_from_epoch_offset(false, 1 << 63, 1), at(i64::MIN, 0));
    assert_eq!(wall_time_from_epoch_offset(false, u64::MAX, 0), at(i64::MIN, 0));
    assert_eq!(wall_time_from_epoch_offset(true, 1 << 63, 0), at(i64::MAX, 999_999_999));
    assert_eq!(
        wall_time_from_epoch_offset(true, i64::MAX as u64, 3),
        at(i64::MAX, 3)
    );
}

#[test]
fn move_takes_the_timestamp_of_its_instant() {
    let cfg = config(1, 999);
    let e = entry("/data/inbox/f", 3601, false);
    let m = expect_move(archive_move_at_time(&cfg, &e, at(0, 0)));
    assert_eq!(m.to, "/data/inbox/.duansheli-archive/f.19700101T000000Z.bak");
    let m = expect_move(archive_move_at_time(&cfg, &e, at(1_704_164_645, 999_999_999)));
    assert_eq!(m.to, "/data/inbox/.duansheli-archive/f.20240102T030405Z.bak");
    let m = expect_move(archive_move_at_time(&cfg, &e, at(-1, 0)));
    assert_eq!(m.to, "/data/inbox/.duansheli-archive/f.19691231T235959Z.bak");
}

#[test]
fn timestamp_range_edges() {
    let cfg = config(1, 999);
    let e = entry("/data/inbox/f", 3601, false);
    let m = expect_move(archive_move_at_time(&cfg, &e, at(STAMP_MAX_SECS, 0)));
    assert_eq!(m.to, "/data/inbox/.duansheli-archive/f.+2621421231T235959Z.bak");
    let m = expect_move(archive_move_at_time(&cfg, &e, at(STAMP_MIN_SECS, 0)));
    assert_eq!(m.to, "/data/inbox/.duansheli-archive/f.-2621430101T000000Z.bak");
    assert!(matches!(
        archive_move_at_time(&cfg, &e, at(STAMP_MAX_SECS + 1, 0)),
        Err(DeclutterError::TimestampUnavailable)
    ));
    assert!(matches!(
        archive_move_at_time(&cfg, &e, at(STAMP_MIN_SECS - 1, 0)),
        Err(DeclutterError::TimestampUnavailable)
    ));
    let young = entry("/data/inbox/f", 10, false);
    assert!(matches!(archive_move_at_time(&cfg, &young, at(i64::MAX, 0)), Ok(None)));
    let nameless = entry("/data/inbox/..", 3601, false);
    assert!(matches!(
        archive_move_at_time(&cfg, &nameless, at(i64::MAX, 0)),
        Err(DeclutterError::InvalidFileName)
    ));
}
