use chrono::Datelike;
use fluminurs::conflict::{prepare_path, FileProbe, OverwriteMode, OverwriteResult};
use fluminurs::download::{retry_step, RetryStep, RetryableError};
use fluminurs::resolve::{
    announcement_path, announcements_from_data, child_handles, download_url_from_data,
    download_url_path, files_of_listing, files_query_path, partition_results,
    resolve_folder_listing, subdirs_query_path, workbin_roots, Access, Announcement,
    ApiFileDirectory, Data, DirectoryHandle, DownloadableObject, File, Module,
};
use fluminurs::times::parse_time;

fn full_access() -> Access {
    Access {
        full: true,
        read: true,
        create: true,
        update: true,
        delete: true,
        settings_read: true,
        settings_update: true,
    }
}

fn read_access() -> Access {
    Access {
        full: false,
        read: true,
        create: false,
        update: false,
        delete: false,
        settings_read: false,
        settings_update: false,
    }
}

fn module(id: &str, code: &str, access: Option<Access>) -> Module {
    Module {
        id: id.to_string(),
        code: code.to_string(),
        name: "Some Course".to_string(),
        access,
        term: "2410".to_string(),
    }
}

fn entry(id: &str, name: &str, upload: Option<bool>, time: &str, creator: Option<&str>) -> ApiFileDirectory {
    ApiFileDirectory {
        id: id.to_string(),
        name: name.to_string(),
        allow_upload: upload,
        last_updated_date: time.to_string(),
        creator_name: creator.map(|c| c.to_string()),
    }
}

const T_2024_01_01: i64 = 1_704_067_200_000;
const T_2024_01_02: i64 = 1_704_153_600_000;
const T_2024_01_03: i64 = 1_704_240_000_000;

fn local_date_string(millis: i64) -> String {
    let utc = chrono::DateTime::<chrono::Utc>::from_timestamp_millis(millis).unwrap();
    let local = chrono::DateTime::<chrono::Local>::from(utc);
    format!("{:04}-{:02}-{:02}", local.year(), local.month(), local.day())
}

#[test]
fn parse_time_reads_rfc3339() {
    assert_eq!(parse_time("2024-01-02T00:00:00+00:00"), Some(T_2024_01_02));
    assert_eq!(parse_time("2024-01-02T08:00:00+08:00"), Some(T_2024_01_02));
    assert_eq!(parse_time("2024-01-02T00:00:00.250+00:00"), Some(T_2024_01_02 + 250));
    assert_eq!(parse_time("not a date"), None);
    assert_eq!(parse_time(""), None);
}

#[test]
fn module_access_classification() {
    let teaching = module("m1", "CS2100", Some(full_access()));
    assert!(teaching.is_teaching());
    assert!(!teaching.is_taking());
    assert!(teaching.has_access());

    let taking = module("m2", "CS2101", Some(read_access()));
    assert!(!taking.is_teaching());
    assert!(taking.is_taking());

    let none = module("m3", "CS2102", None);
    assert!(!none.is_teaching());
    assert!(none.is_taking());
    assert!(!none.has_access());
}

#[test]
fn workbin_root_sanitises_code() {
    let m = module("m1", "CS/21\u{0}00", Some(read_access()));
    let root = m.workbin_root();
    assert_eq!(root.id, "m1");
    assert_eq!(root.path, "CS-21-00");
    assert!(!root.allow_upload);
}

#[test]
fn workbin_roots_filters_and_tags() {
    let ms = vec![
        module("m1", "CS2100", Some(full_access())),
        module("m2", "CS2101", None),
        module("m3", "CS2102", Some(read_access())),
    ];
    let roots = workbin_roots(&ms);
    assert_eq!(roots.len(), 2);
    assert_eq!(roots[0].0.id, "m1");
    assert!(roots[0].1);
    assert_eq!(roots[1].0.id, "m3");
    assert!(!roots[1].1);
}

#[test]
fn child_handles_filters_upload_folders() {
    let parent = DirectoryHandle {
        id: "p".to_string(),
        path: "CS2100".to_string(),
        allow_upload: false,
    };
    let subdirs = vec![
        entry("d1", "Lectures", Some(false), "2024-01-01T00:00:00+00:00", None),
        entry("d2", "Student Uploads", Some(true), "2024-01-01T00:00:00+00:00", None),
        entry("d3", "Lab/1", None, "2024-01-01T00:00:00+00:00", None),
    ];
    let kept = child_handles(&parent, &subdirs, false);
    assert_eq!(kept.len(), 2);
    assert_eq!(kept[0].path, "CS2100/Lectures");
    assert!(!kept[0].allow_upload);
    assert_eq!(kept[1].path, "CS2100/Lab-1");

    let all = child_handles(&parent, &subdirs, true);
    assert_eq!(all.len(), 3);
    assert_eq!(all[1].path, "CS2100/Student Uploads");
    assert!(all[1].allow_upload);
}

#[test]
fn files_of_listing_builds_paths_and_times() {
    let parent = DirectoryHandle {
        id: "p".to_string(),
        path: "CS2100".to_string(),
        allow_upload: false,
    };
    let files = files_of_listing(
        &parent,
        &vec![entry("f1", "A.pdf", None, "2024-01-02T00:00:00+00:00", None)],
    )
    .unwrap();
    assert_eq!(files.len(), 1);
    assert_eq!(files[0].path, "CS2100/A.pdf");
    assert_eq!(files[0].id, "f1");
    assert_eq!(files[0].last_updated, T_2024_01_02);
    assert_eq!(files[0].path(), "CS2100/A.pdf");
}

#[test]
fn files_of_listing_prefixes_creator_in_upload_folders() {
    let parent = DirectoryHandle {
        id: "p".to_string(),
        path: "CS2100/Uploads".to_string(),
        allow_upload: true,
    };
    let files = files_of_listing(
        &parent,
        &vec![
            entry("f1", "notes.pdf", None, "2024-01-02T00:00:00+00:00", Some("Alice")),
            entry("f2", "sheet.pdf", None, "2024-01-02T00:00:00+00:00", None),
        ],
    )
    .unwrap();
    assert_eq!(files[0].path, "CS2100/Uploads/Alice - notes.pdf");
    assert_eq!(files[1].path, "CS2100/Uploads/Unknown - sheet.pdf");
}

#[test]
fn files_of_listing_rejects_bad_timestamp() {
    let parent = DirectoryHandle {
        id: "p".to_string(),
        path: "CS2100".to_string(),
        allow_upload: false,
    };
    let r = files_of_listing(&parent, &vec![entry("f1", "A.pdf", None, "yesterday", None)]);
    assert_eq!(r.unwrap_err(), "Failed to parse last updated time");
}

#[test]
fn query_paths_are_exact() {
    let dir = DirectoryHandle {
        id: "abc".to_string(),
        path: "CS2100".to_string(),
        allow_upload: false,
    };
    assert_eq!(subdirs_query_path(&dir), "files/?ParentID=abc");
    assert_eq!(files_query_path(&dir), "files/abc/file");
    let up = DirectoryHandle { id: "abc".to_string(), path: "x".to_string(), allow_upload: true };
    assert_eq!(files_query_path(&up), "files/abc/file?populate=Creator");

    let m = module("m9", "CS2100", None);
    assert_eq!(
        announcement_path(&m, false),
        "announcement/NonArchived/m9?sortby=displayFrom%20ASC"
    );
    assert_eq!(
        announcement_path(&m, true),
        "announcement/Archived/m9?sortby=displayFrom%20ASC"
    );

    let f = File { id: "f7".to_string(), path: "p".to_string(), last_updated: 0 };
    assert_eq!(download_url_path(&f), "files/file/f7/downloadurl");
}

#[test]
fn announcements_extraction() {
    let anns = vec![Announcement { title: "t".to_string(), description: "d".to_string() }];
    let got = announcements_from_data(Data::Announcements(anns)).unwrap();
    assert_eq!(got.len(), 1);
    assert_eq!(got[0].title, "t");
    assert_eq!(announcements_from_data(Data::Empty).unwrap().len(), 0);
    assert_eq!(
        announcements_from_data(Data::Text("x".to_string())).unwrap_err(),
        "Invalid API response from server: type mismatch"
    );
}

#[test]
fn download_url_extraction() {
    assert_eq!(
        download_url_from_data(Data::Text("https://host/x".to_string())).unwrap(),
        "https://host/x"
    );
    assert_eq!(
        download_url_from_data(Data::Empty).unwrap_err(),
        "Invalid API response from server: type mismatch"
    );
}

#[test]
fn partition_keeps_successes_and_errors() {
    let f = |id: &str| File { id: id.to_string(), path: id.to_string(), last_updated: 0 };
    let results = vec![
        Ok(vec![f("a"), f("b")]),
        Err("Failed loading module files"),
        Ok(vec![f("c")]),
    ];
    let (files, errors) = partition_results(results);
    let ids: Vec<String> = files.iter().map(|x| x.id.clone()).collect();
    assert_eq!(ids, vec!["a".to_string(), "b".to_string(), "c".to_string()]);
    assert_eq!(errors, vec!["Failed loading module files"]);
}

#[test]
fn conflict_new_file_when_absent() {
    let existing: Vec<String> = Vec::new();
    let r = prepare_path("d/A.pdf", T_2024_01_02, FileProbe::Absent, OverwriteMode::Skip, &existing);
    let (download, outcome) = r.unwrap();
    assert!(download);
    assert!(matches!(outcome, OverwriteResult::NewFile));
}

#[test]
fn conflict_already_have_when_local_fresh() {
    let existing: Vec<String> = Vec::new();
    for mode in [OverwriteMode::Skip, OverwriteMode::Overwrite, OverwriteMode::Rename] {
        // strictly fresher local copy, and the boundary case of equal times
        for local in [T_2024_01_03, T_2024_01_02] {
            let r = prepare_path(
                "d/A.pdf",
                T_2024_01_02,
                FileProbe::ModifiedAt(local),
                mode,
                &existing,
            );
            let (download, outcome) = r.unwrap();
            assert!(!download);
            assert!(matches!(outcome, OverwriteResult::AlreadyHave));
        }
    }
}

#[test]
fn conflict_skip_and_overwrite_rows() {
    let existing: Vec<String> = Vec::new();
    let stale = FileProbe::ModifiedAt(T_2024_01_01);

    let (download, outcome) =
        prepare_path("d/A.pdf", T_2024_01_02, stale, OverwriteMode::Skip, &existing).unwrap();
    assert!(!download);
    assert!(matches!(outcome, OverwriteResult::Skipped));

    let (download, outcome) =
        prepare_path("d/A.pdf", T_2024_01_02, stale, OverwriteMode::Overwrite, &existing).unwrap();
    assert!(download);
    assert!(matches!(outcome, OverwriteResult::Overwritten));
}

#[test]
fn conflict_rename_computes_dated_path() {
    let existing: Vec<String> = Vec::new();
    let (download, outcome) = prepare_path(
        "d/A.pdf",
        T_2024_01_02,
        FileProbe::ModifiedAt(T_2024_01_01),
        OverwriteMode::Rename,
        &existing,
    )
    .unwrap();
    assert!(download);
    let expected = format!("d/A_autorename_{}.pdf", local_date_string(T_2024_01_01));
    match outcome {
        OverwriteResult::Renamed { renamed_path } => assert_eq!(renamed_path, expected),
        _ => panic!("expected a rename"),
    }
}

#[test]
fn conflict_rename_skips_taken_paths() {
    let date = local_date_string(T_2024_01_01);
    let existing = vec![
        format!("d/A_autorename_{}.pdf", date),
        format!("d/A_autorename_{}_1.pdf", date),
    ];
    let (_, outcome) = prepare_path(
        "d/A.pdf",
        T_2024_01_02,
        FileProbe::ModifiedAt(T_2024_01_01),
        OverwriteMode::Rename,
        &existing,
    )
    .unwrap();
    let expected = format!("d/A_autorename_{}_2.pdf", date);
    match outcome {
        OverwriteResult::Renamed { renamed_path } => {
            assert_eq!(renamed_path, expected);
            assert!(!existing.contains(&renamed_path));
        },
        _ => panic!("expected a rename"),
    }
}

#[test]
fn conflict_probe_failures_are_hard_errors() {
    let existing: Vec<String> = Vec::new();
    assert_eq!(
        prepare_path("p", 0, FileProbe::PermissionDenied, OverwriteMode::Skip, &existing)
            .unwrap_err(),
        "Permission denied when retrieving file metadata"
    );
    assert_eq!(
        prepare_path("p", 0, FileProbe::Unreadable, OverwriteMode::Skip, &existing).unwrap_err(),
        "Unable to retrieve file metadata"
    );
    assert_eq!(
        prepare_path("p", 0, FileProbe::NoModTime, OverwriteMode::Skip, &existing).unwrap_err(),
        "File system does not support last modified time"
    );
}

#[test]
fn retry_decisions_follow_tags() {
    assert!(matches!(retry_step(Ok(())), RetryStep::Publish));
    assert!(matches!(
        retry_step(Err(RetryableError::Retry("Failed during streaming"))),
        RetryStep::RetryAgain
    ));
    match retry_step(Err(RetryableError::Fail("Failed writing to disk"))) {
        RetryStep::Abort(e) => assert_eq!(e, "Failed writing to disk"),
        _ => panic!("expected abort"),
    }
}

#[test]
fn folder_listing_of_other_shapes_is_empty() {
    let dir = DirectoryHandle {
        id: "d".to_string(),
        path: "CS2100".to_string(),
        allow_upload: false,
    };
    let (children, files) =
        resolve_folder_listing(&dir, Data::Empty, Data::Text("x".to_string()), false).unwrap();
    assert_eq!(children.len(), 0);
    assert_eq!(files.len(), 0);
}

#[test]
fn scenario_root_with_subfolder() {
    // Remote: root folder holds A.pdf (t = 2024-01-02) and a subfolder Lab
    // holding B.pdf (t = 2024-01-03).  Local: A.pdf modified 2024-01-01, no
    // Lab directory.  Mode: Overwrite.
    let root = DirectoryHandle {
        id: "root".to_string(),
        path: "CS2100".to_string(),
        allow_upload: false,
    };
    let subdirs = vec![entry("lab", "Lab", Some(false), "2024-01-01T00:00:00+00:00", None)];
    let (children, root_files) = resolve_folder_listing(
        &root,
        Data::ApiFileDirectory(subdirs),
        Data::ApiFileDirectory(vec![entry("a", "A.pdf", None, "2024-01-02T00:00:00+00:00", None)]),
        false,
    )
    .unwrap();
    assert_eq!(children.len(), 1);

    let (lab_children, lab_files) = resolve_folder_listing(
        &children[0],
        Data::Empty,
        Data::ApiFileDirectory(vec![entry("b", "B.pdf", None, "2024-01-03T00:00:00+00:00", None)]),
        false,
    )
    .unwrap();
    assert_eq!(lab_children.len(), 0);

    let (mut all, errors) = partition_results(vec![Ok(root_files), Ok(lab_files)]);
    assert_eq!(errors.len(), 0);
    assert_eq!(all.len(), 2);
    assert_eq!(all[0].path, "CS2100/A.pdf");
    assert_eq!(all[1].path, "CS2100/Lab/B.pdf");

    let existing: Vec<String> = Vec::new();
    let a = all.remove(0);
    let b = all.remove(0);

    let (download_a, outcome_a) = prepare_path(
        &a.path,
        a.last_updated,
        FileProbe::ModifiedAt(T_2024_01_01),
        OverwriteMode::Overwrite,
        &existing,
    )
    .unwrap();
    assert!(download_a);
    assert!(matches!(outcome_a, OverwriteResult::Overwritten));

    let (download_b, outcome_b) = prepare_path(
        &b.path,
        b.last_updated,
        FileProbe::Absent,
        OverwriteMode::Overwrite,
        &existing,
    )
    .unwrap();
    assert!(download_b);
    assert!(matches!(outcome_b, OverwriteResult::NewFile));
}
