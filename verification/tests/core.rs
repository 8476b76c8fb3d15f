use fluminurs::decimal::{date_to_dec, u64_to_dec, u64_to_padded_dec, year_to_dec};
use fluminurs::paths::{split_dir_name, split_stem_ext};
use fluminurs::rename::{find_rename_path, rename_candidate};
use fluminurs::sanitise::{sanitise_filename, sanitise_filename_restrictive};
use fluminurs::schedule::{make_temp_file_name, plan_download_paths, AdmissionGate};

#[test]
fn sanitise_replaces_separators_and_nul() {
    assert_eq!(sanitise_filename("a/b\0c"), "a-b-c");
    assert_eq!(sanitise_filename("//"), "--");
}

#[test]
fn sanitise_keeps_ordinary_names() {
    assert_eq!(sanitise_filename("Lecture 1.pdf"), "Lecture 1.pdf");
    assert_eq!(sanitise_filename(""), "");
}

#[test]
fn sanitise_total_on_odd_input() {
    let odd = "\u{0}\u{0}/..\u{7f}";
    let out = sanitise_filename(odd);
    assert!(!out.contains('/'));
    assert!(!out.contains('\u{0}'));
    assert_eq!(out.chars().count(), odd.chars().count());
}

#[test]
fn sanitise_restrictive_trims_and_replaces() {
    assert_eq!(sanitise_filename_restrictive(" a/b? "), "a-b-");
    assert_eq!(sanitise_filename_restrictive("plain name"), "plain name");
    let out = sanitise_filename_restrictive("x:y|z*");
    assert!(!out.contains('/'));
    assert!(!out.contains(':'));
}

#[test]
fn decimal_renders_exactly() {
    assert_eq!(u64_to_dec(0), "0");
    assert_eq!(u64_to_dec(7), "7");
    assert_eq!(u64_to_dec(12345), "12345");
    assert_eq!(u64_to_dec(u64::MAX), "18446744073709551615");
    assert_eq!(u64_to_padded_dec(3, 2), "03");
    assert_eq!(u64_to_padded_dec(123, 2), "123");
    assert_eq!(u64_to_padded_dec(0, 4), "0000");
}

#[test]
fn year_rendering_matches_std_formatting() {
    for y in [-5i64, -2024, 0, 3, 999, 2024, 123456] {
        assert_eq!(year_to_dec(y), format!("{:04}", y));
    }
}

#[test]
fn date_renders_as_iso() {
    assert_eq!(date_to_dec(2024, 1, 2), "2024-01-02");
    assert_eq!(date_to_dec(999, 12, 31), "0999-12-31");
}

#[test]
fn split_dir_name_cases() {
    assert_eq!(split_dir_name("a/b/c.txt"), ("a/b/".to_string(), "c.txt".to_string()));
    assert_eq!(split_dir_name("c.txt"), ("".to_string(), "c.txt".to_string()));
    assert_eq!(split_dir_name("a/"), ("a/".to_string(), "".to_string()));
}

#[test]
fn split_stem_ext_cases() {
    assert_eq!(split_stem_ext("c.txt"), ("c".to_string(), Some("txt".to_string())));
    assert_eq!(split_stem_ext("archive.tar.gz"), ("archive.tar".to_string(), Some("gz".to_string())));
    assert_eq!(split_stem_ext("README"), ("README".to_string(), None));
    assert_eq!(split_stem_ext(".bashrc"), (".bashrc".to_string(), None));
    assert_eq!(split_stem_ext("ends."), ("ends".to_string(), Some("".to_string())));
}

#[test]
fn rename_candidates_are_numbered() {
    let ext = Some("pdf".to_string());
    assert_eq!(rename_candidate("s", &ext, 0), "s.pdf");
    assert_eq!(rename_candidate("s", &ext, 1), "s_1.pdf");
    assert_eq!(rename_candidate("s", &None, 12), "s_12");
}

#[test]
fn find_rename_path_avoids_all_existing() {
    let base = "f_autorename_2024-01-01";
    let ext = Some("txt".to_string());
    let existing = vec![
        "f_autorename_2024-01-01.txt".to_string(),
        "f_autorename_2024-01-01_1.txt".to_string(),
        "f_autorename_2024-01-01_2.txt".to_string(),
    ];
    let chosen = find_rename_path(base, &ext, &existing);
    assert_eq!(chosen, "f_autorename_2024-01-01_3.txt");
    assert!(!existing.contains(&chosen));
}

#[test]
fn find_rename_path_takes_first_free_slot() {
    let base = "f_autorename_2024-01-01";
    let ext = None;
    let existing = vec![
        "f_autorename_2024-01-01".to_string(),
        "f_autorename_2024-01-01_2".to_string(),
    ];
    assert_eq!(find_rename_path(base, &ext, &existing), "f_autorename_2024-01-01_1");
}

#[test]
fn find_rename_path_never_repeats_in_one_run() {
    let base = "stem_autorename_2024-06-01";
    let ext = Some("dat".to_string());
    let mut existing: Vec<String> = Vec::new();
    let mut produced: Vec<String> = Vec::new();
    for _ in 0..5 {
        let p = find_rename_path(base, &ext, &existing);
        assert!(!produced.contains(&p));
        produced.push(p.clone());
        existing.push(p);
    }
}

#[test]
fn temp_name_is_marked_and_distinct() {
    assert_eq!(make_temp_file_name("a.pdf"), "~!a.pdf");
    assert_ne!(make_temp_file_name("a.pdf"), "a.pdf");
}

#[test]
fn plan_download_paths_puts_temp_beside_real() {
    let (real, temp) = plan_download_paths("root", "dir/a.pdf");
    assert_eq!(real, "root/dir/a.pdf");
    assert_eq!(temp, "root/dir/~!a.pdf");
    let (real2, temp2) = plan_download_paths("root", "top.bin");
    assert_eq!(real2, "root/top.bin");
    assert_eq!(temp2, "root/~!top.bin");
}

#[test]
fn admission_gate_caps_in_flight() {
    let mut gate = AdmissionGate::new(2);
    assert!(gate.try_acquire());
    assert!(gate.try_acquire());
    assert!(!gate.try_acquire());
    gate.release();
    assert!(gate.try_acquire());
    assert!(!gate.try_acquire());
}

#[test]
fn admission_gate_zero_admits_nothing() {
    let mut gate = AdmissionGate::new(0);
    assert!(!gate.try_acquire());
}
