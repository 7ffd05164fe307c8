use libium::manifest::{Version, VersionManifestV2, VersionType};
use libium::mods_dir::{mods_dir_segments, platform_from_name, Platform};
use libium::select::{admit_release, get_latest_mc_versions};
use libium::version::{major_minor_text, remove_semver_patch};

fn manifest(entries: &[(&str, VersionType)]) -> VersionManifestV2 {
    VersionManifestV2 {
        versions: entries
            .iter()
            .map(|(id, version_type)| Version {
                id: id.to_string(),
                version_type: *version_type,
            })
            .collect(),
    }
}

fn strings(items: &[&str]) -> Vec<String> {
    items.iter().map(|s| s.to_string()).collect()
}

#[test]
fn one_dot_is_kept() {
    assert_eq!(remove_semver_patch("1.18").unwrap(), "1.18");
    assert_eq!(remove_semver_patch("1.0").unwrap(), "1.0");
    assert_eq!(remove_semver_patch("a.b").unwrap(), "a.b");
}

#[test]
fn patch_is_removed() {
    assert_eq!(remove_semver_patch("1.7.10").unwrap(), "1.7");
    assert_eq!(remove_semver_patch("1.14.4").unwrap(), "1.14");
    assert_eq!(remove_semver_patch("0.0.0").unwrap(), "0.0");
    assert_eq!(
        remove_semver_patch("18446744073709551615.10.3").unwrap(),
        "18446744073709551615.10"
    );
}

#[test]
fn prerelease_suffix_is_dropped_with_patch() {
    assert_eq!(remove_semver_patch("1.19.0-pre1").unwrap(), "1.19");
}

#[test]
fn not_a_version_fails() {
    let e = remove_semver_patch("not-a-version").unwrap_err();
    assert_eq!(e.input, "not-a-version");
}

#[test]
fn bare_number_fails() {
    assert_eq!(remove_semver_patch("18").unwrap_err().input, "18");
}

#[test]
fn malformed_three_part_fails() {
    assert!(remove_semver_patch("1.18.x").is_err());
    assert!(remove_semver_patch("01.2.3").is_err());
    assert!(remove_semver_patch("1.2.3.4").is_err());
    assert!(remove_semver_patch("").is_err());
    assert!(remove_semver_patch("18446744073709551616.0.0").is_err());
}

#[test]
fn major_minor_text_writes_both_numbers() {
    assert_eq!(major_minor_text(1, 18), "1.18");
    assert_eq!(major_minor_text(0, 0), "0.0");
    assert_eq!(major_minor_text(120, 7), "120.7");
}

#[test]
fn admit_release_skips_a_seen_line() {
    let mut chosen = Vec::new();
    let mut seen = Vec::new();
    admit_release(&mut chosen, &mut seen, &"1.18.1".to_string(), "1.18".to_string());
    admit_release(&mut chosen, &mut seen, &"1.18".to_string(), "1.18".to_string());
    admit_release(&mut chosen, &mut seen, &"1.17.1".to_string(), "1.17".to_string());
    assert_eq!(chosen, strings(&["1.18.1", "1.17.1"]));
    assert_eq!(seen, strings(&["1.18", "1.17"]));
}

#[test]
fn count_zero_gives_empty() {
    let m = manifest(&[("bogus", VersionType::Release), ("1.18.1", VersionType::Release)]);
    assert_eq!(get_latest_mc_versions(0, m).unwrap(), Vec::<String>::new());
}

#[test]
fn empty_catalog_gives_empty() {
    for count in [0, 1, 5, usize::MAX] {
        assert_eq!(
            get_latest_mc_versions(count, manifest(&[])).unwrap(),
            Vec::<String>::new()
        );
    }
}

#[test]
fn duplicate_feature_line_is_skipped() {
    let m = manifest(&[
        ("1.18.1", VersionType::Release),
        ("1.18", VersionType::Release),
        ("1.17.1", VersionType::Release),
    ]);
    assert_eq!(get_latest_mc_versions(2, m).unwrap(), strings(&["1.18.1", "1.17.1"]));
}

#[test]
fn snapshot_is_ignored() {
    let m = manifest(&[
        ("1.19-pre1", VersionType::Snapshot),
        ("1.18.2", VersionType::Release),
    ]);
    assert_eq!(get_latest_mc_versions(1, m).unwrap(), strings(&["1.18.2"]));
}

#[test]
fn bogus_release_within_reach_fails() {
    let m = manifest(&[("1.18.1", VersionType::Release), ("bogus", VersionType::Release)]);
    let e = get_latest_mc_versions(2, m).unwrap_err();
    assert_eq!(e.input, "bogus");
}

#[test]
fn bogus_release_beyond_reach_is_not_read() {
    let m = manifest(&[("1.18.1", VersionType::Release), ("bogus", VersionType::Release)]);
    assert_eq!(get_latest_mc_versions(1, m).unwrap(), strings(&["1.18.1"]));
}

#[test]
fn bogus_non_release_is_not_read() {
    let m = manifest(&[
        ("bogus", VersionType::OldBeta),
        ("b1.7.3", VersionType::OldAlpha),
        ("22w03a", VersionType::Snapshot),
        ("1.18.1", VersionType::Release),
    ]);
    assert_eq!(get_latest_mc_versions(3, m).unwrap(), strings(&["1.18.1"]));
}

#[test]
fn newest_of_each_line_in_order() {
    let m = manifest(&[
        ("22w05a", VersionType::Snapshot),
        ("1.18.1", VersionType::Release),
        ("1.18.1-rc3", VersionType::Snapshot),
        ("1.18", VersionType::Release),
        ("1.17.1", VersionType::Release),
        ("1.17", VersionType::Release),
        ("1.16.5", VersionType::Release),
        ("1.16.4", VersionType::Release),
        ("1.15.2", VersionType::Release),
        ("1.14.4", VersionType::Release),
        ("1.13.2", VersionType::Release),
        ("1.12.2", VersionType::Release),
    ]);
    let got = get_latest_mc_versions(6, m).unwrap();
    assert_eq!(
        got,
        strings(&["1.18.1", "1.17.1", "1.16.5", "1.15.2", "1.14.4", "1.13.2"])
    );
    let lines: Vec<String> = got.iter().map(|v| remove_semver_patch(v).unwrap()).collect();
    for a in 0..lines.len() {
        for b in a + 1..lines.len() {
            assert_ne!(lines[a], lines[b]);
        }
    }
}

#[test]
fn fewer_lines_than_count() {
    let m = manifest(&[
        ("1.18.2", VersionType::Release),
        ("1.18.1", VersionType::Release),
        ("1.17", VersionType::Release),
    ]);
    assert_eq!(get_latest_mc_versions(10, m).unwrap(), strings(&["1.18.2", "1.17"]));
}

#[test]
fn platform_names() {
    assert_eq!(platform_from_name("macos"), Some(Platform::MacOs));
    assert_eq!(platform_from_name("linux"), Some(Platform::Linux));
    assert_eq!(platform_from_name("windows"), Some(Platform::Windows));
    assert_eq!(platform_from_name("freebsd"), None);
    assert_eq!(platform_from_name("linu"), None);
    assert_eq!(platform_from_name(""), None);
}

#[test]
fn mods_dir_per_platform() {
    assert_eq!(
        mods_dir_segments(Platform::MacOs),
        strings(&["Library", "ApplicationSupport", "minecraft", "mods"])
    );
    assert_eq!(mods_dir_segments(Platform::Linux), strings(&[".minecraft", "mods"]));
    assert_eq!(
        mods_dir_segments(Platform::Windows),
        strings(&["AppData", "Roaming", ".minecraft", "mods"])
    );
}
