use motd::render::SegmentRenderer;
use motd::updates::{
    parse_version, version_gt, SemVersion, UpdateCandidate, UpdatesInfo, UpdatesInfoBuilder,
    UpdatesSegmentRenderer,
};

fn v(major: u64, minor: u64, patch: u64) -> SemVersion {
    SemVersion { major, minor, patch }
}

#[test]
fn plain_triples_parse() {
    assert_eq!(parse_version("13.2.1"), Some(v(13, 2, 1)));
    assert_eq!(parse_version("0.0.0"), Some(v(0, 0, 0)));
    assert_eq!(parse_version("14.0.0"), Some(v(14, 0, 0)));
}

#[test]
fn malformed_versions_do_not_parse() {
    assert_eq!(parse_version("13.2"), None);
    assert_eq!(parse_version("13.2.1.4"), None);
    assert_eq!(parse_version("013.2.1"), None);
    assert_eq!(parse_version("13..1"), None);
    assert_eq!(parse_version("a.b.c"), None);
    assert_eq!(parse_version(""), None);
    assert_eq!(parse_version("Unknown version"), None);
    // One more than the largest component a machine word holds.
    assert_eq!(parse_version("18446744073709551616.0.0"), None);
    assert_eq!(parse_version("18446744073709551615.0.0"), Some(v(u64::MAX, 0, 0)));
}

#[test]
fn precedence_is_lexicographic() {
    assert!(version_gt(&v(14, 0, 0), &v(13, 9, 9)));
    assert!(version_gt(&v(13, 3, 0), &v(13, 2, 9)));
    assert!(version_gt(&v(13, 2, 2), &v(13, 2, 1)));
    assert!(!version_gt(&v(13, 2, 1), &v(13, 2, 1)));
    assert!(!version_gt(&v(12, 9, 9), &v(13, 0, 0)));
}

fn candidate(tags: Vec<&str>, version: Option<&str>, build: Option<&str>) -> UpdateCandidate {
    UpdateCandidate {
        tags: tags.into_iter().map(String::from).collect(),
        version_text: version.map(String::from),
        build_text: build.map(String::from),
    }
}

#[test]
fn newer_installer_is_selected() {
    let builder = UpdatesInfoBuilder::new();
    let info = builder.build_from_candidates(
        v(13, 2, 1),
        vec![candidate(
            vec!["SUBUNDLE:com.apple.InstallAssistant"],
            Some("14.0.0"),
            Some("23A344"),
        )],
    );
    assert_eq!(info.updates, vec!["macOS 14.0.0 (23A344)"]);
}

#[test]
fn non_installer_and_old_candidates_are_dropped() {
    let builder = UpdatesInfoBuilder::new();
    let info = builder.build_from_candidates(
        v(13, 2, 1),
        vec![
            candidate(vec!["other"], Some("14.0.0"), Some("23A344")),
            candidate(
                vec!["SUBUNDLE:com.apple.InstallAssistant"],
                Some("13.0.0"),
                Some("22A100"),
            ),
            candidate(vec!["SUBUNDLE:com.apple.InstallAssistant"], None, None),
            candidate(
                vec!["SUBUNDLE:com.apple.InstallAssistant"],
                Some("not-a-version"),
                Some("x"),
            ),
        ],
    );
    assert!(info.updates.is_empty());
}

#[test]
fn missing_build_text_reads_unknown() {
    let builder = UpdatesInfoBuilder::new();
    let info = builder.build_from_candidates(
        v(13, 2, 1),
        vec![candidate(
            vec!["extra", "SUBUNDLE:com.apple.InstallAssistant"],
            Some("14.1.2"),
            None,
        )],
    );
    assert_eq!(info.updates, vec!["macOS 14.1.2 (Unknown build)"]);
}

#[test]
fn unexpected_metadata_reads_as_notice() {
    let info = UpdatesInfoBuilder::new().unexpected_structure_info();
    assert_eq!(
        info.updates,
        vec!["Unable to read updates: unexpected plist structure"]
    );
}

#[test]
fn no_updates_renders_single_notice_line() {
    let renderer = UpdatesSegmentRenderer::new(UpdatesInfo { updates: Vec::new() });
    assert_eq!(renderer.height(), 1);
    assert_eq!(
        renderer.render_lines(),
        vec!["       Updates  No updates available"]
    );
}

#[test]
fn updates_render_one_line_each() {
    let renderer = UpdatesSegmentRenderer::new(UpdatesInfo {
        updates: vec![
            String::from("macOS 14.0.0 (23A344)"),
            String::from("macOS 14.1.0 (23B100)"),
        ],
    });
    assert_eq!(renderer.height(), 2);
    let lines = renderer.render_lines();
    assert_eq!(lines[0], "       Updates  macOS 14.0.0 (23A344)");
    assert_eq!(lines[1], "                macOS 14.1.0 (23B100)");
}
