use capnp_import::discovery::evaluate_discovery;
use capnp_import::discovery::DiscoveryOutcome;
use capnp_import::emitter::artifact_contents;
use capnp_import::emitter::baked_path;
use capnp_import::emitter::embeddable_text;
use capnp_import::emitter::forward_slashes;
use capnp_import::location::location_text;
use capnp_import::location::AcquiredLocation;
use capnp_import::paths::normalize_path;
use capnp_import::paths::PathPart;

#[test]
fn forward_slashes_rewrites_backslashes() {
    assert_eq!(forward_slashes("C:\\build\\out"), "C:/build/out");
    assert_eq!(forward_slashes("/already/fine"), "/already/fine");
    assert_eq!(forward_slashes(""), "");
}

#[test]
fn baked_path_has_only_forward_slashes_on_windows() {
    // A windows output directory with backslashes, and the windows
    // install layout: the baked path must contain forward slashes only.
    let loc = AcquiredLocation::Locally("bin/capnp.exe".to_string());
    let baked = baked_path("C:\\target\\debug\\out", &loc);
    assert_eq!(baked, "C:/target/debug/out/bin/capnp.exe");
    assert!(!baked.contains('\\'));
}

#[test]
fn baked_path_joins_system_location() {
    let loc = AcquiredLocation::OnSystem("/usr/local/bin/capnp".to_string());
    assert_eq!(baked_path("/out", &loc), "/out//usr/local/bin/capnp");
}

#[test]
fn location_text_forgets_the_tag() {
    assert_eq!(
        location_text(&AcquiredLocation::OnSystem("/usr/bin/capnp".to_string())),
        "/usr/bin/capnp"
    );
    assert_eq!(
        location_text(&AcquiredLocation::Locally("bin/capnp".to_string())),
        "bin/capnp"
    );
}

#[test]
fn artifact_is_exactly_head_path_tail() {
    let loc = AcquiredLocation::Locally("bin/capnp".to_string());
    let artifact = artifact_contents("open(\"", "C:\\out", &loc, "\")");
    assert_eq!(artifact, "open(\"C:/out/bin/capnp\")");
}

#[test]
fn artifact_after_system_match_contains_the_system_path() {
    // A matching system compiler is what the artifact ends up naming.
    let outcome = DiscoveryOutcome::Probed {
        path: "/usr/local/bin/capnp".to_string(),
        banner: "Cap'n Proto version 0.11.0\n".to_string(),
    };
    let loc = evaluate_discovery(outcome, "0.11.0").unwrap();
    let artifact = artifact_contents("<", "/out", &loc, ">");
    assert_eq!(artifact, "</out//usr/local/bin/capnp>");
    assert!(artifact.contains("/usr/local/bin/capnp"));
}

#[test]
fn artifact_after_local_build_names_the_install_layout() {
    // A locally built compiler: the artifact's path component is
    // exactly the platform install layout.
    let loc = AcquiredLocation::Locally("bin/capnp".to_string());
    let baked = baked_path("/out", &loc);
    assert_eq!(baked, "/out/bin/capnp");
}

#[test]
fn artifact_emission_is_idempotent() {
    // Re-running the emitter with unchanged inputs gives byte-identical
    // artifacts.
    let loc = AcquiredLocation::OnSystem("/usr/local/bin/capnp".to_string());
    let first = artifact_contents("head ", "/out/dir", &loc, " tail");
    let second = artifact_contents("head ", "/out/dir", &loc, " tail");
    assert_eq!(first.as_bytes(), second.as_bytes());
}

#[test]
fn quotation_marks_and_line_breaks_are_not_embeddable() {
    assert!(embeddable_text("/ordinary/path with spaces"));
    assert!(embeddable_text("C:\\out\\dir"));
    assert!(embeddable_text(""));
    assert!(!embeddable_text("/odd\"path"));
    assert!(!embeddable_text("/odd\npath"));
    assert!(!embeddable_text("/odd\rpath"));
}

#[test]
fn normalize_path_keeps_only_normal_components() {
    let parts = vec![
        PathPart::CurDir,
        PathPart::Normal("tests".to_string()),
        PathPart::ParentDir,
        PathPart::Normal("example.capnp".to_string()),
    ];
    let normalized = normalize_path(&parts);
    assert_eq!(
        normalized,
        vec![
            PathPart::Normal("tests".to_string()),
            PathPart::Normal("example.capnp".to_string()),
        ]
    );
}

#[test]
fn normalize_path_drops_roots_and_prefixes() {
    let parts = vec![
        PathPart::Prefix("C:".to_string()),
        PathPart::RootDir,
        PathPart::Normal("schemas".to_string()),
    ];
    let normalized = normalize_path(&parts);
    assert_eq!(normalized, vec![PathPart::Normal("schemas".to_string())]);
}

#[test]
fn normalize_path_of_empty_is_empty() {
    let parts: Vec<PathPart> = vec![];
    assert_eq!(normalize_path(&parts), vec![]);
}
