use verso_standalone::server::Candidate;
use verso_standalone::servo_locator::{
    detect_host_triple, env_servo_bin, find_local_artifacts_base, locate_in_slot,
    locate_prepared_servo, locate_servo_binary, locate_within_slot_dir, manifest_commit,
    normalize_bin_name, parse_rfc3339_as_seconds, read_metadata_timestamp, search_order, CommitDir,
    resolve_current_symlink, resolve_latest_manifest, PreparedServo, ServoMetadata, SlotFacts,
    SlotPair,
};
use verso_standalone::servo_prep::{
    archive_name, artifact_candidates, bin_name_for_host, build_servo, checksum, choose_or,
    choose_profile, choose_setting, copy_targets, determine_features, determine_servo_src,
    exit_report, find_workspace_root, locate_servo_artifact, make_metadata, package_metadata,
    package_name, package_value, pointer_disabled, pointer_failure, pointer_place,
    resource_place, split_features,
    staging_place, target_is_directory, tool_output, update_current_pointer,
    write_manifest, BuildFile, BuildProfile,
    HostSystem, PackageKind, PointerPlace, Workspace, DEFAULT_BINARY, DEFAULT_OUTPUT,
};

fn some(s: &str) -> Option<String> {
    Some(s.to_string())
}

fn at(path: &str, exists: bool) -> Candidate {
    Candidate { path: path.to_string(), exists }
}

#[test]
fn test_normalize_bin_name() {
    let windows = std::path::MAIN_SEPARATOR == '\\';
    let n = normalize_bin_name("servo", windows);
    if windows {
        assert_eq!(n, "servo.exe");
    } else {
        assert_eq!(n, "servo");
    }
    assert_eq!(normalize_bin_name("servo", true), "servo.exe");
    assert_eq!(normalize_bin_name("servo", false), "servo");
    assert_eq!(bin_name_for_host("verso", true), "verso.exe");
}

#[test]
fn test_parse_rfc3339_score() {
    // Monotonic-ish scores for increasing timestamps
    let a = parse_rfc3339_as_seconds("2025-01-01T00:00:00Z").unwrap();
    let b = parse_rfc3339_as_seconds("2025-02-01T00:00:00Z").unwrap();
    assert!(b > a);
}

#[test]
fn scores_of_odd_time_stamps() {
    let score = |s: &str| parse_rfc3339_as_seconds(s).unwrap();
    assert_eq!(score("2025-01-02T03:04:05Z"), 20250102030405);
    assert_eq!(score("2025-01-02T03:04:05.987654+02:00"), 20250102030405);
    assert_eq!(score(""), 0);
    assert_eq!(score("unknown"), 0);
    assert_eq!(score("v1.2"), 12);
    // Characters that are no digits still count towards the first fourteen.
    assert_eq!(score("abcdefghijklm56"), 5);
    assert_eq!(score("99999999999999999"), 99999999999999);
    assert!(score("2024-12-31T23:59:59Z") < score("2025-01-01T00:00:00.5Z"));
}

#[test]
fn env_override_not_set() {
    assert!(env_servo_bin(Some(at("__verso_test_dne__", false))).is_none());
    assert!(env_servo_bin(None).is_none());
    assert_eq!(env_servo_bin(Some(at("/bin/servo", true))), some("/bin/servo"));
}

fn meta(ts: &str) -> ServoMetadata {
    ServoMetadata {
        servo_commit: "abc".into(),
        build_profile: "release".into(),
        enabled_features: vec![],
        timestamp: ts.into(),
        target_triple: "t".into(),
        rust_toolchain: "r".into(),
        binary_name: "servo".into(),
    }
}

fn dir(name: &str, exists: bool, ts: Option<&str>, age: i64) -> CommitDir {
    CommitDir {
        path: format!("/slot/{name}"),
        name: name.into(),
        binary: at(&format!("/slot/{name}/servo"), exists),
        metadata: ts.map(meta),
        age,
    }
}

fn slot(current: Option<CommitDir>, manifest: Option<CommitDir>, children: Vec<CommitDir>) -> SlotFacts {
    SlotFacts { current, manifest, children }
}

fn binary(p: Option<PreparedServo>) -> Option<String> {
    p.map(|p| p.binary)
}

#[test]
fn slot_prefers_current_then_manifest_then_newest() {
    let kids = || vec![dir("k", true, None, 0)];
    let cur = Some(dir("c", true, None, 0));
    let man = Some(dir("m", true, None, 0));
    assert_eq!(binary(locate_within_slot_dir(slot(cur, man.clone(), kids()))), some("/slot/c/servo"));
    let broken = Some(dir("c", false, None, 0));
    assert_eq!(
        binary(locate_within_slot_dir(slot(broken.clone(), man, kids()))),
        some("/slot/m/servo")
    );
    let no_man = Some(dir("m", false, None, 0));
    assert_eq!(binary(locate_within_slot_dir(slot(broken, no_man, kids()))), some("/slot/k/servo"));
    assert_eq!(locate_within_slot_dir(slot(None, None, vec![])), None);
}

#[test]
fn newest_build_wins_by_stamp_then_age_then_name() {
    let by = |v| binary(locate_within_slot_dir(slot(None, None, v)));
    let old = "2024-01-01T00:00:00Z";
    let new = "2025-01-01T00:00:00Z";
    assert_eq!(
        by(vec![dir("a", true, Some(old), 0), dir("b", true, Some(new), -100)]),
        some("/slot/b/servo")
    );
    assert_eq!(
        by(vec![dir("a", true, Some(new), -5), dir("b", true, Some(new), -100)]),
        some("/slot/a/servo")
    );
    assert_eq!(
        by(vec![dir("a", true, None, -5), dir("c", true, None, -5), dir("b", true, None, -5)]),
        some("/slot/c/servo")
    );
    // The newest build is taken at its word: without a binary there is no second choice.
    assert_eq!(by(vec![dir("a", true, Some(old), 0), dir("b", false, Some(new), 0)]), None);
}

#[test]
fn misplaced_slots_and_search_order() {
    let empty = || slot(None, None, vec![]);
    let with = |n: &str| slot(Some(dir(n, true, None, 0)), None, vec![]);
    let first = locate_in_slot(SlotPair { slot: with("s"), legacy: with("l") });
    assert_eq!(binary(first), some("/slot/s/servo"));
    let second = locate_in_slot(SlotPair { slot: empty(), legacy: with("l") });
    assert_eq!(binary(second), some("/slot/l/servo"));

    let slots = || {
        vec![
            SlotPair { slot: empty(), legacy: empty() },
            SlotPair { slot: with("x"), legacy: empty() },
            SlotPair { slot: with("y"), legacy: empty() },
        ]
    };
    assert_eq!(locate_servo_binary(None, slots()), some("/slot/x/servo"));
    let env = Some(PreparedServo { binary: "/env/servo".into(), metadata: Some(meta("t")) });
    assert_eq!(locate_prepared_servo(env.clone(), slots()), env);
    assert_eq!(locate_prepared_servo(None, vec![]), None);

    let names = |v: Vec<(String, String)>| {
        v.into_iter().map(|(t, p)| format!("{t}/{p}")).collect::<Vec<_>>()
    };
    let listed = vec!["t1".to_string(), "t2".to_string()];
    assert_eq!(
        names(search_order(&None, &None, &None, &listed)),
        vec!["t1/release", "t1/debug", "t2/release", "t2/debug"]
    );
    assert_eq!(
        names(search_order(&some("debug"), &None, &some("host"), &listed)),
        vec!["host/debug"]
    );
    assert_eq!(
        names(search_order(&None, &some("want"), &some("host"), &listed)),
        vec!["want/release", "want/debug"]
    );
}

#[test]
fn metadata_scores_and_base_directories() {
    assert_eq!(read_metadata_timestamp(&None), None);
    assert_eq!(read_metadata_timestamp(&Some(meta("2025-01-01T00:00:00Z"))), Some(20250101000000));

    let up: Vec<Candidate> =
        (0..8).map(|i| at(&format!("/up{i}"), i == 6)).collect();
    // Only six directories upwards are looked at.
    assert_eq!(find_local_artifacts_base(&None, &up, &Some(at("/cwd", true))), some("/cwd"));
    assert_eq!(find_local_artifacts_base(&None, &up, &Some(at("/cwd", false))), None);
    assert_eq!(find_local_artifacts_base(&Some(at("/env", true)), &up, &None), some("/env"));
    let near = vec![at("/a", false), at("/b", true), at("/c", true)];
    assert_eq!(find_local_artifacts_base(&Some(at("/env", false)), &near, &None), some("/b"));
}

#[test]
fn host_triple_is_read_from_the_compiler_report() {
    let report = "rustc 1.90.0 (abc)\nbinary: rustc\r\nhost:  x86_64-unknown-linux-gnu \r\nrelease: 1\n";
    assert_eq!(detect_host_triple(report), Ok("x86_64-unknown-linux-gnu".to_string()));
    assert_eq!(
        detect_host_triple("no host: here\n host: neither"),
        Err("could not parse host triple from rustc -vV".to_string())
    );
    assert_eq!(detect_host_triple("host:"), Ok(String::new()));
}

#[test]
fn features_are_split_and_chosen() {
    assert_eq!(split_features(" a, b ,,c\t,"), vec!["a", "b", "c"]);
    assert!(split_features("").is_empty());
    assert!(split_features(" , ,").is_empty());
    let features = split_features(" b , a b,,b ");
    assert_eq!(features, vec!["b", "a b", "b"]);
    assert_eq!(split_features(&features.join(",")), features);
    assert_eq!(determine_features(&some("x,y"), &Some(vec!["z".into()])), vec!["x", "y"]);
    assert_eq!(determine_features(&None, &Some(vec!["z".into()])), vec!["z"]);
    assert!(determine_features(&None, &None).is_empty());
}

#[test]
fn settings_take_command_line_then_file_then_default() {
    assert_eq!(choose_profile(Some(BuildProfile::Debug), &some("release")), BuildProfile::Debug);
    assert_eq!(choose_profile(None, &some("debug")), BuildProfile::Debug);
    assert_eq!(choose_profile(None, &some("release")), BuildProfile::Release);
    assert_eq!(choose_profile(None, &some("other")), BuildProfile::Release);
    assert_eq!(choose_profile(None, &None), BuildProfile::Release);
    assert_eq!(BuildProfile::Debug.as_dir(), "debug");
    assert_eq!(BuildProfile::Release.as_dir(), "release");
    assert_eq!(choose_or(&None, &None, DEFAULT_BINARY), "servo");
    assert_eq!(choose_or(&None, &some("servoshell"), DEFAULT_BINARY), "servoshell");
    assert_eq!(choose_or(&some("o"), &some("p"), DEFAULT_OUTPUT), "o");
    assert_eq!(DEFAULT_OUTPUT, "third_party/servo-binaries/local");
    assert_eq!(choose_setting(&None, &some("1.90")), some("1.90"));
    assert_eq!(choose_setting(&None, &None), None);
    assert!(pointer_disabled(true, None));
    assert!(pointer_disabled(false, Some(true)));
    assert!(!pointer_disabled(false, Some(false)));
    assert!(!pointer_disabled(false, None));
}

#[test]
fn sources_are_found_or_asked_for() {
    let env = Some(at("/env", true));
    let cfg = Some(at("/cfg", true));
    assert_eq!(determine_servo_src(&some("/cli"), &env, &cfg), Ok("/cli".to_string()));
    assert_eq!(determine_servo_src(&None, &env, &cfg), Ok("/env".to_string()));
    assert_eq!(determine_servo_src(&None, &Some(at("/env", false)), &cfg), Ok("/cfg".to_string()));
    let missing = determine_servo_src(&None, &None, &Some(at("/cfg", false))).unwrap_err();
    assert!(missing.starts_with("Servo source path not provided. Use --servo-src, set SERVO_SRC"));
}

#[test]
fn build_command_and_artifact_places() {
    let feats = vec!["f1".to_string(), "f2".to_string()];
    assert_eq!(
        build_servo("servo", BuildProfile::Release, &feats, &some("t"), &some("nightly")),
        vec![
            "+nightly", "build", "--bin", "servo", "--release", "--features", "f1,f2", "--target", "t"
        ]
    );
    assert_eq!(
        build_servo("b", BuildProfile::Debug, &vec![], &None, &None),
        vec!["build", "--bin", "b"]
    );
    assert_eq!(
        artifact_candidates("servo", BuildProfile::Debug, &some("t")),
        vec![vec!["target", "t", "debug", "servo"], vec!["target", "debug", "servo"]]
    );
    assert_eq!(
        artifact_candidates("servo", BuildProfile::Release, &None),
        vec![vec!["target", "release", "servo"]]
    );
    assert_eq!(
        locate_servo_artifact(&vec![at("/a", false), at("/b", true)]),
        Ok("/b".to_string())
    );
    assert_eq!(
        locate_servo_artifact(&vec![at("/a", false), at("/b", false)]),
        Err("Could not find built binary. Tried: /a, /b".to_string())
    );
    assert_eq!(
        staging_place("out", "t", BuildProfile::Debug, "abc"),
        vec!["out", "t", "debug", "abc"]
    );
}

#[test]
fn tools_report_their_failures() {
    assert_eq!(tool_output("git rev-parse", true, " abc123\n", ""), Ok("abc123".to_string()));
    assert_eq!(
        tool_output("git rev-parse", false, "x", "not a repo"),
        Err("git rev-parse failed: not a repo".to_string())
    );
    assert_eq!(exit_report("cargo build", Some(101)), "cargo build failed with status 101");
    assert_eq!(exit_report("cargo build", None), "cargo build failed with status -1");
    assert_eq!(exit_report("light.exe", Some(i32::MIN)), "light.exe failed with status -2147483648");
}

#[test]
fn strict_pointer_failures_end_the_run() {
    assert_eq!(pointer_failure(false, "servo pointer file", "/p", "denied"), Ok(()));
    assert_eq!(
        pointer_failure(true, "servo pointer file", "/p", "denied"),
        Err("failed to write servo pointer file /p: denied".to_string())
    );
    assert_eq!(
        pointer_failure(true, "--write-pointer file", "/p", "denied"),
        Err("failed to write --write-pointer file /p: denied".to_string())
    );
}

#[test]
fn pointer_goes_to_current_or_to_a_commit() {
    assert_eq!(pointer_place(false, true, &some("m"), "c"), PointerPlace::Current);
    assert_eq!(pointer_place(true, true, &some("m"), "c"), PointerPlace::Commit("m".into()));
    assert_eq!(pointer_place(false, false, &None, "c"), PointerPlace::Commit("c".into()));
    assert_eq!(copy_targets(&None, &None), vec!["versoview"]);
    assert_eq!(copy_targets(&Some(vec![]), &None), vec!["versoview"]);
    assert_eq!(copy_targets(&Some(vec!["a".into(), "b".into()]), &some("c")), vec!["a", "b", "c"]);
    assert!(target_is_directory(true, true));
    assert!(target_is_directory(false, false));
    assert!(!target_is_directory(false, true));
}

#[test]
fn packages_are_named_where_they_can_be_made() {
    let name = |k, s| package_name(k, s, "x86_64-unknown-linux-gnu", BuildProfile::Release, "abc");
    assert_eq!(
        name(PackageKind::Zip, HostSystem::Other),
        Ok("servo-x86_64-unknown-linux-gnu-release-abc.zip".to_string())
    );
    assert_eq!(
        name(PackageKind::AppImage, HostSystem::Other),
        Ok("Verso-x86_64-unknown-linux-gnu.AppImage".to_string())
    );
    assert_eq!(name(PackageKind::Dmg, HostSystem::MacOs), Ok("Verso.dmg".to_string()));
    assert_eq!(name(PackageKind::Msi, HostSystem::Windows), Ok("Verso.msi".to_string()));
    assert_eq!(
        name(PackageKind::Dmg, HostSystem::Other),
        Err("DMG packaging requires macOS (hdiutil).".to_string())
    );
    assert_eq!(
        name(PackageKind::Msi, HostSystem::MacOs),
        Err("MSI packaging requires Windows with WiX Toolset installed.".to_string())
    );
    assert_eq!(archive_name("a\\b/c"), "a/b/c");
}

#[test]
fn checksums_are_sha256_in_hexadecimal() {
    assert_eq!(
        checksum(b""),
        "e3b0c44298fc1c149afbf4c8996fb92427ae41e4649b934ca495991b7852b855"
    );
    assert_eq!(
        checksum(b"abc"),
        "ba7816bf8f01cfea414140de5dae2223b00361a396177a9cb410ff61f20015ad"
    );
}

#[test]
fn package_metadata_lists_build_and_checksums() {
    let m = make_metadata(
        "abc",
        BuildProfile::Debug,
        &vec!["f".to_string()],
        "2025-01-01T00:00:00Z",
        "t",
        &None,
        "rustc 1.90",
        "servo",
    );
    assert_eq!(m.rust_toolchain, "rustc 1.90");
    let pinned = make_metadata(
        "abc", BuildProfile::Debug, &vec![], "ts", "t", &some("nightly"), "rustc 1.90", "servo",
    );
    assert_eq!(pinned.rust_toolchain, "nightly");
    assert_eq!(pinned.build_profile, "debug");
    let sums = vec![("a".to_string(), "01".to_string()), ("b".to_string(), "02".to_string())];
    let v = package_value(&m, &some("AppImage"), &sums);
    assert_eq!(v["servo_commit"], "abc");
    assert_eq!(v["enabled_features"][0], "f");
    assert_eq!(v["package"], "AppImage");
    assert_eq!(v["checksums"]["b"], "02");
    assert_eq!(v.as_object().unwrap().len(), 9);
    assert_eq!(package_value(&m, &None, &sums).as_object().unwrap().len(), 8);
    let twice = vec![
        ("servo".to_string(), "old".to_string()),
        ("a".to_string(), "1".to_string()),
        ("servo".to_string(), "new".to_string()),
    ];
    let listed = package_value(&m, &None, &twice);
    assert_eq!(listed["checksums"]["servo"], "new");
    assert_eq!(listed["checksums"]["a"], "1");
    assert_eq!(listed["checksums"].as_object().unwrap().len(), 2);
    let bytes = package_metadata(&m, &None, &sums).unwrap();
    let back: serde_json::Value = serde_json::from_slice(&bytes).unwrap();
    assert_eq!(back, package_value(&m, &None, &sums));
    assert!(String::from_utf8(bytes).unwrap().contains("\n  \"binary_name\": \"servo\""));
}

#[test]
fn written_manifest_reads_back() {
    let bytes = write_manifest("abc \"quoted\" \u{1F600}", "2025-01-01T00:00:00Z").unwrap();
    assert_eq!(manifest_commit(&bytes), some("abc \"quoted\" \u{1F600}"));
    let text = r#"{"current":"abc123def456","updated_at":"2025-01-01T00:00:00Z"}"#;
    assert_eq!(manifest_commit(&text.as_bytes().to_vec()), some("abc123def456"));
    assert_eq!(manifest_commit(&b"{\"current\": 5}".to_vec()), None);
    assert_eq!(manifest_commit(&b"[\"current\"]".to_vec()), None);
    assert_eq!(manifest_commit(&b"{}".to_vec()), None);
    assert_eq!(manifest_commit(&b"not json".to_vec()), None);
}

#[test]
fn workspace_is_the_nearest_that_declares_itself() {
    let text = |s: &str| BuildFile::Text(s.to_string());
    let up = vec![text("[package]"), BuildFile::Missing, text("x\n[workspace]\n"), text("[workspace]")];
    assert!(matches!(find_workspace_root(&up), Workspace::Found(2)));
    let bad = vec![BuildFile::Missing, BuildFile::Unreadable("denied".into()), text("[workspace]")];
    match find_workspace_root(&bad) {
        Workspace::Failed(e) => assert_eq!(e, "denied"),
        _ => panic!("an unreadable build file ends the search"),
    }
    assert!(matches!(find_workspace_root(&vec![text("[work")]), Workspace::NotFound));
}

#[test]
fn current_pointer_is_found_again() {
    let linked = update_current_pointer("abc123", "2025-01-01T00:00:00Z", true).unwrap();
    assert_eq!(linked.link, some("abc123"));
    assert!(linked.manifest.is_none());
    assert_eq!(resolve_current_symlink(linked.link.clone(), true), some("abc123"));
    assert_eq!(resolve_current_symlink(linked.link, false), None);
    assert_eq!(resolve_current_symlink(None, true), None);
    let written = update_current_pointer("abc123", "2025-01-01T00:00:00Z", false).unwrap();
    assert!(written.link.is_none());
    let current = manifest_commit(&written.manifest.unwrap());
    assert_eq!(resolve_latest_manifest(current.clone(), true), some("abc123"));
    assert_eq!(resolve_latest_manifest(current, false), None);
}

#[test]
fn resources_are_placed_by_name() {
    assert_eq!(resource_place(true, &some("icon.png"), ""), vec!["icon.png"]);
    assert_eq!(resource_place(false, &some("static"), "a/b.html"), vec!["static", "a/b.html"]);
    assert_eq!(resource_place(false, &None, "x"), vec!["res", "x"]);
}

#[test]
fn scores_agree_up_to_the_seconds() {
    let score = |s: &str| parse_rfc3339_as_seconds(s).unwrap();
    assert_eq!(score("2025-10-15T10:20:30Z"), score("2025-10-15T10:20:30.5+02:00"));
    assert_ne!(score("2025-10-15T10:20:30Z"), score("2025-10-15T10:20:31Z"));
    assert_eq!(score("9999-99-99T99:99:99Z"), 99_999_999_999_999);
    assert_eq!(score("no digits"), 0);
}
