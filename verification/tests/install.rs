use vsix_installer::install::{build_report, install_dir, install_plan, InstallError};
use vsix_installer::json::JsonValue;
use vsix_installer::manifest::{manifest_display_name, manifest_name};

fn make_zip(entries: &[(&str, &str)]) -> Vec<u8> {
    let mut w = zip::ZipWriter::new(std::io::Cursor::new(Vec::new()));
    for (name, data) in entries {
        w.start_file(*name, zip::write::SimpleFileOptions::default())
            .unwrap();
        std::io::Write::write_all(&mut w, data.as_bytes()).unwrap();
    }
    w.finish().unwrap().into_inner()
}

#[test]
fn demo_theme_archive_installs() {
    let manifest = r#"{"name":"demo","displayName":"Demo Theme","contributes":{"themes":[{"path":"themes/dark.json"}]}}"#;
    let theme = r#"{"colors":{}}"#;
    let bytes = make_zip(&[
        ("extension/package.json", manifest),
        ("extension/themes/dark.json", theme),
    ]);
    let plan = install_plan(bytes).unwrap_or_else(|_| panic!("install failed"));
    assert_eq!(plan.name, "demo");
    assert_eq!(plan.display_name, "Demo Theme");
    assert_eq!(plan.themes.len(), 1);
    assert_eq!(plan.themes[0].path, "themes/dark.json");
    assert_eq!(plan.themes[0].data, theme.as_bytes().to_vec());
    assert_eq!(plan.grammars.len(), 0);
    assert_eq!(plan.snippets.len(), 0);

    let home = install_dir("/home/user", plan.name.as_str());
    let info = build_report(&plan, &vec![true], &vec![], &vec![], home);
    assert_eq!(info.name, "demo");
    assert_eq!(info.display_name, "Demo Theme");
    assert_eq!(info.themes, vec!["themes/dark.json".to_string()]);
    assert_eq!(info.grammars, Vec::<String>::new());
    assert_eq!(info.snippets, Vec::<String>::new());
    assert_eq!(info.install_path, "/home/user/.cogmd/extensions/demo");
}

#[test]
fn display_name_falls_back_to_name() {
    let manifest = r#"{"name":"demo"}"#;
    let bytes = make_zip(&[("extension/package.json", manifest)]);
    let plan = install_plan(bytes).unwrap_or_else(|_| panic!("install failed"));
    assert_eq!(plan.name, "demo");
    assert_eq!(plan.display_name, "demo");
}

#[test]
fn wrong_typed_display_name_falls_back() {
    let manifest = r#"{"name":"demo","displayName":42}"#;
    let bytes = make_zip(&[("extension/package.json", manifest)]);
    let plan = install_plan(bytes).unwrap_or_else(|_| panic!("install failed"));
    assert_eq!(plan.display_name, "demo");
}

#[test]
fn missing_name_uses_fallback() {
    let manifest = r#"{"displayName":"Demo"}"#;
    let bytes = make_zip(&[("extension/package.json", manifest)]);
    let plan = install_plan(bytes).unwrap_or_else(|_| panic!("install failed"));
    assert_eq!(plan.name, "unknown");
    assert_eq!(plan.display_name, "Demo");
}

#[test]
fn omitted_contributes_yields_empty_lists() {
    let manifest = r#"{"name":"demo"}"#;
    let bytes = make_zip(&[("extension/package.json", manifest)]);
    let plan = install_plan(bytes).unwrap_or_else(|_| panic!("install failed"));
    assert_eq!(plan.themes.len(), 0);
    assert_eq!(plan.grammars.len(), 0);
    assert_eq!(plan.snippets.len(), 0);
}

#[test]
fn wrong_typed_contributes_yields_empty_lists() {
    let manifest = r#"{"name":"demo","contributes":"themes"}"#;
    let bytes = make_zip(&[("extension/package.json", manifest)]);
    let plan = install_plan(bytes).unwrap_or_else(|_| panic!("install failed"));
    assert_eq!(plan.themes.len(), 0);
    assert_eq!(plan.grammars.len(), 0);
    assert_eq!(plan.snippets.len(), 0);
}

#[test]
fn missing_manifest_fails() {
    let bytes = make_zip(&[("extension/readme.md", "hello")]);
    match install_plan(bytes) {
        Ok(_) => panic!("install succeeded without a manifest"),
        Err(e) => assert_eq!(e, InstallError::MissingManifest),
    }
}

#[test]
fn empty_archive_has_no_manifest() {
    let bytes = make_zip(&[]);
    match install_plan(bytes) {
        Ok(_) => panic!("install succeeded on an empty archive"),
        Err(e) => assert_eq!(e, InstallError::MissingManifest),
    }
}

#[test]
fn invalid_archive_fails() {
    let bytes = "this is not a zip container".as_bytes().to_vec();
    match install_plan(bytes) {
        Ok(_) => panic!("install succeeded on garbage bytes"),
        Err(e) => assert_eq!(e, InstallError::InvalidArchive),
    }
}

#[test]
fn malformed_manifest_fails() {
    let bytes = make_zip(&[("extension/package.json", "{not json")]);
    match install_plan(bytes) {
        Ok(_) => panic!("install succeeded on an undecodable manifest"),
        Err(e) => assert_eq!(e, InstallError::MalformedManifest),
    }
}

#[test]
fn missing_asset_entry_is_skipped() {
    let manifest = r#"{"name":"demo","contributes":{"themes":[{"path":"themes/a.json"},{"path":"themes/missing.json"},{"path":"themes/b.json"}]}}"#;
    let bytes = make_zip(&[
        ("extension/package.json", manifest),
        ("extension/themes/a.json", "{}"),
        ("extension/themes/b.json", "{}"),
    ]);
    let plan = install_plan(bytes).unwrap_or_else(|_| panic!("install failed"));
    assert_eq!(plan.themes.len(), 2);
    assert_eq!(plan.themes[0].path, "themes/a.json");
    assert_eq!(plan.themes[1].path, "themes/b.json");
}

#[test]
fn entry_without_usable_path_is_skipped() {
    let manifest = r#"{"name":"demo","contributes":{"snippets":[{"language":"md"},{"path":7},{"path":"s.json"}]}}"#;
    let bytes = make_zip(&[
        ("extension/package.json", manifest),
        ("extension/s.json", "{}"),
    ]);
    let plan = install_plan(bytes).unwrap_or_else(|_| panic!("install failed"));
    assert_eq!(plan.snippets.len(), 1);
    assert_eq!(plan.snippets[0].path, "s.json");
}

#[test]
fn all_declared_entries_install_in_order() {
    let manifest = r#"{"name":"demo","contributes":{"themes":[{"path":"t1.json"},{"path":"t2.json"}],"grammars":[{"path":"g.json"}],"snippets":[{"path":"s.json"}]}}"#;
    let bytes = make_zip(&[
        ("extension/package.json", manifest),
        ("extension/t1.json", "1"),
        ("extension/t2.json", "2"),
        ("extension/g.json", "3"),
        ("extension/s.json", "4"),
    ]);
    let plan = install_plan(bytes).unwrap_or_else(|_| panic!("install failed"));
    assert_eq!(plan.themes.len(), 2);
    assert_eq!(plan.themes[0].path, "t1.json");
    assert_eq!(plan.themes[1].path, "t2.json");
    assert_eq!(plan.grammars.len(), 1);
    assert_eq!(plan.grammars[0].path, "g.json");
    assert_eq!(plan.snippets.len(), 1);
    assert_eq!(plan.snippets[0].path, "s.json");

    let info = build_report(
        &plan,
        &vec![true, true],
        &vec![true],
        &vec![true],
        install_dir("/h", "demo"),
    );
    assert_eq!(info.themes, vec!["t1.json".to_string(), "t2.json".to_string()]);
    assert_eq!(info.grammars, vec!["g.json".to_string()]);
    assert_eq!(info.snippets, vec!["s.json".to_string()]);
}

#[test]
fn duplicate_paths_each_processed() {
    let manifest = r#"{"name":"demo","contributes":{"themes":[{"path":"t.json"},{"path":"t.json"}]}}"#;
    let bytes = make_zip(&[
        ("extension/package.json", manifest),
        ("extension/t.json", "{}"),
    ]);
    let plan = install_plan(bytes).unwrap_or_else(|_| panic!("install failed"));
    assert_eq!(plan.themes.len(), 2);
    assert_eq!(plan.themes[0].path, "t.json");
    assert_eq!(plan.themes[1].path, "t.json");
}

#[test]
fn install_twice_is_identical() {
    let manifest = r#"{"name":"demo","displayName":"Demo","contributes":{"themes":[{"path":"t.json"}]}}"#;
    let bytes = make_zip(&[
        ("extension/package.json", manifest),
        ("extension/t.json", "theme-bytes"),
    ]);
    let plan1 = install_plan(bytes.clone()).unwrap_or_else(|_| panic!("install failed"));
    let plan2 = install_plan(bytes).unwrap_or_else(|_| panic!("install failed"));
    assert_eq!(plan1.name, plan2.name);
    assert_eq!(plan1.display_name, plan2.display_name);
    assert_eq!(plan1.themes.len(), plan2.themes.len());
    assert_eq!(plan1.themes[0].path, plan2.themes[0].path);
    assert_eq!(plan1.themes[0].data, plan2.themes[0].data);
    assert_eq!(plan1.grammars.len(), plan2.grammars.len());
    assert_eq!(plan1.snippets.len(), plan2.snippets.len());

    let info1 = build_report(&plan1, &vec![true], &vec![], &vec![], install_dir("/h", "demo"));
    let info2 = build_report(&plan2, &vec![true], &vec![], &vec![], install_dir("/h", "demo"));
    assert_eq!(info1.name, info2.name);
    assert_eq!(info1.display_name, info2.display_name);
    assert_eq!(info1.themes, info2.themes);
    assert_eq!(info1.grammars, info2.grammars);
    assert_eq!(info1.snippets, info2.snippets);
    assert_eq!(info1.install_path, info2.install_path);
}

#[test]
fn failed_writes_are_left_out_of_the_report() {
    let manifest = r#"{"name":"demo","contributes":{"themes":[{"path":"t1.json"},{"path":"t2.json"}]}}"#;
    let bytes = make_zip(&[
        ("extension/package.json", manifest),
        ("extension/t1.json", "1"),
        ("extension/t2.json", "2"),
    ]);
    let plan = install_plan(bytes).unwrap_or_else(|_| panic!("install failed"));
    let info = build_report(&plan, &vec![false, true], &vec![], &vec![], install_dir("/h", "demo"));
    assert_eq!(info.themes, vec!["t2.json".to_string()]);
}

#[test]
fn install_dir_layout() {
    let dir = install_dir("/home/user", "demo");
    assert_eq!(dir, "/home/user/.cogmd/extensions/demo");
}

#[test]
fn error_descriptions() {
    assert_eq!(InstallError::InvalidArchive.describe(), "Invalid VSIX archive");
    assert_eq!(
        InstallError::MissingManifest.describe(),
        "VSIX missing extension/package.json"
    );
    assert_eq!(InstallError::MalformedManifest.describe(), "Invalid package.json");
    assert_eq!(InstallError::DirectoryUnwritable.describe(), "Cannot create directory");
}

#[test]
fn manifest_accessors_on_plain_values() {
    let m = JsonValue::Object(vec![
        ("name".to_string(), JsonValue::Str("demo".to_string())),
        ("displayName".to_string(), JsonValue::Bool(true)),
    ]);
    assert_eq!(manifest_name(&m), "demo");
    assert_eq!(manifest_display_name(&m), "demo");

    let not_an_object = JsonValue::Array(vec![]);
    assert_eq!(manifest_name(&not_an_object), "unknown");
}
