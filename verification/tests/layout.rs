use prism_core::layout::{
    discover_cargo_layout, discover_python_layout, extract_setup_py_keyword, is_python_manifest,
    manifest_kind, manifest_package_name_from_text, normalize_identifier, package_name_for_manifest,
    root_manifest_path, setup_cfg_package_name, workspace_names, ManifestEntry, ManifestKind,
    PackageInfo, WorkspaceLayout,
};

fn path(s: &str) -> Vec<String> {
    s.split('/').filter(|p| !p.is_empty()).map(|p| p.to_string()).collect()
}

#[test]
fn normalize_identifier_collapses_separators_and_lowercases() {
    assert_eq!(normalize_identifier("My-Crate Name"), "my_crate_name");
    assert_eq!(normalize_identifier("__prism--core__"), "prism_core");
    assert_eq!(normalize_identifier("a..b"), "a_b");
    assert_eq!(normalize_identifier("Ünïcode"), "n_code");
    assert_eq!(normalize_identifier("---"), "workspace");
    assert_eq!(normalize_identifier(""), "workspace");
}

#[test]
fn normalize_identifier_is_idempotent_on_examples() {
    for name in ["My-Crate", "x__y", "__", "Already_ok", "9lives"] {
        let once = normalize_identifier(name);
        assert_eq!(normalize_identifier(&once), once);
    }
}

#[test]
fn setup_cfg_name_is_read_from_metadata_section() {
    let cfg = "[options]\nname = wrong\n\n[Metadata]\n  Name =  prism-demo  \nversion = 1\n";
    assert_eq!(setup_cfg_package_name(cfg), Some("prism-demo".to_string()));
    assert_eq!(setup_cfg_package_name("[metadata]\nname =\n"), None);
    assert_eq!(setup_cfg_package_name("name = top\n[metadata]\nversion=1"), None);
    assert_eq!(setup_cfg_package_name("[metadata]\r\nname=crlf\r\n"), Some("crlf".to_string()));
    assert_eq!(setup_cfg_package_name(""), None);
}

#[test]
fn setup_py_keyword_takes_the_quoted_value() {
    assert_eq!(extract_setup_py_keyword("setup(name='demo', version='1')", "name"), Some("demo".to_string()));
    assert_eq!(extract_setup_py_keyword("setup(name = \"demo\")", "name"), Some("demo".to_string()));
    assert_eq!(extract_setup_py_keyword("setup(name=NAME)", "name"), None);
    assert_eq!(extract_setup_py_keyword("setup(name=", "name"), None);
    assert_eq!(extract_setup_py_keyword("setup(name='open", "name"), None);
    assert_eq!(extract_setup_py_keyword("setup(version='1')", "name"), None);
    assert_eq!(extract_setup_py_keyword("x(name=N, name = 'second')", "name"), Some("second".to_string()));
}

#[test]
fn manifest_names_are_recognized() {
    assert!(is_python_manifest(Some("pyproject.toml")));
    assert!(is_python_manifest(Some("setup.py")));
    assert!(is_python_manifest(Some("setup.cfg")));
    assert!(!is_python_manifest(Some("Cargo.toml")));
    assert!(!is_python_manifest(None));
    assert_eq!(manifest_kind(Some("Cargo.toml")), Some(ManifestKind::CargoToml));
    assert_eq!(manifest_kind(Some("setup.py")), Some(ManifestKind::SetupPy));
    assert_eq!(manifest_kind(Some("README.md")), None);
}

#[test]
fn package_names_come_from_the_manifest_kind() {
    let poetry = "[tool.poetry]\nname = \"poetry-app\"\n";
    assert_eq!(
        package_name_for_manifest(Some("pyproject.toml"), Some(poetry)),
        Ok(Some("poetry-app".to_string()))
    );
    let both = "[project]\nname = \"proj\"\n[tool.poetry]\nname = \"poetry-app\"\n";
    assert_eq!(
        package_name_for_manifest(Some("pyproject.toml"), Some(both)),
        Ok(Some("proj".to_string()))
    );
    assert_eq!(
        package_name_for_manifest(Some("setup.py"), Some("setup(name='py')")),
        Ok(Some("py".to_string()))
    );
    assert_eq!(package_name_for_manifest(Some("pyproject.toml"), None), Ok(None));
    assert_eq!(package_name_for_manifest(Some("README.md"), Some("name = 'x'")), Ok(None));
}

#[test]
fn cargo_manifest_names_its_package() {
    let manifest = "[package]\nname = \"demo-core\"\nversion = \"0.1.0\"\n";
    assert_eq!(
        manifest_package_name_from_text(ManifestKind::CargoToml, manifest),
        Ok(Some("demo-core".to_string()))
    );
    assert_eq!(
        manifest_package_name_from_text(ManifestKind::CargoToml, "[workspace]\nmembers = []\n"),
        Ok(None)
    );
    // A name that is no string, or a package that is no table, gives no name.
    assert_eq!(manifest_package_name_from_text(ManifestKind::CargoToml, "[package]\nname = 3\n"), Ok(None));
    assert_eq!(manifest_package_name_from_text(ManifestKind::CargoToml, "package = \"x\"\n"), Ok(None));
    assert!(manifest_package_name_from_text(ManifestKind::CargoToml, "[package\nname = ").is_err());
    assert!(manifest_package_name_from_text(ManifestKind::PyprojectToml, "[project\n").is_err());
}

#[test]
fn root_manifest_prefers_pyproject_then_setup_py_then_setup_cfg() {
    let root = path("/repo");
    assert_eq!(root_manifest_path(&root, false, true, true), path("/repo/setup.py"));
    assert_eq!(root_manifest_path(&root, false, false, true), path("/repo/setup.cfg"));
    assert_eq!(root_manifest_path(&root, false, false, false), path("/repo/pyproject.toml"));
    assert_eq!(root_manifest_path(&root, true, true, true), path("/repo/pyproject.toml"));
}

fn entry(manifest: &str, name: Option<&str>) -> ManifestEntry {
    let manifest_path = path(manifest);
    let file_name = manifest_path.last().cloned();
    let package_root = manifest_path[..manifest_path.len() - 1].to_vec();
    ManifestEntry {
        package_root_name: package_root.last().cloned(),
        manifest_path,
        is_file: true,
        file_name,
        package_root,
        package_name: name.map(|n| n.to_string()),
    }
}

#[test]
fn cargo_layout_lists_root_then_named_members() {
    let (name, display) = workspace_names(Some("My Repo"));
    assert_eq!(name, "my_repo");
    let layout = discover_cargo_layout(
        name,
        display,
        path("/repo"),
        None,
        vec![
            entry("/repo/Cargo.toml", Some("ignored")),
            entry("/repo/crates/core/Cargo.toml", Some("prism-core")),
            entry("/repo/crates/virt/Cargo.toml", None),
            entry("/repo/crates/core/README.md", Some("no")),
        ],
    );
    assert_eq!(layout.packages.len(), 2);
    assert_eq!(layout.packages[0].package_name, "My Repo");
    assert_eq!(layout.packages[0].crate_name, "my_repo");
    assert_eq!(layout.packages[1].crate_name, "prism_core");
    assert_eq!(layout.packages[1].node_id.path, "prism_core");
    assert_eq!(layout.workspace_manifest, path("/repo/Cargo.toml"));

    let deep = layout.package_for(&path("/repo/crates/core/src/lib.rs"));
    assert_eq!(deep.package_name, "prism-core");
    let top = layout.package_for(&path("/repo/README.md"));
    assert_eq!(top.package_name, "My Repo");
    let outside = layout.package_for(&path("/elsewhere/x.rs"));
    assert_eq!(outside.package_name, "My Repo");
}

#[test]
fn python_layout_keeps_one_package_per_directory() {
    let layout: WorkspaceLayout = discover_python_layout(
        "ws".to_string(),
        "ws".to_string(),
        path("/ws"),
        path("/ws/pyproject.toml"),
        Some("root-pkg".to_string()),
        vec![
            entry("/ws/pyproject.toml", None),
            entry("/ws/libs/a/setup.py", Some("alpha")),
            entry("/ws/libs/a/setup.cfg", Some("alpha-again")),
            entry("/ws/libs/b/setup.cfg", None),
            entry("/ws/setup.cfg", Some("root-again")),
        ],
    );
    let names: Vec<&str> = layout.packages.iter().map(|p| p.package_name.as_str()).collect();
    assert_eq!(names, vec!["root-pkg", "alpha", "b"]);
}

#[test]
fn package_info_normalizes_its_crate_name() {
    let info = PackageInfo::new("Fancy.Pkg".to_string(), path("/r"), path("/r/setup.py"));
    assert_eq!(info.crate_name, "fancy_pkg");
    assert_eq!(info.node_id.crate_name, "fancy_pkg");
}
