use pystubgen::stubgen::locator::{
    get_maturin_project_info, get_rust_src_files, get_workspace_members_path, is_maturin_project,
    parse_project_config, FsEntry, FsTree,
};
use pystubgen::stubgen::StubError;

fn file(name: &str, content: &str) -> FsEntry {
    FsEntry {
        name: name.to_string(),
        node: FsTree::File {
            content: content.to_string(),
        },
    }
}

fn dir(name: &str, entries: Vec<FsEntry>) -> FsEntry {
    FsEntry {
        name: name.to_string(),
        node: FsTree::Dir { entries },
    }
}

const MATURIN_PYPROJECT: &str = "
[build-system]
build-backend = \"maturin\"
";

const SETUPTOOLS_PYPROJECT: &str = "
[build-system]
build-backend = \"setuptools\"
";

fn maturin_member(package: &str, module: &str, src_entries: Vec<FsEntry>) -> Vec<FsEntry> {
    let cargo = format!(
        "[package]\nname = \"{}\"\n\n[lib]\nname = \"{}\"\n",
        package, module
    );
    vec![
        file("pyproject.toml", MATURIN_PYPROJECT),
        file("Cargo.toml", &cargo),
        dir("src", src_entries),
    ]
}

#[test]
fn test_is_maturin_project() {
    let maturin_toml = r#"
        [build-system]
        build-backend = "maturin"
        "#;

    let non_maturin_toml = r#"
        [build-system]
        build-backend = "setuptools"
        "#;

    let cfg = parse_project_config(maturin_toml).unwrap();
    assert!(is_maturin_project(&cfg));

    let cfg = parse_project_config(non_maturin_toml).unwrap();
    assert!(!is_maturin_project(&cfg));
}

#[test]
fn test_get_workspace_members_path() {
    let pyproject = "
[tool.uv.workspace]
members = [\"libs/*\", \"single_project\"]
";
    let cfg = parse_project_config(pyproject).unwrap();
    let members: Vec<String> = cfg
        .workspace_members
        .unwrap()
        .into_iter()
        .map(|m| m.unwrap())
        .collect();

    let tree = FsTree::Dir {
        entries: vec![
            dir(
                "libs",
                vec![dir("lib_a", vec![]), dir("lib_b", vec![]), dir("lib_c", vec![])],
            ),
            dir("single_project", vec![]),
        ],
    };

    let resolved = get_workspace_members_path(&tree, &members, "tests/test-project").unwrap();
    assert_eq!(resolved.len(), 4);
    assert_eq!(resolved[0], "libs/lib_a");
    assert_eq!(resolved[1], "libs/lib_b");
    assert_eq!(resolved[2], "libs/lib_c");
    assert_eq!(resolved[3], "single_project");
}

#[test]
fn test_get_project_info() {
    let workspace_pyproject = "
[tool.uv.workspace]
members = [\"libs/*\", \"single_project\"]
";
    let tree = FsTree::Dir {
        entries: vec![
            file("pyproject.toml", workspace_pyproject),
            dir(
                "libs",
                vec![
                    dir("lib_a", vec![file("pyproject.toml", SETUPTOOLS_PYPROJECT)]),
                    dir("lib_b", vec![file("pyproject.toml", SETUPTOOLS_PYPROJECT)]),
                    dir(
                        "lib_c",
                        maturin_member("lib_c", "lib_c", vec![file("lib.rs", "")]),
                    ),
                ],
            ),
            dir(
                "single_project",
                maturin_member("single_project", "single_project", vec![file("lib.rs", "")]),
            ),
        ],
    };

    let project_infos = get_maturin_project_info(&tree, "").unwrap();
    assert_eq!(project_infos.len(), 2);
}

#[test]
fn test_get_rust_src_files() {
    let src = FsTree::Dir {
        entries: vec![
            file("lib.rs", ""),
            file("main.rs", ""),
            dir(
                "test_libs",
                vec![file("test_lib_code.rs", ""), file("helper.rs", "")],
            ),
            file("notes.txt", ""),
        ],
    };
    let files = get_rust_src_files(&src, "src");
    assert_eq!(files.len(), 4);
    assert_eq!(
        files,
        vec![
            "src/lib.rs".to_string(),
            "src/main.rs".to_string(),
            "src/test_libs/test_lib_code.rs".to_string(),
            "src/test_libs/helper.rs".to_string()
        ]
    );
}

#[test]
fn test_locate_missing_config_is_error() {
    let tree = FsTree::Dir { entries: vec![] };
    let err = get_maturin_project_info(&tree, "root").unwrap_err();
    assert_eq!(
        err,
        StubError::ConfigNotFound {
            dir: "root".to_string()
        }
    );
}

#[test]
fn test_locate_unparsable_config_is_error() {
    let tree = FsTree::Dir {
        entries: vec![file("pyproject.toml", "this ][ is not toml = =")],
    };
    let err = get_maturin_project_info(&tree, "root").unwrap_err();
    assert_eq!(
        err,
        StubError::MalformedConfig {
            dir: "root".to_string()
        }
    );
}

#[test]
fn test_locate_missing_backend_is_error() {
    let tree = FsTree::Dir {
        entries: vec![file("pyproject.toml", "[project]\nname = \"x\"\n")],
    };
    let err = get_maturin_project_info(&tree, "root").unwrap_err();
    assert_eq!(
        err,
        StubError::MalformedConfig {
            dir: "root".to_string()
        }
    );
}

#[test]
fn test_locate_other_backend_resolves_to_nothing() {
    let tree = FsTree::Dir {
        entries: vec![file("pyproject.toml", SETUPTOOLS_PYPROJECT)],
    };
    let infos = get_maturin_project_info(&tree, "root").unwrap();
    assert_eq!(infos.len(), 0);
}

#[test]
fn test_locate_missing_member_is_error() {
    let workspace_pyproject = "
[tool.uv.workspace]
members = [\"absent\"]
";
    let tree = FsTree::Dir {
        entries: vec![file("pyproject.toml", workspace_pyproject)],
    };
    let err = get_maturin_project_info(&tree, "").unwrap_err();
    assert_eq!(
        err,
        StubError::ConfigNotFound {
            dir: "absent".to_string()
        }
    );
}

#[test]
fn test_locate_missing_src_dir_is_io_error() {
    let cargo = "[package]\nname = \"p\"\n\n[lib]\nname = \"p\"\n";
    let tree = FsTree::Dir {
        entries: vec![
            file("pyproject.toml", MATURIN_PYPROJECT),
            file("Cargo.toml", cargo),
        ],
    };
    let err = get_maturin_project_info(&tree, "root").unwrap_err();
    assert_eq!(
        err,
        StubError::IoFailure {
            path: "root/src".to_string()
        }
    );
}

#[test]
fn test_locate_project_fields() {
    let tree = FsTree::Dir {
        entries: maturin_member("demo_pkg", "demo_mod", vec![file("lib.rs", "")]),
    };
    let infos = get_maturin_project_info(&tree, "").unwrap();
    assert_eq!(infos.len(), 1);
    assert_eq!(infos[0].project_name, "demo_pkg");
    assert_eq!(infos[0].module_name, "demo_mod");
    assert_eq!(infos[0].output_dir, "src/demo_mod");
    assert_eq!(infos[0].rust_src_file, vec!["src/lib.rs".to_string()]);
}

#[test]
fn test_wildcard_expansion_skips_files() {
    let pyproject = "
[tool.uv.workspace]
members = [\"libs/*\"]
";
    let cfg = parse_project_config(pyproject).unwrap();
    let members: Vec<String> = cfg
        .workspace_members
        .unwrap()
        .into_iter()
        .map(|m| m.unwrap())
        .collect();
    let tree = FsTree::Dir {
        entries: vec![dir(
            "libs",
            vec![file("README.md", ""), dir("lib_a", vec![])],
        )],
    };
    let resolved = get_workspace_members_path(&tree, &members, "").unwrap();
    assert_eq!(resolved, vec!["libs/lib_a".to_string()]);
}

#[test]
fn test_nested_workspace_one_level() {
    let outer = "
[tool.uv.workspace]
members = [\"inner_ws\"]
";
    let inner = "
[tool.uv.workspace]
members = [\"leaf\"]
";
    let tree = FsTree::Dir {
        entries: vec![
            file("pyproject.toml", outer),
            dir(
                "inner_ws",
                vec![
                    file("pyproject.toml", inner),
                    dir("leaf", maturin_member("leaf", "leaf", vec![file("lib.rs", "")])),
                ],
            ),
        ],
    };
    let infos = get_maturin_project_info(&tree, "").unwrap();
    assert_eq!(infos.len(), 1);
    assert_eq!(infos[0].rust_src_file, vec!["inner_ws/leaf/src/lib.rs".to_string()]);
}

#[test]
fn test_empty_member_pattern_is_malformed() {
    let pyproject = "
[tool.uv.workspace]
members = [\"\"]
";
    let tree = FsTree::Dir {
        entries: vec![file("pyproject.toml", pyproject)],
    };
    let err = get_maturin_project_info(&tree, "root").unwrap_err();
    assert_eq!(
        err,
        StubError::MalformedConfig {
            dir: "root".to_string()
        }
    );
}

#[test]
fn test_non_string_member_is_malformed() {
    let pyproject = "
[tool.uv.workspace]
members = [1, \"ok\"]
";
    let tree = FsTree::Dir {
        entries: vec![file("pyproject.toml", pyproject)],
    };
    let err = get_maturin_project_info(&tree, "root").unwrap_err();
    assert_eq!(
        err,
        StubError::MalformedConfig {
            dir: "root".to_string()
        }
    );
}

#[test]
fn test_workspace_without_members_is_malformed() {
    let pyproject = "
[tool.uv.workspace]
";
    let tree = FsTree::Dir {
        entries: vec![file("pyproject.toml", pyproject)],
    };
    let err = get_maturin_project_info(&tree, "root").unwrap_err();
    assert_eq!(
        err,
        StubError::MalformedConfig {
            dir: "root".to_string()
        }
    );
}
