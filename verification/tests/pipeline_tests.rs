use pystubgen::stubgen::analyzer::{PythonFunctionData, PythonSrcData};
use pystubgen::stubgen::generate_stubs;
use pystubgen::stubgen::generator::{generate_function_stub, generate_stub};
use pystubgen::stubgen::locator::{FsEntry, FsTree};
use pystubgen::stubgen::StubError;

fn file(name: &str, content: &str) -> FsEntry {
    FsEntry {
        name: name.to_string(),
        node: FsTree::File {
            content: content.to_string(),
        },
    }
}

fn dir(name: &str, entries: Vec<FsEntry>) -> FsEntry {
    FsEntry {
        name: name.to_string(),
        node: FsTree::Dir { entries },
    }
}

const MATURIN_PYPROJECT: &str = "
[build-system]
build-backend = \"maturin\"
";

fn demo_project(src_entries: Vec<FsEntry>) -> FsTree {
    FsTree::Dir {
        entries: vec![
            file("pyproject.toml", MATURIN_PYPROJECT),
            file(
                "Cargo.toml",
                "[package]\nname = \"demo\"\n\n[lib]\nname = \"demo\"\n",
            ),
            dir("src", src_entries),
        ],
    }
}

#[test]
fn test_generate_function_stub_renders_exactly() {
    let f = PythonFunctionData {
        name: "add".to_string(),
        args: vec![
            ("a".to_string(), "int".to_string()),
            ("b".to_string(), "int".to_string()),
        ],
        return_type: "list[int]".to_string(),
        doc: "adds two numbers".to_string(),
    };
    assert_eq!(
        generate_function_stub(&f),
        "# adds two numbers\ndef add(a: int, b: int) -> list[int]:\n    ...\n\n"
    );
}

#[test]
fn test_generate_function_stub_no_doc_no_args() {
    let f = PythonFunctionData {
        name: "ping".to_string(),
        args: vec![],
        return_type: "bool".to_string(),
        doc: String::new(),
    };
    assert_eq!(generate_function_stub(&f), "def ping() -> bool:\n    ...\n\n");
}

#[test]
fn test_generate_stub_skips_module_named_function() {
    let module_init = PythonFunctionData {
        name: "demo".to_string(),
        args: vec![],
        return_type: "Any".to_string(),
        doc: String::new(),
    };
    let add = PythonFunctionData {
        name: "add".to_string(),
        args: vec![("a".to_string(), "int".to_string())],
        return_type: "int".to_string(),
        doc: String::new(),
    };
    let data = PythonSrcData {
        functions: vec![module_init, add],
    };
    assert_eq!(
        generate_stub(&data, "demo"),
        "def add(a: int) -> int:\n    ...\n\n"
    );
}

#[test]
fn test_pipeline_end_to_end() {
    let source = "///adds two numbers\n#[pyfunction]\nfn add(a: i32, b: i32) -> Vec<i32> { vec![a + b] }\n";
    let tree = demo_project(vec![file("lib.rs", source)]);
    let outputs = generate_stubs(&tree).unwrap();
    assert_eq!(outputs.len(), 1);
    assert_eq!(outputs[0].path, "src/demo/demo.pyi");
    assert_eq!(
        outputs[0].content,
        "# adds two numbers\ndef add(a: int, b: int) -> list[int]:\n    ...\n\n"
    );
}

#[test]
fn test_pipeline_regeneration_is_byte_identical() {
    let source = "#[pyfunction]\nfn add(a: i32, b: i32) -> i32 { a + b }\n";
    let tree = demo_project(vec![file("lib.rs", source)]);
    let first = generate_stubs(&tree).unwrap();
    let second = generate_stubs(&tree).unwrap();
    assert_eq!(first, second);
}

#[test]
fn test_pipeline_skips_unexported_functions() {
    let source = "
#[pyfunction]
fn exported(x: i32) -> i32 { x }

fn private_helper(y: i32) -> i32 { y }
";
    let tree = demo_project(vec![file("lib.rs", source)]);
    let outputs = generate_stubs(&tree).unwrap();
    assert_eq!(outputs[0].content, "def exported(x: int) -> int:\n    ...\n\n");
}

#[test]
fn test_pipeline_module_named_function_never_rendered() {
    let source = "
#[pyfunction]
fn demo() -> i32 { 0 }

#[pyfunction]
fn other() -> i32 { 1 }
";
    let tree = demo_project(vec![file("lib.rs", source)]);
    let outputs = generate_stubs(&tree).unwrap();
    assert_eq!(outputs[0].content, "def other() -> int:\n    ...\n\n");
}

#[test]
fn test_pipeline_concatenates_files_in_order() {
    let a = "#[pyfunction]\nfn first() -> bool { true }\n";
    let b = "#[pyfunction]\nfn second() -> bool { false }\n";
    let tree = demo_project(vec![file("a.rs", a), file("b.rs", b)]);
    let outputs = generate_stubs(&tree).unwrap();
    assert_eq!(
        outputs[0].content,
        "def first() -> bool:\n    ...\n\ndef second() -> bool:\n    ...\n\n"
    );
}

#[test]
fn test_pipeline_source_parse_failure() {
    let tree = demo_project(vec![file("lib.rs", "fn broken( {")]);
    let err = generate_stubs(&tree).unwrap_err();
    assert_eq!(
        err,
        StubError::SourceParseFailure {
            file: "src/lib.rs".to_string()
        }
    );
}

#[test]
fn test_pipeline_workspace_produces_one_file_per_member() {
    let member = |pkg: &str| {
        dir(
            pkg,
            vec![
                file("pyproject.toml", MATURIN_PYPROJECT),
                file(
                    "Cargo.toml",
                    &format!("[package]\nname = \"{}\"\n\n[lib]\nname = \"{}\"\n", pkg, pkg),
                ),
                dir(
                    "src",
                    vec![file(
                        "lib.rs",
                        "#[pyfunction]\nfn go() -> u8 { 1 }\n",
                    )],
                ),
            ],
        )
    };
    let tree = FsTree::Dir {
        entries: vec![
            file(
                "pyproject.toml",
                "[tool.uv.workspace]\nmembers = [\"alpha\", \"beta\"]\n",
            ),
            member("alpha"),
            member("beta"),
        ],
    };
    let outputs = generate_stubs(&tree).unwrap();
    assert_eq!(outputs.len(), 2);
    assert_eq!(outputs[0].path, "alpha/src/alpha/alpha.pyi");
    assert_eq!(outputs[1].path, "beta/src/beta/beta.pyi");
    assert_eq!(outputs[0].content, "def go() -> int:\n    ...\n\n");
}
