use pystubgen::stubgen::analyzer::analyze_function_data;
use pystubgen::stubgen::parser::{parse_function_data, parse_item_fn_text, RustFunctionData};
use pystubgen::stubgen::StubError;

const TEST_CODE: &str = r#"
    /// testcode add function
    /// second line
    #[pyfunction]
    #[testattribute]
    fn add(a: i32, b: i32) -> Vec<i32> {
        vec![a + b]
    }
    "#;

#[test]
fn test_analyze_function_name() {
    let function_data = parse_function_data(&parse_item_fn_text(TEST_CODE).unwrap());
    let python_function_data = analyze_function_data(&function_data).unwrap();
    assert_eq!(python_function_data.name, "add");
}

#[test]
fn test_analyze_function_args() {
    let function_data = parse_function_data(&parse_item_fn_text(TEST_CODE).unwrap());
    let python_function_data = analyze_function_data(&function_data).unwrap();
    assert_eq!(
        python_function_data.args,
        vec![
            ("a".to_string(), "int".to_string()),
            ("b".to_string(), "int".to_string())
        ]
    );
}

#[test]
fn test_analyze_function_return_type() {
    let function_data = parse_function_data(&parse_item_fn_text(TEST_CODE).unwrap());
    let python_function_data = analyze_function_data(&function_data).unwrap();
    assert_eq!(python_function_data.return_type, "list[int]");
}

#[test]
fn test_analyze_function_doc() {
    let function_data = parse_function_data(&parse_item_fn_text(TEST_CODE).unwrap());
    let python_function_data = analyze_function_data(&function_data).unwrap();
    assert_eq!(python_function_data.doc, " testcode add function second line");
}

#[test]
fn test_analyze_rejects_unparsable_return_type() {
    let function_data = RustFunctionData {
        name: "f".to_string(),
        args: Vec::new(),
        return_type: "][ not a type".to_string(),
        attributes: Vec::new(),
        doc: String::new(),
    };
    let err = analyze_function_data(&function_data).unwrap_err();
    assert_eq!(
        err,
        StubError::TypeMappingInconsistency {
            type_text: "][ not a type".to_string()
        }
    );
}

#[test]
fn test_analyze_rejects_unparsable_arg_type() {
    let function_data = RustFunctionData {
        name: "f".to_string(),
        args: vec![("x".to_string(), "<<bad>>".to_string())],
        return_type: "i32".to_string(),
        attributes: Vec::new(),
        doc: String::new(),
    };
    let err = analyze_function_data(&function_data).unwrap_err();
    assert_eq!(
        err,
        StubError::TypeMappingInconsistency {
            type_text: "<<bad>>".to_string()
        }
    );
}

#[test]
fn test_analyze_receiver_sentinel_untranslated() {
    let function_data = RustFunctionData {
        name: "method".to_string(),
        args: vec![
            ("self".to_string(), "self".to_string()),
            ("x".to_string(), "i32".to_string()),
        ],
        return_type: "()".to_string(),
        attributes: Vec::new(),
        doc: String::new(),
    };
    let python_function_data = analyze_function_data(&function_data).unwrap();
    assert_eq!(
        python_function_data.args,
        vec![
            ("self".to_string(), "self".to_string()),
            ("x".to_string(), "int".to_string())
        ]
    );
}
