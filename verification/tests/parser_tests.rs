use pystubgen::stubgen::parser::{parse_function_data, parse_item_fn_text, parse_source_text};

const TEST_CODE: &str = "
    /// testcode add function
    /// second line
    #[pyfunction]
    #[testattribute]
    fn add(a: i32, b: i32) -> i32 {
        a + b
    }
    ";

#[test]
fn test_parse_function_return_type() {
    let item = parse_item_fn_text(TEST_CODE).unwrap();
    let function_data = parse_function_data(&item);

    assert_eq!(function_data.return_type, "i32");
}

#[test]
fn test_parse_function_name() {
    let item = parse_item_fn_text(TEST_CODE).unwrap();
    let function_data = parse_function_data(&item);

    assert_eq!(function_data.name, "add");
}

#[test]
fn test_parse_function_args() {
    let item = parse_item_fn_text(TEST_CODE).unwrap();
    let function_data = parse_function_data(&item);

    assert_eq!(
        function_data.args,
        vec![
            ("a".to_string(), "i32".to_string()),
            ("b".to_string(), "i32".to_string())
        ]
    );
}

#[test]
fn test_parse_function_attributes() {
    let item = parse_item_fn_text(TEST_CODE).unwrap();
    let function_data = parse_function_data(&item);

    assert_eq!(
        function_data.attributes,
        vec!["pyfunction".to_string(), "testattribute".to_string()]
    );
}

#[test]
fn test_parse_function_comments() {
    let item = parse_item_fn_text(TEST_CODE).unwrap();
    let function_data = parse_function_data(&item);

    assert_eq!(function_data.doc, " testcode add function second line");
}

#[test]
fn test_parse_function_no_return_type() {
    let item = parse_item_fn_text("fn nothing(x: u8) { }").unwrap();
    let function_data = parse_function_data(&item);
    assert_eq!(function_data.return_type, "()");
}

#[test]
fn test_parse_function_no_args() {
    let item = parse_item_fn_text("fn zero() -> i64 { 0 }").unwrap();
    let function_data = parse_function_data(&item);
    assert_eq!(function_data.args, Vec::<(String, String)>::new());
}

#[test]
fn test_parse_rejects_invalid_item() {
    assert!(parse_item_fn_text("struct NotAFunction;").is_none());
    assert!(parse_item_fn_text("fn broken(").is_none());
}

#[test]
fn test_parse_source_text_orders_functions() {
    let src = "
    fn first() {}
    struct Ignored;
    fn second(x: i32) -> i32 { x }
    ";
    let decls = parse_source_text(src).unwrap();
    let names: Vec<String> = decls
        .iter()
        .map(|d| parse_function_data(d).name)
        .collect();
    assert_eq!(names, vec!["first".to_string(), "second".to_string()]);
}

#[test]
fn test_parse_source_text_rejects_invalid() {
    assert!(parse_source_text("fn broken( {").is_none());
}

#[test]
fn test_parse_function_receiver_sentinel() {
    let item = parse_item_fn_text("fn method(self, x: i32) -> i32 { x }").unwrap();
    let function_data = parse_function_data(&item);
    assert_eq!(
        function_data.args,
        vec![
            ("self".to_string(), "self".to_string()),
            ("x".to_string(), "i32".to_string())
        ]
    );
}
