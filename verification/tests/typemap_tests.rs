use pystubgen::stubgen::analyzer::parse_type_text;
use pystubgen::stubgen::typemap::map_type;

#[test]
fn test_map_type() {
    let ty = parse_type_text("i32").unwrap();
    let result = map_type(&ty);
    assert_eq!(result, "int");
}

#[test]
fn test_map_type_with_generic() {
    let ty = parse_type_text("Vec<i32>").unwrap();
    let result = map_type(&ty);
    assert_eq!(result, "list[int]");
}

#[test]
fn test_map_type_with_option() {
    let ty = parse_type_text("Option<i32>").unwrap();
    let result = map_type(&ty);
    assert_eq!(result, "int | None");
}

#[test]
fn test_map_type_with_tuple() {
    let ty = parse_type_text("(i32, i32)").unwrap();
    let result = map_type(&ty);
    assert_eq!(result, "tuple[int, int]");
}

#[test]
fn test_map_type_scalar_table() {
    let cases = vec![
        ("i8", "int"),
        ("i16", "int"),
        ("i32", "int"),
        ("i64", "int"),
        ("isize", "int"),
        ("u8", "int"),
        ("u16", "int"),
        ("u32", "int"),
        ("u64", "int"),
        ("usize", "int"),
        ("f32", "float"),
        ("f64", "float"),
        ("bool", "bool"),
        ("String", "str"),
        ("str", "str"),
        ("PyString", "str"),
        ("PyAny", "Any"),
        ("PyObject", "Any"),
    ];
    for (src, expected) in cases {
        let ty = parse_type_text(src).unwrap();
        assert_eq!(map_type(&ty), expected);
    }
}

#[test]
fn test_map_type_passthrough_idempotent() {
    let ty = parse_type_text("MyClass").unwrap();
    let once = map_type(&ty);
    assert_eq!(once, "MyClass");
    let again = parse_type_text(&once).unwrap();
    assert_eq!(map_type(&again), "MyClass");
}

#[test]
fn test_map_type_nested_containers() {
    let ty = parse_type_text("Option<Vec<i32>>").unwrap();
    assert_eq!(map_type(&ty), "list[int] | None");
}

#[test]
fn test_map_type_hashmap() {
    let ty = parse_type_text("HashMap<String, i32>").unwrap();
    assert_eq!(map_type(&ty), "dict[str, int]");
}

#[test]
fn test_map_type_pyresult_erased() {
    let ty = parse_type_text("PyResult<String>").unwrap();
    assert_eq!(map_type(&ty), "str");
}

#[test]
fn test_map_type_reference_erased() {
    let ty = parse_type_text("&str").unwrap();
    assert_eq!(map_type(&ty), "str");
}

#[test]
fn test_map_type_bare_wrappers_default() {
    let ty = parse_type_text("Option").unwrap();
    assert_eq!(map_type(&ty), "Any | None");
    let ty = parse_type_text("Vec").unwrap();
    assert_eq!(map_type(&ty), "list[Any]");
}

#[test]
fn test_map_type_qualified_path_uses_last_segment() {
    let ty = parse_type_text("std::vec::Vec<u8>").unwrap();
    assert_eq!(map_type(&ty), "list[int]");
}

#[test]
fn test_map_type_unit_tuple() {
    let ty = parse_type_text("()").unwrap();
    assert_eq!(map_type(&ty), "tuple[]");
}
