//! Translation of declared source-language types into target-language type
//! expressions, as a pure recursive function over a parsed type tree.

use vstd::prelude::*;
use vstd::string::StringExecFns;

verus! {

/// A parsed type expression of the analyzed source language: a named type
/// (possibly carrying generic type arguments), a reference to another type,
/// a tuple, or an unrecognized construct.
pub enum TypeExpr {
    Path { name: String, args: Vec<TypeExpr> },
    Ref { inner: Box<TypeExpr> },
    Tuple { elems: Vec<TypeExpr> },
    Other,
}

/// The names translated to `int`.
pub open spec fn is_int_name(n: Seq<char>) -> bool {
    ||| n == "i8"@
    ||| n == "i16"@
    ||| n == "i32"@
    ||| n == "i64"@
    ||| n == "isize"@
    ||| n == "u8"@
    ||| n == "u16"@
    ||| n == "u32"@
    ||| n == "u64"@
    ||| n == "usize"@
}

/// The names translated to `float`.
pub open spec fn is_float_name(n: Seq<char>) -> bool {
    n == "f32"@ || n == "f64"@
}

/// The names translated to `str`.
pub open spec fn is_str_name(n: Seq<char>) -> bool {
    n == "String"@ || n == "str"@ || n == "PyString"@
}

/// The names translated to `Any`.
pub open spec fn is_any_name(n: Seq<char>) -> bool {
    n == "PyAny"@ || n == "PyObject"@
}

/// The fixed scalar translation table: the target name for a scalar source
/// name, or `None` when the name has no scalar entry.
pub open spec fn scalar_spec(n: Seq<char>) -> Option<Seq<char>> {
    if is_int_name(n) {
        Some("int"@)
    } else if is_float_name(n) {
        Some("float"@)
    } else if n == "bool"@ {
        Some("bool"@)
    } else if is_str_name(n) {
        Some("str"@)
    } else if is_any_name(n) {
        Some("Any"@)
    } else {
        None
    }
}

/// The names treated as generic container or wrapper types.
pub open spec fn is_container_name(n: Seq<char>) -> bool {
    n == "PyResult"@ || n == "Option"@ || n == "Vec"@ || n == "HashMap"@
}

/// The target type expression for a parsed source type.
pub open spec fn map_type_spec(t: TypeExpr) -> Seq<char>
    decreases t,
{
    match t {
        TypeExpr::Path { name, args } => {
            if scalar_spec(name@) is Some {
                scalar_spec(name@)->0
            } else if name@ == "PyResult"@ {
                if args@.len() >= 1 {
                    map_type_spec(args@[0])
                } else {
                    "Any"@
                }
            } else if name@ == "Option"@ {
                if args@.len() >= 1 {
                    map_type_spec(args@[0]) + " | None"@
                } else {
                    "Any | None"@
                }
            } else if name@ == "Vec"@ {
                if args@.len() >= 1 {
                    "list["@ + map_type_spec(args@[0]) + "]"@
                } else {
                    "list[Any]"@
                }
            } else if name@ == "HashMap"@ {
                let k = if args@.len() >= 1 { map_type_spec(args@[0]) } else { "Any"@ };
                let v = if args@.len() >= 2 { map_type_spec(args@[1]) } else { "Any"@ };
                "dict["@ + k + ", "@ + v + "]"@
            } else {
                name@
            }
        },
        TypeExpr::Ref { inner } => map_type_spec(*inner),
        TypeExpr::Tuple { elems } => "tuple["@ + join_mapped_spec(elems@) + "]"@,
        TypeExpr::Other => "Any"@,
    }
}

/// The translations of a sequence of types, joined with `", "`.
pub open spec fn join_mapped_spec(ts: Seq<TypeExpr>) -> Seq<char>
    decreases ts,
{
    if ts.len() == 0 {
        Seq::<char>::empty()
    } else if ts.len() == 1 {
        map_type_spec(ts[0])
    } else {
        map_type_spec(ts[0]) + ", "@ + join_mapped_spec(ts.subrange(1, ts.len() as int))
    }
}

/// Extending a joined sequence by one more type appends a separator (when the
/// sequence was non-empty) and the new type's translation.
proof fn lemma_join_push(ts: Seq<TypeExpr>, e: TypeExpr)
    ensures
        join_mapped_spec(ts.push(e)) == if ts.len() == 0 {
            map_type_spec(e)
        } else {
            join_mapped_spec(ts) + ", "@ + map_type_spec(e)
        },
    decreases ts,
{
    if ts.len() == 0 {
        assert(ts.push(e) =~= seq![e]);
        assert(join_mapped_spec(seq![e]) == map_type_spec(e));
    } else if ts.len() == 1 {
        assert(ts.push(e) =~= seq![ts[0], e]);
        assert(ts.push(e).subrange(1, 2) =~= seq![e]);
        assert(ts.push(e)[0] == ts[0]);
        assert(join_mapped_spec(ts.push(e).subrange(1, 2)) == map_type_spec(e));
        assert(join_mapped_spec(ts.push(e)) =~= join_mapped_spec(ts) + ", "@ + map_type_spec(e));
    } else {
        lemma_join_push(ts.subrange(1, ts.len() as int), e);
        assert(ts.push(e).subrange(1, ts.len() as int + 1) =~= ts.subrange(1, ts.len() as int).push(
            e,
        ));
        assert(ts.push(e)[0] == ts[0]);
        assert(join_mapped_spec(ts.push(e)) =~= join_mapped_spec(ts) + ", "@ + map_type_spec(e));
    }
}

/// None of the container template names has an entry in the scalar table,
/// and the four container names are pairwise distinct.
proof fn lemma_container_not_scalar()
    ensures
        scalar_spec("PyResult"@) is None,
        scalar_spec("Option"@) is None,
        scalar_spec("Vec"@) is None,
        scalar_spec("HashMap"@) is None,
        "PyResult"@ != "Option"@,
        "PyResult"@ != "Vec"@,
        "PyResult"@ != "HashMap"@,
        "Option"@ != "Vec"@,
        "Option"@ != "HashMap"@,
        "Vec"@ != "HashMap"@,
{
    reveal_strlit("i8");
    reveal_strlit("i16");
    reveal_strlit("i32");
    reveal_strlit("i64");
    reveal_strlit("isize");
    reveal_strlit("u8");
    reveal_strlit("u16");
    reveal_strlit("u32");
    reveal_strlit("u64");
    reveal_strlit("usize");
    reveal_strlit("f32");
    reveal_strlit("f64");
    reveal_strlit("bool");
    reveal_strlit("String");
    reveal_strlit("str");
    reveal_strlit("PyString");
    reveal_strlit("PyAny");
    reveal_strlit("PyObject");
    reveal_strlit("PyResult");
    reveal_strlit("Option");
    reveal_strlit("Vec");
    reveal_strlit("HashMap");
    assert("i8"@.len() == 2);
    assert("i16"@.len() == 3);
    assert("i32"@.len() == 3);
    assert("i64"@.len() == 3);
    assert("isize"@.len() == 5);
    assert("u8"@.len() == 2);
    assert("u16"@.len() == 3);
    assert("u32"@.len() == 3);
    assert("u64"@.len() == 3);
    assert("usize"@.len() == 5);
    assert("f32"@.len() == 3);
    assert("f64"@.len() == 3);
    assert("bool"@.len() == 4);
    assert("String"@.len() == 6);
    assert("str"@.len() == 3);
    assert("PyString"@.len() == 8);
    assert("PyAny"@.len() == 5);
    assert("PyObject"@.len() == 8);
    assert("PyResult"@.len() == 8);
    assert("Option"@.len() == 6);
    assert("Vec"@.len() == 3);
    assert("HashMap"@.len() == 7);
    assert("PyResult"@[2] == 'R');
    assert("PyString"@[2] == 'S');
    assert("PyObject"@[2] == 'O');
    assert("Option"@[0] == 'O');
    assert("String"@[0] == 'S');
    assert("Vec"@[0] == 'V');
    assert("i16"@[0] == 'i');
    assert("i32"@[0] == 'i');
    assert("i64"@[0] == 'i');
    assert("u16"@[0] == 'u');
    assert("u32"@[0] == 'u');
    assert("u64"@[0] == 'u');
    assert("f32"@[0] == 'f');
    assert("f64"@[0] == 'f');
    assert("str"@[0] == 's');
}

/// Law: translating a bare named type applies the fixed scalar table whenever
/// the table has an entry for the name.
pub proof fn lemma_scalar_table_applies(name: String, args: Vec<TypeExpr>)
    requires
        scalar_spec(name@) is Some,
    ensures
        map_type_spec(TypeExpr::Path { name, args }) == scalar_spec(name@)->0,
{
}

/// Law: a name with no scalar entry and no container template passes through
/// unchanged. In particular, since the result is the name itself, translating
/// an already-translated opaque name again returns it unchanged.
pub proof fn lemma_passthrough_unchanged(name: String, args: Vec<TypeExpr>)
    requires
        scalar_spec(name@) is None,
        !is_container_name(name@),
    ensures
        map_type_spec(TypeExpr::Path { name, args }) == name@,
{
}

/// Law: a single-argument container translates by its template applied to the
/// translation of its argument — `list[..]` for the sequence wrapper,
/// `.. | None` for the optional wrapper — and the result wrapper is erased;
/// the argument itself translates recursively, so nesting is handled at every
/// depth.
pub proof fn lemma_container_template(name: String, args: Vec<TypeExpr>)
    requires
        args@.len() == 1,
    ensures
        name@ == "Vec"@ ==> map_type_spec(TypeExpr::Path { name, args }) == "list["@
            + map_type_spec(args@[0]) + "]"@,
        name@ == "Option"@ ==> map_type_spec(TypeExpr::Path { name, args }) == map_type_spec(
            args@[0],
        ) + " | None"@,
        name@ == "PyResult"@ ==> map_type_spec(TypeExpr::Path { name, args }) == map_type_spec(
            args@[0],
        ),
{
    lemma_container_not_scalar();
}

/// Law: the two-argument mapping wrapper translates to `dict[K, V]` with each
/// side translated recursively.
pub proof fn lemma_mapping_template(name: String, args: Vec<TypeExpr>)
    requires
        args@.len() == 2,
        name@ == "HashMap"@,
    ensures
        map_type_spec(TypeExpr::Path { name, args }) == "dict["@ + map_type_spec(args@[0]) + ", "@
            + map_type_spec(args@[1]) + "]"@,
{
    lemma_container_not_scalar();
}

/// True iff the string equals the given literal.
pub fn text_eq(a: &String, lit: &str) -> (r: bool)
    ensures
        r == (a@ == lit@),
{
    let owned: String = lit.to_owned();
    *a == owned
}

/// The scalar table as executable code: returns the fixed target name for a
/// scalar source name, and `None` for every other name.
fn scalar_target(name: &String) -> (r: Option<String>)
    ensures
        match r {
            Some(s) => scalar_spec(name@) == Some(s@),
            None => scalar_spec(name@) is None,
        },
{
    if text_eq(name, "i8") || text_eq(name, "i16") || text_eq(name, "i32")
        || text_eq(name, "i64") || text_eq(name, "isize") || text_eq(name, "u8")
        || text_eq(name, "u16") || text_eq(name, "u32") || text_eq(name, "u64")
        || text_eq(name, "usize") {
        Some("int".to_owned())
    } else if text_eq(name, "f32") || text_eq(name, "f64") {
        Some("float".to_owned())
    } else if text_eq(name, "bool") {
        Some("bool".to_owned())
    } else if text_eq(name, "String") || text_eq(name, "str") || text_eq(name, "PyString") {
        Some("str".to_owned())
    } else if text_eq(name, "PyAny") || text_eq(name, "PyObject") {
        Some("Any".to_owned())
    } else {
        None
    }
}

/// Translate one parsed source type into its target type expression:
/// scalars by the fixed table, containers recursively by their templates,
/// references transparently, tuples element-wise, and unrecognized names
/// unchanged.
#[verifier::loop_isolation(false)]
pub fn map_type(t: &TypeExpr) -> (r: String)
    ensures
        r@ == map_type_spec(*t),
    decreases *t,
{
    match t {
        TypeExpr::Path { name, args } => {
            let scalar = scalar_target(name);
            match scalar {
                Some(s) => s,
                None => {
                    if text_eq(name, "PyResult") {
                        if args.len() >= 1 {
                            proof {
                                assert(decreases_to!(*t => args@[0]));
                            }
                            map_type(&args[0])
                        } else {
                            "Any".to_owned()
                        }
                    } else if text_eq(name, "Option") {
                        if args.len() >= 1 {
                            proof {
                                assert(decreases_to!(*t => args@[0]));
                            }
                            let mut s = map_type(&args[0]);
                            s.append(" | None");
                            s
                        } else {
                            "Any | None".to_owned()
                        }
                    } else if text_eq(name, "Vec") {
                        if args.len() >= 1 {
                            proof {
                                assert(decreases_to!(*t => args@[0]));
                            }
                            let mut s: String = "list[".to_owned();
                            let inner = map_type(&args[0]);
                            s.append(inner.as_str());
                            s.append("]");
                            s
                        } else {
                            "list[Any]".to_owned()
                        }
                    } else if text_eq(name, "HashMap") {
                        let mut s: String = "dict[".to_owned();
                        if args.len() >= 1 {
                            proof {
                                assert(decreases_to!(*t => args@[0]));
                            }
                            let k = map_type(&args[0]);
                            s.append(k.as_str());
                        } else {
                            s.append("Any");
                        }
                        s.append(", ");
                        if args.len() >= 2 {
                            proof {
                                assert(decreases_to!(*t => args@[1]));
                            }
                            let v = map_type(&args[1]);
                            s.append(v.as_str());
                        } else {
                            s.append("Any");
                        }
                        s.append("]");
                        s
                    } else {
                        name.clone()
                    }
                },
            }
        },
        TypeExpr::Ref { inner } => {
            proof {
                assert(decreases_to!(*t => *inner));
            }
            map_type(inner)
        },
        TypeExpr::Tuple { elems } => {
            let mut s: String = "tuple[".to_owned();
            let mut i: usize = 0;
            while i < elems.len()
                invariant
                    i <= elems.len(),
                    s@ == "tuple["@ + join_mapped_spec(elems@.subrange(0, i as int)),
                decreases elems.len() - i,
            {
                if i > 0 {
                    s.append(", ");
                }
                proof {
                    assert(decreases_to!(*t => elems@[i as int]));
                }
                let piece = map_type(&elems[i]);
                s.append(piece.as_str());
                proof {
                    lemma_join_push(elems@.subrange(0, i as int), elems@[i as int]);
                    assert(elems@.subrange(0, i + 1) =~= elems@.subrange(0, i as int).push(
                        elems@[i as int],
                    ));
                }
                i = i + 1;
            }
            proof {
                assert(elems@.subrange(0, elems@.len() as int) =~= elems@);
            }
            s.append("]");
            s
        },
        TypeExpr::Other => "Any".to_owned(),
    }
}

} // verus!
