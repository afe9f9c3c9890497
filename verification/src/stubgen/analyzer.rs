//! Translation of extracted signatures into target-language signatures: each
//! declared-type text is re-parsed as a type by itself and translated; a text
//! that does not re-parse signals that extraction and translation disagree on
//! the grammar, which is reported as an error rather than guessed over.

use crate::stubgen::parser::{RustFunctionData, RustSrcData};
use crate::stubgen::typemap::{map_type, map_type_spec, text_eq, TypeExpr};
use crate::stubgen::StubError;
use vstd::prelude::*;

verus! {

/// One function's signature in the target language: name, (parameter name,
/// target type) pairs, target return type, and documentation text.
#[derive(Debug)]
pub struct PythonFunctionData {
    pub name: String,
    pub args: Vec<(String, String)>,
    pub return_type: String,
    pub doc: String,
}

/// The translated signatures of one source file, in source order.
#[derive(Debug)]
pub struct PythonSrcData {
    pub functions: Vec<PythonFunctionData>,
}

/// What re-parsing a declared-type text as a type by itself yields: the
/// parsed type tree, or nothing when the text is not a valid type.
pub uninterp spec fn parsed_type_of(text: Seq<char>) -> Option<TypeExpr>;

#[verifier::external_type_specification]
#[verifier::external_body]
pub struct ExSynType(syn::Type);

#[verifier::external_type_specification]
#[verifier::external_body]
pub struct ExSynTypePath(syn::TypePath);

/// Relies on syn's type tree: a path type keeps its last segment's name and
/// its angle-bracketed type arguments, each converted in turn.
#[verifier::external_body]
fn path_tree(p: &syn::TypePath) -> (r: TypeExpr) {
    let seg = match p.path.segments.last() {
        Some(s) => s,
        None => return TypeExpr::Other,
    };
    let args: Vec<TypeExpr> = match &seg.arguments {
        syn::PathArguments::AngleBracketed(a) => a.args.iter().filter_map(|g| match g {
            syn::GenericArgument::Type(t) => Some(tree_of_syn_type(t)),
            _ => None,
        }).collect(),
        _ => Vec::new(),
    };
    TypeExpr::Path { name: seg.ident.to_string(), args }
}

/// Relies on syn's type tree: each variant is carried over one arm each —
/// paths, references and tuples structurally, anything else as the opaque
/// placeholder.
#[verifier::external_body]
fn tree_of_syn_type(ty: &syn::Type) -> (r: TypeExpr) {
    match ty {
        syn::Type::Path(p) => path_tree(p),
        syn::Type::Reference(re) => TypeExpr::Ref { inner: Box::new(tree_of_syn_type(&re.elem)) },
        syn::Type::Tuple(t) => TypeExpr::Tuple {
            elems: t.elems.iter().map(|e| tree_of_syn_type(e)).collect(),
        },
        _ => TypeExpr::Other,
    }
}

/// Relies on syn::parse_str::<syn::Type>: parsing is a function of the text
/// alone; the result is the parsed type tree, or `None` when the text is not
/// a valid type.
#[verifier::external_body]
pub fn parse_type_text(text: &str) -> (r: Option<TypeExpr>)
    ensures
        r == parsed_type_of(text@),
{
    match syn::parse_str::<syn::Type>(text) {
        Ok(t) => Some(tree_of_syn_type(&t)),
        Err(_) => None,
    }
}

/// True of the sentinel parameter pair standing for a receiver binding with
/// no declared type.
pub open spec fn sentinel_spec(p: (String, String)) -> bool {
    p.0@ == "self"@ && p.1@ == "self"@
}

/// True when one extracted parameter can be translated: it is the receiver
/// sentinel (passed through untranslated), or its declared-type text
/// re-parses as a type.
pub open spec fn arg_ok_spec(p: (String, String)) -> bool {
    sentinel_spec(p) || parsed_type_of(p.1@) is Some
}

/// The target type text of one translatable parameter.
pub open spec fn arg_type_spec(p: (String, String)) -> Seq<char>
    recommends
        arg_ok_spec(p),
{
    if sentinel_spec(p) {
        p.1@
    } else {
        map_type_spec(parsed_type_of(p.1@)->0)
    }
}

/// True when every parameter of the sequence can be translated.
pub open spec fn args_ok_spec(args: Seq<(String, String)>) -> bool {
    forall|i: int| 0 <= i < args.len() ==> arg_ok_spec(#[trigger] args[i])
}

/// True when a whole extracted signature can be translated: every parameter,
/// and the return-type text.
pub open spec fn fn_ok_spec(f: RustFunctionData) -> bool {
    args_ok_spec(f.args@) && parsed_type_of(f.return_type@) is Some
}

/// The relation between an extracted signature and its translation: name and
/// documentation pass through unchanged, parameters keep their names, arity
/// and order with each declared type translated, and the return type is
/// translated.
pub open spec fn analyzed_fn_matches(f: RustFunctionData, p: PythonFunctionData) -> bool {
    &&& p.name == f.name
    &&& p.doc == f.doc
    &&& p.args@.len() == f.args@.len()
    &&& forall|i: int|
        0 <= i < f.args@.len() ==> (#[trigger] p.args@[i]).0 == f.args@[i].0 && p.args@[i].1@
            == arg_type_spec(f.args@[i])
    &&& p.return_type@ == map_type_spec(parsed_type_of(f.return_type@)->0)
}

/// The translated name of a function: the extracted name unchanged.
pub fn analyze_function_name(f: &RustFunctionData) -> (r: String)
    ensures
        r == f.name,
{
    f.name.clone()
}

/// The translated documentation of a function: the extracted text unchanged.
pub fn analyze_function_doc(f: &RustFunctionData) -> (r: String)
    ensures
        r == f.doc,
{
    f.doc.clone()
}

/// The translated parameter list: each declared type re-parsed and
/// translated, names, arity and order preserved; the receiver sentinel passes
/// through untranslated. Succeeds exactly when every declared type re-parses;
/// a text that does not is returned in the error.
#[verifier::loop_isolation(false)]
pub fn analyze_function_args(f: &RustFunctionData) -> (r: Result<
    Vec<(String, String)>,
    StubError,
>)
    ensures
        r is Ok <==> args_ok_spec(f.args@),
        r matches Ok(v) ==> v@.len() == f.args@.len() && (forall|i: int|
            0 <= i < f.args@.len() ==> (#[trigger] v@[i]).0 == f.args@[i].0 && v@[i].1@
                == arg_type_spec(f.args@[i])),
        r matches Err(e) ==> (e matches StubError::TypeMappingInconsistency { type_text } && exists|
            i: int,
        |
            0 <= i < f.args@.len() && !arg_ok_spec(#[trigger] f.args@[i]) && type_text@
                == f.args@[i].1@),
{
    let mut out: Vec<(String, String)> = Vec::new();
    let mut i: usize = 0;
    while i < f.args.len()
        invariant
            i <= f.args.len(),
            out@.len() == i,
            forall|j: int|
                0 <= j < i ==> arg_ok_spec(#[trigger] f.args@[j]) && out@[j].0 == f.args@[j].0
                    && out@[j].1@ == arg_type_spec(f.args@[j]),
        decreases f.args.len() - i,
    {
        let name = f.args[i].0.clone();
        let ty_text = &f.args[i].1;
        if text_eq(&name, "self") && text_eq(ty_text, "self") {
            out.push((name, ty_text.clone()));
        } else {
            match parse_type_text(ty_text.as_str()) {
                Some(t) => {
                    out.push((name, map_type(&t)));
                },
                None => {
                    return Err(StubError::TypeMappingInconsistency { type_text: ty_text.clone() });
                },
            }
        }
        i = i + 1;
    }
    Ok(out)
}

/// The translated return type: the extracted text re-parsed and translated.
/// Succeeds exactly when the text re-parses; a text that does not is returned
/// in the error.
pub fn analyze_function_return_type(f: &RustFunctionData) -> (r: Result<String, StubError>)
    ensures
        r is Ok <==> parsed_type_of(f.return_type@) is Some,
        r matches Ok(s) ==> s@ == map_type_spec(parsed_type_of(f.return_type@)->0),
        r matches Err(e) ==> (e matches StubError::TypeMappingInconsistency { type_text }
            && type_text@ == f.return_type@),
{
    match parse_type_text(f.return_type.as_str()) {
        Some(t) => Ok(map_type(&t)),
        None => Err(StubError::TypeMappingInconsistency { type_text: f.return_type.clone() }),
    }
}

/// The translation of one extracted signature. Succeeds exactly when every
/// declared type of the signature re-parses; the translation then matches the
/// extraction field for field.
pub fn analyze_function_data(f: &RustFunctionData) -> (r: Result<PythonFunctionData, StubError>)
    ensures
        r is Ok <==> fn_ok_spec(*f),
        r matches Ok(p) ==> analyzed_fn_matches(*f, p),
        r matches Err(e) ==> e matches StubError::TypeMappingInconsistency { .. },
{
    let args = match analyze_function_args(f) {
        Ok(v) => v,
        Err(e) => {
            return Err(e);
        },
    };
    let return_type = match analyze_function_return_type(f) {
        Ok(s) => s,
        Err(e) => {
            return Err(e);
        },
    };
    Ok(
        PythonFunctionData {
            name: analyze_function_name(f),
            args,
            return_type,
            doc: analyze_function_doc(f),
        },
    )
}

/// The translation of every extracted signature of one source file, in
/// order. Succeeds exactly when every signature translates.
#[verifier::loop_isolation(false)]
pub fn analyze_rust_src_data(d: &RustSrcData) -> (r: Result<PythonSrcData, StubError>)
    ensures
        r is Ok <==> (forall|i: int|
            0 <= i < d.functions@.len() ==> fn_ok_spec(#[trigger] d.functions@[i])),
        r matches Ok(s) ==> s.functions@.len() == d.functions@.len() && (forall|i: int|
            0 <= i < d.functions@.len() ==> analyzed_fn_matches(
                #[trigger] d.functions@[i],
                s.functions@[i],
            )),
        r matches Err(e) ==> e matches StubError::TypeMappingInconsistency { .. },
{
    let mut out: Vec<PythonFunctionData> = Vec::new();
    let mut i: usize = 0;
    while i < d.functions.len()
        invariant
            i <= d.functions.len(),
            out@.len() == i,
            forall|j: int|
                0 <= j < i ==> fn_ok_spec(#[trigger] d.functions@[j]) && analyzed_fn_matches(
                    d.functions@[j],
                    out@[j],
                ),
        decreases d.functions.len() - i,
    {
        match analyze_function_data(&d.functions[i]) {
            Ok(p) => {
                out.push(p);
            },
            Err(e) => {
                return Err(e);
            },
        }
        i = i + 1;
    }
    Ok(PythonSrcData { functions: out })
}

} // verus!
