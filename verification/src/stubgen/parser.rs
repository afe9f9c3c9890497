//! Extraction of function signatures from source text: name, parameters,
//! return type, annotations and documentation, in declaration order.

use crate::stubgen::typemap::text_eq;
use quote::ToTokens;
use vstd::prelude::*;
use vstd::string::StringExecFns;

verus! {

/// One annotation attached to a function declaration, reduced to what the
/// extraction rules read.
pub enum FnAttr {
    /// A bare path annotation, recorded by its final path segment name;
    /// `path_is_doc` remembers whether the whole path was exactly `doc`.
    Plain { name: String, path_is_doc: bool },
    /// A name-value annotation whose value is a string literal; every
    /// documentation line takes this form, carrying the line's text.
    ValueStr { text: String },
    /// A name-value annotation with any other value.
    ValueOther,
    /// A call-style annotation `name(...)`.
    Call,
}

/// One function declaration as the syntax tree reports it: its name, its
/// parameters as (binding, declared-type text) pairs — a receiver with no
/// declared type is captured as the sentinel pair `("self", "self")` —, its
/// declared return type if one is written, and its attached annotations in
/// source order.
pub struct FnDecl {
    pub name: String,
    pub args: Vec<(String, String)>,
    pub output: Option<String>,
    pub attrs: Vec<FnAttr>,
}

/// One exported function's raw extracted shape.
#[derive(Debug, Default, PartialEq, Eq)]
pub struct RustFunctionData {
    pub name: String,
    pub args: Vec<(String, String)>,
    pub return_type: String,
    pub attributes: Vec<String>,
    pub doc: String,
}

/// The extracted shapes of every function of one source file, in source order.
pub struct RustSrcData {
    pub functions: Vec<RustFunctionData>,
}

/// What parsing a single function item out of a source text yields: the
/// declaration, or nothing when the text is not a valid function item.
pub uninterp spec fn fn_decl_of(text: Seq<char>) -> Option<FnDecl>;

/// What parsing a whole source file yields: every top-level function
/// declaration in source order, or nothing when the text does not parse.
pub uninterp spec fn source_decls_of(text: Seq<char>) -> Option<Vec<FnDecl>>;

#[verifier::external_type_specification]
#[verifier::external_body]
pub struct ExItemFn(syn::ItemFn);

#[verifier::external_type_specification]
#[verifier::external_body]
pub struct ExAttribute(syn::Attribute);

/// Relies on syn's `Attribute`: the three meta forms are told apart one arm
/// each, keeping the final path segment's name, whether the path is exactly
/// `doc`, and a string literal value where one is written.
#[verifier::external_body]
fn attr_decl_of(attr: &syn::Attribute) -> (r: FnAttr) {
    let name = attr.path().segments.last().map(|s| s.ident.to_string()).unwrap_or_default();
    let path_is_doc = attr.path().is_ident("doc");
    match &attr.meta {
        syn::Meta::Path(_) => FnAttr::Plain { name, path_is_doc },
        syn::Meta::NameValue(nv) => match &nv.value {
            syn::Expr::Lit(syn::ExprLit { lit: syn::Lit::Str(s), .. }) => FnAttr::ValueStr {
                text: s.value(),
            },
            _ => FnAttr::ValueOther,
        },
        syn::Meta::List(_) => FnAttr::Call,
    }
}

/// Relies on syn's `Signature`: each parameter's pattern and type are
/// rendered back to text, one pair per parameter in declared order; a
/// receiver becomes the sentinel pair.
#[verifier::external_body]
fn args_of_item_fn(item: &syn::ItemFn) -> (r: Vec<(String, String)>) {
    item.sig.inputs.iter().map(|a| match a {
        syn::FnArg::Typed(t) => (
            t.pat.to_token_stream().to_string(),
            t.ty.to_token_stream().to_string(),
        ),
        syn::FnArg::Receiver(_) => ("self".to_string(), "self".to_string()),
    }).collect()
}

/// Relies on syn's `ReturnType`: the declared return type rendered back to
/// text, or nothing when no return annotation is written.
#[verifier::external_body]
fn output_of_item_fn(item: &syn::ItemFn) -> (r: Option<String>) {
    match &item.sig.output {
        syn::ReturnType::Default => None,
        syn::ReturnType::Type(_, ty) => Some(ty.to_token_stream().to_string()),
    }
}

/// Relies on syn's `ItemFn`: the name, parameters, return type and
/// annotations are carried over one for one.
#[verifier::external_body]
fn decl_of_item_fn(item: &syn::ItemFn) -> (r: FnDecl) {
    FnDecl {
        name: item.sig.ident.to_string(),
        args: args_of_item_fn(item),
        output: output_of_item_fn(item),
        attrs: item.attrs.iter().map(attr_decl_of).collect(),
    }
}

/// Relies on syn::parse_str::<syn::ItemFn>: parsing is a function of the text
/// alone; the result is the declaration, or `None` when the text is not a
/// valid function item.
#[verifier::external_body]
pub fn parse_item_fn_text(text: &str) -> (r: Option<FnDecl>)
    ensures
        r == fn_decl_of(text@),
{
    match syn::parse_str::<syn::ItemFn>(text) {
        Ok(f) => Some(decl_of_item_fn(&f)),
        Err(_) => None,
    }
}

/// Relies on syn::parse_file: parsing is a function of the text alone; the
/// result keeps every top-level function item in source order, and is `None`
/// when the text is not valid source syntax.
#[verifier::external_body]
pub fn parse_source_text(text: &str) -> (r: Option<Vec<FnDecl>>)
    ensures
        r == source_decls_of(text@),
{
    match syn::parse_file(text) {
        Ok(f) => Some(f.items.iter().filter_map(|i| match i {
            syn::Item::Fn(f) => Some(decl_of_item_fn(f)),
            _ => None,
        }).collect()),
        Err(_) => None,
    }
}

/// What one annotation contributes to the collapsed documentation text: the
/// text of a string-valued name-value annotation, and nothing otherwise.
pub open spec fn doc_contrib_spec(a: FnAttr) -> Seq<char> {
    match a {
        FnAttr::ValueStr { text } => text@,
        _ => Seq::<char>::empty(),
    }
}

/// The collapsed documentation text of a declaration's annotations: every
/// documentation line's text, in order, joined with no separator.
pub open spec fn doc_text_spec(attrs: Seq<FnAttr>) -> Seq<char>
    decreases attrs.len(),
{
    if attrs.len() == 0 {
        Seq::<char>::empty()
    } else {
        doc_contrib_spec(attrs[0]) + doc_text_spec(attrs.drop_first())
    }
}

/// What one annotation contributes to the recorded attribute names: its final
/// path segment name when it is a bare non-documentation path, and nothing
/// otherwise.
pub open spec fn names_contrib_spec(a: FnAttr) -> Seq<String> {
    match a {
        FnAttr::Plain { name, path_is_doc } => if !path_is_doc {
            seq![name]
        } else {
            Seq::<String>::empty()
        },
        _ => Seq::<String>::empty(),
    }
}

/// The recorded attribute names of a declaration's annotations, in order.
pub open spec fn attr_names_spec(attrs: Seq<FnAttr>) -> Seq<String>
    decreases attrs.len(),
{
    if attrs.len() == 0 {
        Seq::<String>::empty()
    } else {
        names_contrib_spec(attrs[0]) + attr_names_spec(attrs.drop_first())
    }
}

/// The rendered return-type text: the declared text, or the empty-tuple text
/// when no return type is written.
pub open spec fn return_text_spec(output: Option<String>) -> Seq<char> {
    match output {
        None => "()"@,
        Some(t) => t@,
    }
}

/// Law: documentation collapse distributes over concatenation of annotation
/// sequences — in particular, two consecutive documentation lines join with
/// no separator, each line's text kept as written.
pub proof fn lemma_doc_append(s1: Seq<FnAttr>, s2: Seq<FnAttr>)
    ensures
        doc_text_spec(s1 + s2) == doc_text_spec(s1) + doc_text_spec(s2),
    decreases s1.len(),
{
    if s1.len() == 0 {
        assert(s1 + s2 =~= s2);
        assert(doc_text_spec(s1 + s2) =~= doc_text_spec(s1) + doc_text_spec(s2));
    } else {
        lemma_doc_append(s1.drop_first(), s2);
        assert((s1 + s2).drop_first() =~= s1.drop_first() + s2);
        assert((s1 + s2)[0] == s1[0]);
        assert(doc_text_spec(s1 + s2) =~= doc_text_spec(s1) + doc_text_spec(s2));
    }
}

/// Appending one annotation extends the collapsed documentation by that
/// annotation's contribution.
proof fn lemma_doc_push(ts: Seq<FnAttr>, a: FnAttr)
    ensures
        doc_text_spec(ts.push(a)) == doc_text_spec(ts) + doc_contrib_spec(a),
{
    reveal_with_fuel(doc_text_spec, 2);
    lemma_doc_append(ts, seq![a]);
    assert(ts.push(a) =~= ts + seq![a]);
    assert(seq![a][0] == a);
    assert(seq![a].drop_first() =~= Seq::<FnAttr>::empty());
    assert(doc_text_spec(seq![a]) =~= doc_contrib_spec(a));
}

/// Appending one annotation extends the recorded names by that annotation's
/// contribution.
proof fn lemma_names_push(ts: Seq<FnAttr>, a: FnAttr)
    ensures
        attr_names_spec(ts.push(a)) == attr_names_spec(ts) + names_contrib_spec(a),
    decreases ts.len(),
{
    reveal_with_fuel(attr_names_spec, 2);
    if ts.len() == 0 {
        assert(ts.push(a) =~= seq![a]);
        assert(seq![a][0] == a);
        assert(seq![a].drop_first() =~= Seq::<FnAttr>::empty());
        assert(attr_names_spec(ts.push(a)) =~= attr_names_spec(ts) + names_contrib_spec(a));
    } else {
        lemma_names_push(ts.drop_first(), a);
        assert(ts.push(a).drop_first() =~= ts.drop_first().push(a));
        assert(ts.push(a)[0] == ts[0]);
        assert(attr_names_spec(ts.push(a)) =~= attr_names_spec(ts) + names_contrib_spec(a));
    }
}

/// The extracted name of a declaration.
pub fn parse_function_name(d: &FnDecl) -> (r: String)
    ensures
        r == d.name,
{
    d.name.clone()
}

/// The extracted parameters of a declaration: the (binding, declared-type
/// text) pairs exactly as declared — arity and order are preserved.
#[verifier::loop_isolation(false)]
pub fn parse_function_args(d: &FnDecl) -> (r: Vec<(String, String)>)
    ensures
        r@ == d.args@,
{
    let mut r: Vec<(String, String)> = Vec::new();
    let mut i: usize = 0;
    while i < d.args.len()
        invariant
            i <= d.args.len(),
            r@ =~= d.args@.subrange(0, i as int),
        decreases d.args.len() - i,
    {
        let pair = (d.args[i].0.clone(), d.args[i].1.clone());
        assert(pair == d.args@[i as int]);
        r.push(pair);
        proof {
            assert(r@ =~= d.args@.subrange(0, i + 1));
        }
        i = i + 1;
    }
    proof {
        assert(d.args@.subrange(0, d.args@.len() as int) =~= d.args@);
    }
    r
}

/// The extracted return-type text of a declaration: the declared text
/// verbatim, or the empty-tuple text when none is declared.
pub fn parse_function_return_type(d: &FnDecl) -> (r: String)
    ensures
        r@ == return_text_spec(d.output),
{
    match &d.output {
        None => "()".to_owned(),
        Some(t) => t.clone(),
    }
}

/// The recorded annotation names of a declaration: every bare
/// non-documentation annotation, by its final path segment, in order.
#[verifier::loop_isolation(false)]
pub fn parse_function_attributes(d: &FnDecl) -> (r: Vec<String>)
    ensures
        r@ == attr_names_spec(d.attrs@),
{
    let mut r: Vec<String> = Vec::new();
    let mut i: usize = 0;
    while i < d.attrs.len()
        invariant
            i <= d.attrs.len(),
            r@ == attr_names_spec(d.attrs@.subrange(0, i as int)),
        decreases d.attrs.len() - i,
    {
        match &d.attrs[i] {
            FnAttr::Plain { name, path_is_doc } => {
                if !*path_is_doc {
                    r.push(name.clone());
                }
            },
            _ => {},
        }
        proof {
            lemma_names_push(d.attrs@.subrange(0, i as int), d.attrs@[i as int]);
            assert(d.attrs@.subrange(0, i + 1) =~= d.attrs@.subrange(0, i as int).push(
                d.attrs@[i as int],
            ));
            assert(r@ =~= attr_names_spec(d.attrs@.subrange(0, i + 1)));
        }
        i = i + 1;
    }
    proof {
        assert(d.attrs@.subrange(0, d.attrs@.len() as int) =~= d.attrs@);
    }
    r
}

/// The collapsed documentation text of a declaration: every documentation
/// line's text concatenated in source order with no separator.
#[verifier::loop_isolation(false)]
pub fn parse_function_doc(d: &FnDecl) -> (r: String)
    ensures
        r@ == doc_text_spec(d.attrs@),
{
    let mut s = String::new();
    let mut i: usize = 0;
    while i < d.attrs.len()
        invariant
            i <= d.attrs.len(),
            s@ == doc_text_spec(d.attrs@.subrange(0, i as int)),
        decreases d.attrs.len() - i,
    {
        match &d.attrs[i] {
            FnAttr::ValueStr { text } => {
                s.append(text.as_str());
            },
            _ => {},
        }
        proof {
            lemma_doc_push(d.attrs@.subrange(0, i as int), d.attrs@[i as int]);
            assert(d.attrs@.subrange(0, i + 1) =~= d.attrs@.subrange(0, i as int).push(
                d.attrs@[i as int],
            ));
            assert(s@ =~= doc_text_spec(d.attrs@.subrange(0, i + 1)));
        }
        i = i + 1;
    }
    proof {
        assert(d.attrs@.subrange(0, d.attrs@.len() as int) =~= d.attrs@);
    }
    s
}

/// The full extracted shape of one declaration: name, parameters in declared
/// order, return-type text, recorded annotation names, and collapsed
/// documentation.
pub fn parse_function_data(d: &FnDecl) -> (r: RustFunctionData)
    ensures
        r.name == d.name,
        r.args@ == d.args@,
        r.return_type@ == return_text_spec(d.output),
        r.attributes@ == attr_names_spec(d.attrs@),
        r.doc@ == doc_text_spec(d.attrs@),
{
    RustFunctionData {
        name: parse_function_name(d),
        args: parse_function_args(d),
        return_type: parse_function_return_type(d),
        attributes: parse_function_attributes(d),
        doc: parse_function_doc(d),
    }
}

/// True of a declaration carrying the export marker: a bare annotation whose
/// final path segment is `pyfunction`.
pub open spec fn is_exported_spec(d: FnDecl) -> bool {
    exists|i: int|
        0 <= i < d.attrs@.len() && ((#[trigger] d.attrs@[i]) matches FnAttr::Plain { name, .. }
            && name@ == "pyfunction"@)
}

/// True iff the declaration carries the export marker.
#[verifier::loop_isolation(false)]
pub fn is_exported(d: &FnDecl) -> (r: bool)
    ensures
        r == is_exported_spec(*d),
{
    let mut i: usize = 0;
    while i < d.attrs.len()
        invariant
            i <= d.attrs.len(),
            forall|j: int|
                0 <= j < i ==> !((#[trigger] d.attrs@[j]) matches FnAttr::Plain { name, .. }
                    && name@ == "pyfunction"@),
        decreases d.attrs.len() - i,
    {
        match &d.attrs[i] {
            FnAttr::Plain { name, path_is_doc: _ } => {
                if text_eq(name, "pyfunction") {
                    return true;
                }
            },
            _ => {},
        }
        i = i + 1;
    }
    false
}


/// Of a sequence of declarations, those that carry the export marker, in
/// order.
pub open spec fn exported_filter(ds: Seq<FnDecl>) -> Seq<FnDecl> {
    ds.filter(|d: FnDecl| is_exported_spec(d))
}

/// The declarations of a file that carry the export marker, in source order.
#[verifier::loop_isolation(false)]
pub fn exported_functions(ds: Vec<FnDecl>) -> (r: Vec<FnDecl>)
    ensures
        r@ == exported_filter(ds@),
{
    let ghost orig = ds@;
    let mut rest = ds;
    let mut r: Vec<FnDecl> = Vec::new();
    loop
        invariant
            orig =~= orig.subrange(0, orig.len() - rest@.len()).add(rest@),
            rest@.len() <= orig.len(),
            r@ == exported_filter(orig.subrange(0, orig.len() - rest@.len())),
        decreases rest@.len(),
    {
        if rest.len() == 0 {
            break ;
        }
        let ghost i = orig.len() - rest@.len();
        let d = rest.remove(0);
        assert(d == orig[i]);
        let keep = is_exported(&d);
        if keep {
            r.push(d);
        }
        proof {
            reveal_with_fuel(Seq::<_>::filter, 2);
            assert(orig.subrange(0, i + 1).drop_last() =~= orig.subrange(0, i));
            assert(orig.subrange(0, i + 1).last() == orig[i]);
            assert(r@ =~= exported_filter(orig.subrange(0, i + 1)));
            assert(orig =~= orig.subrange(0, i + 1).add(rest@));
        }
    }
    proof {
        assert(orig.subrange(0, orig.len() as int) =~= orig);
    }
    r
}

} // verus!
