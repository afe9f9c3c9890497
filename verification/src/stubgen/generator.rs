//! Rendering of translated signatures into the text of the output interface
//! file: one declaration stub per signature, a signature colliding with the
//! module's own initializer name omitted.

use crate::stubgen::analyzer::{PythonFunctionData, PythonSrcData};
use vstd::prelude::*;
use vstd::string::StringExecFns;

verus! {

/// The rendered parameter list: `name: type` pairs joined with `", "`.
pub open spec fn rendered_args_spec(args: Seq<(Seq<char>, Seq<char>)>) -> Seq<char>
    decreases args.len(),
{
    if args.len() == 0 {
        Seq::<char>::empty()
    } else if args.len() == 1 {
        args[0].0 + ": "@ + args[0].1
    } else {
        args[0].0 + ": "@ + args[0].1 + ", "@ + rendered_args_spec(
            args.subrange(1, args.len() as int),
        )
    }
}

/// The rendered stub of one signature, from its parts: an optional comment
/// line holding the documentation, the declaration line, the indented
/// placeholder body, and a trailing blank line.
pub open spec fn rendered_fn_core(
    name: Seq<char>,
    args: Seq<(Seq<char>, Seq<char>)>,
    return_type: Seq<char>,
    doc: Seq<char>,
) -> Seq<char> {
    (if doc.len() > 0 {
        "# "@ + doc + "\n"@
    } else {
        Seq::<char>::empty()
    }) + "def "@ + name + "("@ + rendered_args_spec(args) + ") -> "@ + return_type + ":\n"@
        + "    ...\n"@ + "\n"@
}

/// The rendered stub of one signature.
pub open spec fn rendered_fn_spec(f: PythonFunctionData) -> Seq<char> {
    rendered_fn_core(f.name@, f.args.deep_view(), f.return_type@, f.doc@)
}

/// What one signature contributes to the output file: nothing when its name
/// equals the module name, its rendered stub otherwise.
pub open spec fn stub_contrib_spec(f: PythonFunctionData, module_name: Seq<char>) -> Seq<char> {
    if f.name@ == module_name {
        Seq::<char>::empty()
    } else {
        rendered_fn_spec(f)
    }
}

/// The full rendered output for a sequence of signatures, in order.
pub open spec fn rendered_stub_spec(fns: Seq<PythonFunctionData>, module_name: Seq<char>) -> Seq<
    char,
>
    decreases fns.len(),
{
    if fns.len() == 0 {
        Seq::<char>::empty()
    } else {
        stub_contrib_spec(fns[0], module_name) + rendered_stub_spec(
            fns.drop_first(),
            module_name,
        )
    }
}

/// Law: rendering distributes over concatenation of signature sequences; in
/// particular a signature whose name equals the module name contributes
/// nothing to the rendered output, wherever it stands and however many other
/// signatures are present.
pub proof fn lemma_rendered_stub_append(
    s1: Seq<PythonFunctionData>,
    s2: Seq<PythonFunctionData>,
    module_name: Seq<char>,
)
    ensures
        rendered_stub_spec(s1 + s2, module_name) == rendered_stub_spec(s1, module_name)
            + rendered_stub_spec(s2, module_name),
    decreases s1.len(),
{
    if s1.len() == 0 {
        assert(s1 + s2 =~= s2);
        assert(rendered_stub_spec(s1 + s2, module_name) =~= rendered_stub_spec(s1, module_name)
            + rendered_stub_spec(s2, module_name));
    } else {
        lemma_rendered_stub_append(s1.drop_first(), s2, module_name);
        assert((s1 + s2).drop_first() =~= s1.drop_first() + s2);
        assert((s1 + s2)[0] == s1[0]);
        assert(rendered_stub_spec(s1 + s2, module_name) =~= rendered_stub_spec(s1, module_name)
            + rendered_stub_spec(s2, module_name));
    }
}

/// Appending one signature extends the rendered output by that signature's
/// contribution — the empty contribution when its name equals the module
/// name.
proof fn lemma_rendered_stub_push(
    ts: Seq<PythonFunctionData>,
    f: PythonFunctionData,
    module_name: Seq<char>,
)
    ensures
        rendered_stub_spec(ts.push(f), module_name) == rendered_stub_spec(ts, module_name)
            + stub_contrib_spec(f, module_name),
{
    reveal_with_fuel(rendered_stub_spec, 2);
    lemma_rendered_stub_append(ts, seq![f], module_name);
    assert(ts.push(f) =~= ts + seq![f]);
    assert(seq![f][0] == f);
    assert(seq![f].drop_first() =~= Seq::<PythonFunctionData>::empty());
    assert(rendered_stub_spec(seq![f], module_name) =~= stub_contrib_spec(f, module_name));
}

/// Extending a joined parameter list by one more pair appends a separator
/// (when the list was non-empty) and the pair's rendering.
proof fn lemma_args_push(args: Seq<(Seq<char>, Seq<char>)>, p: (Seq<char>, Seq<char>))
    ensures
        rendered_args_spec(args.push(p)) == if args.len() == 0 {
            p.0 + ": "@ + p.1
        } else {
            rendered_args_spec(args) + ", "@ + p.0 + ": "@ + p.1
        },
    decreases args.len(),
{
    if args.len() == 0 {
        assert(args.push(p) =~= seq![p]);
        assert(seq![p][0] == p);
        assert(rendered_args_spec(args.push(p)) =~= p.0 + ": "@ + p.1);
    } else if args.len() == 1 {
        assert(args.push(p) =~= seq![args[0], p]);
        assert(args.push(p).subrange(1, 2) =~= seq![p]);
        assert(args.push(p)[0] == args[0]);
        assert(rendered_args_spec(args.push(p).subrange(1, 2)) == p.0 + ": "@ + p.1);
        assert(rendered_args_spec(args.push(p)) =~= rendered_args_spec(args) + ", "@ + p.0 + ": "@
            + p.1);
    } else {
        lemma_args_push(args.subrange(1, args.len() as int), p);
        assert(args.push(p).subrange(1, args.len() as int + 1) =~= args.subrange(
            1,
            args.len() as int,
        ).push(p));
        assert(args.push(p)[0] == args[0]);
        assert(rendered_args_spec(args.push(p)) =~= rendered_args_spec(args) + ", "@ + p.0 + ": "@
            + p.1);
    }
}

/// Render the stub of one signature: the optional documentation comment line,
/// the declaration line, the indented placeholder body, and a trailing blank
/// line.
#[verifier::loop_isolation(false)]
pub fn generate_function_stub(f: &PythonFunctionData) -> (r: String)
    ensures
        r@ == rendered_fn_spec(*f),
{
    let mut s = String::new();
    if !f.doc.as_str().is_empty() {
        s.append("# ");
        s.append(f.doc.as_str());
        s.append("\n");
    }
    s.append("def ");
    s.append(f.name.as_str());
    s.append("(");
    let mut i: usize = 0;
    while i < f.args.len()
        invariant
            i <= f.args.len(),
            s@ == (if f.doc@.len() > 0 {
                "# "@ + f.doc@ + "\n"@
            } else {
                Seq::<char>::empty()
            }) + "def "@ + f.name@ + "("@ + rendered_args_spec(
                f.args.deep_view().subrange(0, i as int),
            ),
        decreases f.args.len() - i,
    {
        if i > 0 {
            s.append(", ");
        }
        s.append(f.args[i].0.as_str());
        s.append(": ");
        s.append(f.args[i].1.as_str());
        proof {
            lemma_args_push(
                f.args.deep_view().subrange(0, i as int),
                (f.args@[i as int].0@, f.args@[i as int].1@),
            );
            assert(f.args.deep_view()[i as int] == (f.args@[i as int].0@, f.args@[i as int].1@));
            assert(f.args.deep_view().subrange(0, i + 1) =~~= f.args.deep_view().subrange(
                0,
                i as int,
            ).push((f.args@[i as int].0@, f.args@[i as int].1@)));
            assert(s@ =~= (if f.doc@.len() > 0 {
                "# "@ + f.doc@ + "\n"@
            } else {
                Seq::<char>::empty()
            }) + "def "@ + f.name@ + "("@ + rendered_args_spec(
                f.args.deep_view().subrange(0, i + 1),
            ));
        }
        i = i + 1;
    }
    proof {
        assert(f.args.deep_view().subrange(0, f.args.deep_view().len() as int) =~~= f.args.deep_view());
    }
    s.append(") -> ");
    s.append(f.return_type.as_str());
    s.append(":\n");
    s.append("    ...\n");
    s.append("\n");
    proof {
        assert(s@ =~= rendered_fn_spec(*f));
    }
    s
}

/// Render one project's signatures into the output file's text, in order,
/// omitting every signature whose name equals the module name.
#[verifier::loop_isolation(false)]
pub fn generate_stub(data: &PythonSrcData, module_name: &str) -> (r: String)
    ensures
        r@ == rendered_stub_spec(data.functions@, module_name@),
{
    let mut s = String::new();
    let mut i: usize = 0;
    while i < data.functions.len()
        invariant
            i <= data.functions.len(),
            s@ == rendered_stub_spec(data.functions@.subrange(0, i as int), module_name@),
        decreases data.functions.len() - i,
    {
        let f = &data.functions[i];
        let name_matches = {
            let owned: String = module_name.to_owned();
            f.name == owned
        };
        if !name_matches {
            let piece = generate_function_stub(f);
            s.append(piece.as_str());
        }
        proof {
            lemma_rendered_stub_push(
                data.functions@.subrange(0, i as int),
                data.functions@[i as int],
                module_name@,
            );
            assert(data.functions@.subrange(0, i + 1) =~= data.functions@.subrange(
                0,
                i as int,
            ).push(data.functions@[i as int]));
            assert(s@ =~= rendered_stub_spec(data.functions@.subrange(0, i + 1), module_name@));
        }
        i = i + 1;
    }
    proof {
        assert(data.functions@.subrange(0, data.functions@.len() as int) =~= data.functions@);
    }
    s
}

} // verus!
