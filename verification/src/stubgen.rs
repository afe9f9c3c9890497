pub mod analyzer;
pub mod generator;
pub mod locator;
pub mod parser;
pub mod typemap;

use crate::stubgen::analyzer::{
    analyze_rust_src_data, analyzed_fn_matches, arg_type_spec, args_ok_spec, fn_ok_spec,
    parsed_type_of, PythonFunctionData,
};
use crate::stubgen::generator::{generate_stub, rendered_fn_core, rendered_stub_spec, stub_contrib_spec};
use crate::stubgen::locator::{
    locate_python_project, locate_spec, lookup, lookup_spec, path_join, FsTree, ProjectModel,
    MAX_WORKSPACE_DEPTH,
};
use crate::stubgen::parser::{
    attr_names_spec, doc_text_spec, exported_filter, exported_functions, parse_function_data,
    parse_source_text, return_text_spec, source_decls_of, FnDecl, RustFunctionData, RustSrcData,
};
use crate::stubgen::typemap::map_type_spec;
use vstd::prelude::*;
use vstd::string::StringExecFns;

verus! {

/// Every way a run can fail. No stage recovers or continues best-effort:
/// each failure carries the offending path or text and surfaces to the
/// caller.
#[derive(Debug, PartialEq, Eq)]
pub enum StubError {
    /// A scanned root lacks the expected project-configuration file.
    ConfigNotFound { dir: String },
    /// The configuration parses but lacks a required key, has a wrong value
    /// type, or does not parse as structured configuration at all.
    MalformedConfig { dir: String },
    /// A source file is not syntactically valid.
    SourceParseFailure { file: String },
    /// A declared-type text that survived extraction does not re-parse as a
    /// type: extraction and translation disagree on the grammar.
    TypeMappingInconsistency { type_text: String },
    /// A filesystem read or write failed.
    IoFailure { path: String },
}

/// The mathematical shape of a failure: each variant's payload as a
/// sequence.
pub enum ErrorModel {
    ConfigNotFound { dir: Seq<char> },
    MalformedConfig { dir: Seq<char> },
    SourceParseFailure { file: Seq<char> },
    TypeMappingInconsistency { type_text: Seq<char> },
    IoFailure { path: Seq<char> },
}

impl View for StubError {
    type V = ErrorModel;

    open spec fn view(&self) -> ErrorModel {
        match self {
            StubError::ConfigNotFound { dir } => ErrorModel::ConfigNotFound { dir: dir@ },
            StubError::MalformedConfig { dir } => ErrorModel::MalformedConfig { dir: dir@ },
            StubError::SourceParseFailure { file } => ErrorModel::SourceParseFailure {
                file: file@,
            },
            StubError::TypeMappingInconsistency { type_text } => {
                ErrorModel::TypeMappingInconsistency { type_text: type_text@ }
            },
            StubError::IoFailure { path } => ErrorModel::IoFailure { path: path@ },
        }
    }
}

/// One output interface file of a run: its path and its full text.
#[derive(Debug, PartialEq, Eq)]
pub struct StubFile {
    pub path: String,
    pub content: String,
}

/// The mathematical shape of one output file.
pub struct StubFileModel {
    pub path: Seq<char>,
    pub content: Seq<char>,
}

impl View for StubFile {
    type V = StubFileModel;

    open spec fn view(&self) -> StubFileModel {
        StubFileModel { path: self.path@, content: self.content@ }
    }
}

impl DeepView for StubFile {
    type V = StubFileModel;

    open spec fn deep_view(&self) -> StubFileModel {
        self.view()
    }
}

/// True when one exported declaration translates: every parameter, and the
/// return-type text.
pub open spec fn decl_ok_spec(d: FnDecl) -> bool {
    args_ok_spec(d.args@) && parsed_type_of(return_text_spec(d.output)) is Some
}

/// The translated parameter list of a declaration, as (name, target type)
/// texts.
pub open spec fn analyzed_args_view(args: Seq<(String, String)>) -> Seq<(Seq<char>, Seq<char>)> {
    Seq::new(args.len(), |i: int| (args[i].0@, arg_type_spec(args[i])))
}

/// What one exported declaration contributes to its project's output file:
/// nothing when its name equals the module name, its translated rendered
/// stub otherwise.
pub open spec fn decl_contrib_spec(d: FnDecl, module: Seq<char>) -> Seq<char> {
    if d.name@ == module {
        Seq::<char>::empty()
    } else {
        rendered_fn_core(
            d.name@,
            analyzed_args_view(d.args@),
            map_type_spec(parsed_type_of(return_text_spec(d.output))->0),
            doc_text_spec(d.attrs@),
        )
    }
}

/// The rendered output of a sequence of exported declarations, in order.
pub open spec fn decls_content_spec(ds: Seq<FnDecl>, module: Seq<char>) -> Seq<char>
    decreases ds.len(),
{
    if ds.len() == 0 {
        Seq::<char>::empty()
    } else {
        decl_contrib_spec(ds[0], module) + decls_content_spec(ds.drop_first(), module)
    }
}

/// True when one source text goes through the whole pipeline: it parses, and
/// every exported declaration in it translates.
pub open spec fn file_ok_spec(text: Seq<char>) -> bool {
    &&& source_decls_of(text) is Some
    &&& forall|i: int|
        0 <= i < exported_filter(source_decls_of(text)->0@).len() ==> decl_ok_spec(
            #[trigger] exported_filter(source_decls_of(text)->0@)[i],
        )
}

/// What one source text contributes to its project's output file.
pub open spec fn file_content_spec(text: Seq<char>, module: Seq<char>) -> Seq<char> {
    decls_content_spec(exported_filter(source_decls_of(text)->0@), module)
}

/// True when the source file behind a path is present and goes through the
/// pipeline.
pub open spec fn src_file_ok_spec(t: FsTree, path: Seq<char>) -> bool {
    lookup_spec(t, path) matches Some(FsTree::File { content }) && file_ok_spec(content@)
}

/// What the source file behind a path contributes to its project's output
/// file.
pub open spec fn src_file_content_spec(t: FsTree, path: Seq<char>, module: Seq<char>) -> Seq<
    char,
> {
    match lookup_spec(t, path) {
        Some(FsTree::File { content }) => file_content_spec(content@, module),
        _ => Seq::<char>::empty(),
    }
}

/// The full text of one project's output file: every source file's
/// contribution, in discovery order.
pub open spec fn project_content_spec(t: FsTree, paths: Seq<Seq<char>>, module: Seq<char>) -> Seq<
    char,
>
    decreases paths.len(),
{
    if paths.len() == 0 {
        Seq::<char>::empty()
    } else {
        src_file_content_spec(t, paths[0], module) + project_content_spec(
            t,
            paths.drop_first(),
            module,
        )
    }
}

/// Appending one source path extends the project's output text by that
/// file's contribution.
proof fn lemma_project_content_push(
    t: FsTree,
    paths: Seq<Seq<char>>,
    x: Seq<char>,
    module: Seq<char>,
)
    ensures
        project_content_spec(t, paths.push(x), module) == project_content_spec(t, paths, module)
            + src_file_content_spec(t, x, module),
    decreases paths.len(),
{
    reveal_with_fuel(project_content_spec, 2);
    if paths.len() == 0 {
        assert(paths.push(x) =~~= seq![x]);
        assert(seq![x][0] == x);
        assert(seq![x].drop_first() =~~= Seq::<Seq<char>>::empty());
        assert(project_content_spec(t, paths.push(x), module) =~= project_content_spec(
            t,
            paths,
            module,
        ) + src_file_content_spec(t, x, module));
    } else {
        lemma_project_content_push(t, paths.drop_first(), x, module);
        assert(paths.push(x).drop_first() =~~= paths.drop_first().push(x));
        assert(paths.push(x)[0] == paths[0]);
        assert(project_content_spec(t, paths.push(x), module) =~= project_content_spec(
            t,
            paths,
            module,
        ) + src_file_content_spec(t, x, module));
    }
}

/// True when every source file of a resolved project goes through the
/// pipeline.
pub open spec fn project_ok_spec(t: FsTree, pm: ProjectModel) -> bool {
    forall|i: int|
        0 <= i < pm.rust_src_file.len() ==> src_file_ok_spec(t, #[trigger] pm.rust_src_file[i])
}

/// The path of one project's output file: the interface file named after the
/// module, in the project's output directory.
pub open spec fn stub_path_spec(pm: ProjectModel) -> Seq<char> {
    crate::stubgen::locator::joined_spec(pm.output_dir, pm.module_name + ".pyi"@)
}

/// One project's output file.
pub open spec fn project_stub_spec(t: FsTree, pm: ProjectModel) -> StubFileModel {
    StubFileModel {
        path: stub_path_spec(pm),
        content: project_content_spec(t, pm.rust_src_file, pm.module_name),
    }
}

/// True when a whole run succeeds: the root resolves, and every source file
/// of every resolved project goes through the pipeline.
pub open spec fn pipeline_ok_spec(t: FsTree) -> bool {
    &&& locate_spec(t, ""@, MAX_WORKSPACE_DEPTH as nat) is Ok
    &&& forall|i: int|
        0 <= i < locate_spec(t, ""@, MAX_WORKSPACE_DEPTH as nat)->Ok_0.len() ==> project_ok_spec(
            t,
            #[trigger] locate_spec(t, ""@, MAX_WORKSPACE_DEPTH as nat)->Ok_0[i],
        )
}

/// The output files of a whole run, one per resolved project, in resolution
/// order.
pub open spec fn pipeline_outputs_spec(t: FsTree) -> Seq<StubFileModel> {
    let ps = locate_spec(t, ""@, MAX_WORKSPACE_DEPTH as nat)->Ok_0;
    Seq::new(ps.len(), |i: int| project_stub_spec(t, ps[i]))
}

/// The translations of a sequence of extracted declarations render exactly
/// as the declarations themselves: extraction, translation and rendering
/// compose.
proof fn lemma_analyzed_render(
    kept: Seq<FnDecl>,
    fns: Seq<RustFunctionData>,
    py: Seq<PythonFunctionData>,
    module: Seq<char>,
)
    requires
        fns.len() == kept.len(),
        py.len() == kept.len(),
        forall|i: int|
            0 <= i < kept.len() ==> {
                &&& (#[trigger] fns[i]).name == kept[i].name
                &&& fns[i].args@ == kept[i].args@
                &&& fns[i].return_type@ == return_text_spec(kept[i].output)
                &&& fns[i].doc@ == doc_text_spec(kept[i].attrs@)
            },
        forall|i: int| 0 <= i < kept.len() ==> analyzed_fn_matches(fns[i], #[trigger] py[i]),
    ensures
        rendered_stub_spec(py, module) == decls_content_spec(kept, module),
    decreases kept.len(),
{
    if kept.len() > 0 {
        assert(forall|i: int|
            0 <= i < kept.drop_first().len() ==> (#[trigger] fns.drop_first()[i]) == fns[i + 1]
                && kept.drop_first()[i] == kept[i + 1] && py.drop_first()[i] == py[i + 1]);
        lemma_analyzed_render(kept.drop_first(), fns.drop_first(), py.drop_first(), module);
        assert(py[0].args.deep_view() =~~= analyzed_args_view(kept[0].args@));
        assert(stub_contrib_spec(py[0], module) == decl_contrib_spec(kept[0], module));
        assert(rendered_stub_spec(py, module) =~= decls_content_spec(kept, module));
    }
}

/// Run the whole pipeline over a snapshot of the invocation root: resolve
/// every project, extract and translate every exported signature of its
/// source files, and render one output interface file per project. Succeeds
/// exactly when resolution and every file's extraction and translation
/// succeed; a resolution failure is returned as it stands.
#[verifier::loop_isolation(false)]
pub fn generate_stubs(t: &FsTree) -> (r: Result<Vec<StubFile>, StubError>)
    ensures
        r is Ok <==> pipeline_ok_spec(*t),
        r matches Ok(v) ==> v.deep_view() == pipeline_outputs_spec(*t),
        locate_spec(*t, ""@, MAX_WORKSPACE_DEPTH as nat) matches Err(le) ==> (r matches Err(e)
            && e@ == le),
{
    let projects = match locate_python_project(t) {
        Ok(v) => v,
        Err(e) => {
            return Err(e);
        },
    };
    let ghost pms = locate_spec(*t, ""@, MAX_WORKSPACE_DEPTH as nat)->Ok_0;
    proof {
        assert(projects.deep_view() == pms);
    }
    let mut out: Vec<StubFile> = Vec::new();
    let mut i: usize = 0;
    while i < projects.len()
        invariant
            i <= projects.len(),
            out@.len() == i as int,
            projects.deep_view() == pms,
            pms.len() == projects@.len(),
            locate_spec(*t, ""@, MAX_WORKSPACE_DEPTH as nat) == Ok::<
                Seq<ProjectModel>,
                ErrorModel,
            >(pms),
            forall|j: int| 0 <= j < i ==> project_ok_spec(*t, #[trigger] pms[j]),
            forall|j: int| 0 <= j < i ==> (#[trigger] out@[j])@ == project_stub_spec(*t, pms[j]),
        decreases projects.len() - i,
    {
        let p = &projects[i];
        let ghost pm = pms[i as int];
        proof {
            assert(projects.deep_view()[i as int] == projects@[i as int].deep_view());
            assert(p.rust_src_file.deep_view() == pm.rust_src_file);
        }
        let mut content = String::new();
        let mut j: usize = 0;
        while j < p.rust_src_file.len()
            invariant
                j <= p.rust_src_file.len(),
                forall|k: int| 0 <= k < j ==> src_file_ok_spec(*t, #[trigger] pm.rust_src_file[k]),
                content@ == project_content_spec(
                    *t,
                    pm.rust_src_file.subrange(0, j as int),
                    pm.module_name,
                ),
            decreases p.rust_src_file.len() - j,
        {
            let path = &p.rust_src_file[j];
            proof {
                assert(p.rust_src_file.deep_view()[j as int] == path@);
            }
            let text = match lookup(t, path.as_str()) {
                Some(node) => match node {
                    FsTree::File { content } => content,
                    FsTree::Dir { .. } => {
                        return Err(StubError::IoFailure { path: path.clone() });
                    },
                },
                None => {
                    return Err(StubError::IoFailure { path: path.clone() });
                },
            };
            let decls = match parse_source_text(text.as_str()) {
                Some(d) => d,
                None => {
                    return Err(StubError::SourceParseFailure { file: path.clone() });
                },
            };
            let ghost decls0 = decls@;
            let kept = exported_functions(decls);
            let mut fns: Vec<RustFunctionData> = Vec::new();
            let mut k: usize = 0;
            while k < kept.len()
                invariant
                    k <= kept.len(),
                    fns@.len() == k as int,
                    forall|l: int|
                        0 <= l < k ==> {
                            &&& (#[trigger] fns@[l]).name == kept@[l].name
                            &&& fns@[l].args@ == kept@[l].args@
                            &&& fns@[l].return_type@ == return_text_spec(kept@[l].output)
                            &&& fns@[l].attributes@ == attr_names_spec(kept@[l].attrs@)
                            &&& fns@[l].doc@ == doc_text_spec(kept@[l].attrs@)
                        },
                decreases kept.len() - k,
            {
                let fd = parse_function_data(&kept[k]);
                fns.push(fd);
                k = k + 1;
            }
            let src_data = RustSrcData { functions: fns };
            proof {
                assert(forall|l: int|
                    0 <= l < kept@.len() ==> (fn_ok_spec(#[trigger] src_data.functions@[l])
                        <==> decl_ok_spec(kept@[l])));
            }
            let py = match analyze_rust_src_data(&src_data) {
                Ok(py) => py,
                Err(e) => {
                    return Err(e);
                },
            };
            let piece = generate_stub(&py, p.module_name.as_str());
            content.append(piece.as_str());
            proof {
                assert(source_decls_of(text@)->0@ == decls0);
                assert(exported_filter(source_decls_of(text@)->0@) == kept@);
                assert forall|l: int|
                    0 <= l < exported_filter(source_decls_of(text@)->0@).len() implies decl_ok_spec(
                    #[trigger] exported_filter(source_decls_of(text@)->0@)[l],
                ) by {
                    assert(exported_filter(source_decls_of(text@)->0@)[l] == kept@[l]);
                    assert(fn_ok_spec(src_data.functions@[l]));
                };
                assert(file_ok_spec(text@));
                assert(src_file_ok_spec(*t, pm.rust_src_file[j as int]));
                lemma_analyzed_render(kept@, src_data.functions@, py.functions@, pm.module_name);
                lemma_project_content_push(
                    *t,
                    pm.rust_src_file.subrange(0, j as int),
                    pm.rust_src_file[j as int],
                    pm.module_name,
                );
                assert(pm.rust_src_file.subrange(0, j + 1) =~~= pm.rust_src_file.subrange(
                    0,
                    j as int,
                ).push(pm.rust_src_file[j as int]));
                assert(src_file_content_spec(*t, pm.rust_src_file[j as int], pm.module_name)
                    == piece@);
                assert(content@ =~= project_content_spec(
                    *t,
                    pm.rust_src_file.subrange(0, j + 1),
                    pm.module_name,
                ));
            }
            j = j + 1;
        }
        proof {
            assert(pm.rust_src_file.subrange(0, pm.rust_src_file.len() as int)
                =~~= pm.rust_src_file);
        }
        let mut fname = p.module_name.clone();
        fname.append(".pyi");
        let spath = path_join(p.output_dir.as_str(), fname.as_str());
        out.push(StubFile { path: spath, content });
        proof {
            assert(out@[i as int]@ == project_stub_spec(*t, pm));
        }
        i = i + 1;
    }
    proof {
        assert(out.deep_view() =~~= pipeline_outputs_spec(*t));
    }
    Ok(out)
}

/// Law: regeneration is destructive-idempotent at the value level — the
/// output files of a run are a function of the source tree alone, so two
/// runs against an unchanged tree produce byte-identical output, and the
/// second run succeeds exactly when the first did.
pub proof fn lemma_regeneration_idempotent(
    t: FsTree,
    r1: Result<Vec<StubFile>, StubError>,
    r2: Result<Vec<StubFile>, StubError>,
)
    requires
        call_ensures(generate_stubs, (&t,), r1),
        call_ensures(generate_stubs, (&t,), r2),
    ensures
        r1 is Ok <==> r2 is Ok,
        r1 matches Ok(v1) ==> (r2 matches Ok(v2) && v1.deep_view() == v2.deep_view()),
{
}

} // verus!
