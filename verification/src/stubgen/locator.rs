//! Resolution of buildable projects from configuration metadata: a root is
//! either a single bridge-toolchain project or a workspace whose members are
//! resolved and scanned in turn. The filesystem is handled as a snapshot
//! value, so resolution itself is a pure function of the tree it is given.

use crate::stubgen::typemap::text_eq;
use crate::stubgen::StubError;
use vstd::prelude::*;
use vstd::string::StrSliceExecFns;
use vstd::string::StringExecFns;

verus! {

/// One directory entry of the filesystem snapshot: a name and the node
/// behind it, in the order the filesystem reported it.
pub struct FsEntry {
    pub name: String,
    pub node: FsTree,
}

/// A filesystem snapshot: a file with its text, or a directory with its
/// entries.
pub enum FsTree {
    File { content: String },
    Dir { entries: Vec<FsEntry> },
}

/// One resolved buildable unit: its declared project name, its module name,
/// its output directory, and the source files to scan, in discovery order.
#[derive(Debug)]
pub struct ProjectInfo {
    pub project_name: String,
    pub module_name: String,
    pub output_dir: String,
    pub rust_src_file: Vec<String>,
}

/// The mathematical shape of a resolved project: every field as a sequence.
pub struct ProjectModel {
    pub project_name: Seq<char>,
    pub module_name: Seq<char>,
    pub output_dir: Seq<char>,
    pub rust_src_file: Seq<Seq<char>>,
}

impl View for ProjectInfo {
    type V = ProjectModel;

    open spec fn view(&self) -> ProjectModel {
        ProjectModel {
            project_name: self.project_name@,
            module_name: self.module_name@,
            output_dir: self.output_dir@,
            rust_src_file: self.rust_src_file.deep_view(),
        }
    }
}

/// A path joined onto a base: the base, a separator, and the suffix — the
/// suffix alone when the base is empty.
pub open spec fn joined_spec(base: Seq<char>, name: Seq<char>) -> Seq<char> {
    if base.len() == 0 {
        name
    } else {
        base + "/"@ + name
    }
}

/// Join a path onto a base with the separator, the base left off when empty.
pub fn path_join(base: &str, name: &str) -> (r: String)
    ensures
        r@ == joined_spec(base@, name@),
{
    if base.unicode_len() == 0 {
        let mut s = String::new();
        s.append(name);
        proof {
            assert(s@ =~= joined_spec(base@, name@));
        }
        s
    } else {
        let mut s = String::new();
        s.append(base);
        s.append("/");
        s.append(name);
        proof {
            assert(s@ =~= joined_spec(base@, name@));
        }
        s
    }
}

/// The node behind the first entry of the given name, in a sequence of
/// directory entries.
pub open spec fn first_child_spec(es: Seq<FsEntry>, name: Seq<char>) -> Option<FsTree>
    decreases es.len(),
{
    if es.len() == 0 {
        None
    } else if es[0].name@ == name {
        Some(es[0].node)
    } else {
        first_child_spec(es.drop_first(), name)
    }
}

/// The node behind the first entry of the given name in a directory node;
/// nothing in a file node.
pub open spec fn child_spec(t: FsTree, name: Seq<char>) -> Option<FsTree> {
    match t {
        FsTree::File { .. } => None,
        FsTree::Dir { entries } => first_child_spec(entries@, name),
    }
}

/// Find the first entry of the given name in a directory node.
#[verifier::loop_isolation(false)]
pub fn child<'a>(t: &'a FsTree, name: &str) -> (r: Option<&'a FsTree>)
    ensures
        match r {
            Some(c) => child_spec(*t, name@) == Some(*c),
            None => child_spec(*t, name@) is None,
        },
{
    match t {
        FsTree::File { .. } => None,
        FsTree::Dir { entries } => {
            proof {
                assert(entries@.subrange(0, entries@.len() as int) =~= entries@);
            }
            let mut i: usize = 0;
            while i < entries.len()
                invariant
                    i <= entries.len(),
                    first_child_spec(entries@, name@) == first_child_spec(
                        entries@.subrange(i as int, entries@.len() as int),
                        name@,
                    ),
                decreases entries.len() - i,
            {
                let owned: String = name.to_owned();
                if entries[i].name == owned {
                    proof {
                        assert(entries@.subrange(i as int, entries@.len() as int)[0]
                            == entries@[i as int]);
                    }
                    return Some(&entries[i].node);
                }
                proof {
                    assert(entries@.subrange(i as int, entries@.len() as int).drop_first()
                        =~= entries@.subrange(i + 1, entries@.len() as int));
                }
                i = i + 1;
            }
            None
        },
    }
}

/// The index of the first separator in a path, if any.
pub open spec fn find_slash_spec(s: Seq<char>) -> Option<int>
    decreases s.len(),
{
    if s.len() == 0 {
        None
    } else if s[0] == '/' {
        Some(0)
    } else {
        match find_slash_spec(s.drop_first()) {
            None => None,
            Some(i) => Some(i + 1),
        }
    }
}

/// A separator at position `i`, with none before it, is the first one.
proof fn lemma_find_slash_at(s: Seq<char>, i: int)
    requires
        0 <= i < s.len(),
        s[i] == '/',
        forall|j: int| 0 <= j < i ==> s[j] != '/',
    ensures
        find_slash_spec(s) == Some(i),
    decreases s.len(),
{
    if i > 0 {
        assert(forall|j: int| 0 <= j < i - 1 ==> s.drop_first()[j] != '/');
        assert(s.drop_first()[i - 1] == '/');
        lemma_find_slash_at(s.drop_first(), i - 1);
    }
}

/// A path with no separator anywhere has no first one.
proof fn lemma_find_slash_none(s: Seq<char>)
    requires
        forall|j: int| 0 <= j < s.len() ==> s[j] != '/',
    ensures
        find_slash_spec(s) is None,
    decreases s.len(),
{
    if s.len() > 0 {
        assert(forall|j: int| 0 <= j < s.drop_first().len() ==> s.drop_first()[j] != '/');
        lemma_find_slash_none(s.drop_first());
    }
}

/// Find the first separator of a path.
#[verifier::loop_isolation(false)]
pub fn find_slash(s: &str) -> (r: Option<usize>)
    ensures
        match r {
            Some(i) => find_slash_spec(s@) == Some(i as int),
            None => find_slash_spec(s@) is None,
        },
{
    let n = s.unicode_len();
    let mut i: usize = 0;
    while i < n
        invariant
            i <= n,
            n == s@.len(),
            forall|j: int| 0 <= j < i ==> s@[j] != '/',
        decreases n - i,
    {
        if s.get_char(i) == '/' {
            proof {
                lemma_find_slash_at(s@, i as int);
            }
            return Some(i);
        }
        i = i + 1;
    }
    proof {
        lemma_find_slash_none(s@);
    }
    None
}

/// The first separator's index is within the path.
pub proof fn lemma_find_slash_in_range(s: Seq<char>)
    ensures
        find_slash_spec(s) matches Some(i) ==> 0 <= i < s.len(),
    decreases s.len(),
{
    if s.len() > 0 && s[0] != '/' {
        lemma_find_slash_in_range(s.drop_first());
    }
}

/// The node behind a relative path: the node itself for the empty path, and
/// otherwise the path's first component looked up and the rest followed
/// within it.
pub open spec fn lookup_spec(t: FsTree, path: Seq<char>) -> Option<FsTree>
    decreases path.len(),
{
    if path.len() == 0 {
        Some(t)
    } else {
        proof {
            lemma_find_slash_in_range(path);
        }
        match find_slash_spec(path) {
            None => child_spec(t, path),
            Some(i) => match child_spec(t, path.subrange(0, i)) {
                None => None,
                Some(c) => lookup_spec(c, path.subrange(i + 1, path.len() as int)),
            },
        }
    }
}

/// Follow a relative path through the snapshot.
pub fn lookup<'a>(t: &'a FsTree, path: &str) -> (r: Option<&'a FsTree>)
    ensures
        match r {
            Some(c) => lookup_spec(*t, path@) == Some(*c),
            None => lookup_spec(*t, path@) is None,
        },
    decreases path@.len(),
{
    let n = path.unicode_len();
    if n == 0 {
        return Some(t);
    }
    match find_slash(path) {
        None => child(t, path),
        Some(i) => {
            proof {
                lemma_find_slash_in_range(path@);
            }
            let head = path.substring_char(0, i);
            let rest = path.substring_char(i + 1, n);
            match child(t, head) {
                None => None,
                Some(c) => lookup(c, rest),
            }
        },
    }
}

/// True of a file name carrying the source-file extension: long enough to
/// have a stem, and ending in `.rs`.
pub open spec fn has_rs_ext_spec(name: Seq<char>) -> bool {
    name.len() > 3 && name.subrange(name.len() - 3, name.len() as int) == ".rs"@
}

/// True iff the file name carries the source-file extension.
pub fn has_rs_ext(name: &String) -> (r: bool)
    ensures
        r == has_rs_ext_spec(name@),
{
    let n = name.as_str().unicode_len();
    if n <= 3 {
        return false;
    }
    let tail = name.as_str().substring_char(n - 3, n);
    let owned: String = tail.to_owned();
    text_eq(&owned, ".rs")
}

/// Every source file under a node, depth-first in entry order, as paths
/// joined onto the base.
pub open spec fn rs_files_spec(t: FsTree, base: Seq<char>) -> Seq<Seq<char>>
    decreases t, 0nat,
{
    match t {
        FsTree::File { .. } => Seq::<Seq<char>>::empty(),
        FsTree::Dir { entries } => rs_files_entries_spec(entries@, base),
    }
}

/// What a sequence of directory entries contributes to the source-file walk:
/// each file with the source extension as its joined path, each directory
/// walked recursively, in order.
pub open spec fn rs_files_entries_spec(es: Seq<FsEntry>, base: Seq<char>) -> Seq<Seq<char>>
    decreases es, es.len() + 1nat,
{
    if es.len() == 0 {
        Seq::<Seq<char>>::empty()
    } else {
        rs_files_entry_spec(es[0], base) + rs_files_entries_spec(es.drop_first(), base)
    }
}

/// What one directory entry contributes to the source-file walk.
pub open spec fn rs_files_entry_spec(e: FsEntry, base: Seq<char>) -> Seq<Seq<char>>
    decreases e, 0nat,
{
    match e.node {
        FsTree::File { .. } => if has_rs_ext_spec(e.name@) {
            seq![joined_spec(base, e.name@)]
        } else {
            Seq::<Seq<char>>::empty()
        },
        FsTree::Dir { .. } => rs_files_spec(e.node, joined_spec(base, e.name@)),
    }
}

/// Appending one entry extends the walk by that entry's contribution.
proof fn lemma_rs_files_push(es: Seq<FsEntry>, e: FsEntry, base: Seq<char>)
    ensures
        rs_files_entries_spec(es.push(e), base) == rs_files_entries_spec(es, base)
            + rs_files_entry_spec(e, base),
    decreases es.len(),
{
    reveal_with_fuel(rs_files_entries_spec, 2);
    if es.len() == 0 {
        assert(es.push(e) =~= seq![e]);
        assert(seq![e][0] == e);
        assert(seq![e].drop_first() =~= Seq::<FsEntry>::empty());
        assert(rs_files_entries_spec(es.push(e), base) =~= rs_files_entries_spec(es, base)
            + rs_files_entry_spec(e, base));
    } else {
        lemma_rs_files_push(es.drop_first(), e, base);
        assert(es.push(e).drop_first() =~= es.drop_first().push(e));
        assert(es.push(e)[0] == es[0]);
        assert(rs_files_entries_spec(es.push(e), base) =~= rs_files_entries_spec(es, base)
            + rs_files_entry_spec(e, base));
    }
}

/// Enumerate every file with the source-file extension under a node,
/// depth-first, directories and files visited in entry order, each path
/// joined onto the base.
#[verifier::loop_isolation(false)]
pub fn get_rust_src_files(t: &FsTree, base: &str) -> (r: Vec<String>)
    ensures
        r.deep_view() == rs_files_spec(*t, base@),
    decreases *t,
{
    let mut out: Vec<String> = Vec::new();
    match t {
        FsTree::File { .. } => {},
        FsTree::Dir { entries } => {
            let mut i: usize = 0;
            while i < entries.len()
                invariant
                    i <= entries.len(),
                    out.deep_view() == rs_files_entries_spec(entries@.subrange(0, i as int), base@),
                decreases entries.len() - i,
            {
                let e = &entries[i];
                match &e.node {
                    FsTree::File { .. } => {
                        if has_rs_ext(&e.name) {
                            out.push(path_join(base, e.name.as_str()));
                        }
                    },
                    FsTree::Dir { .. } => {
                        proof {
                            assert(decreases_to!(*t => e.node));
                        }
                        let sub_base = path_join(base, e.name.as_str());
                        let mut sub = get_rust_src_files(&e.node, sub_base.as_str());
                        let ghost sub0 = sub.deep_view();
                        let ghost out0 = out.deep_view();
                        out.append(&mut sub);
                        proof {
                            assert(out.deep_view() =~~= out0 + sub0);
                        }
                    },
                }
                proof {
                    lemma_rs_files_push(
                        entries@.subrange(0, i as int),
                        entries@[i as int],
                        base@,
                    );
                    assert(entries@.subrange(0, i + 1) =~= entries@.subrange(0, i as int).push(
                        entries@[i as int],
                    ));
                    assert(out.deep_view() =~~= rs_files_entries_spec(
                        entries@.subrange(0, i + 1),
                        base@,
                    ));
                }
                i = i + 1;
            }
            proof {
                assert(entries@.subrange(0, entries@.len() as int) =~= entries@);
            }
        },
    }
    out
}

/// What the project-configuration file declares, reduced to the keys this
/// system consumes: the build backend, whether a workspace section is
/// present, and the workspace member patterns (each entry carried as text
/// only when it is a string).
pub struct ProjectConfig {
    pub build_backend: Option<String>,
    pub has_workspace: bool,
    pub workspace_members: Option<Vec<Option<String>>>,
}

/// What the build-metadata file declares: the name under its package
/// section and the name under its library section.
pub struct BuildMeta {
    pub package_name: Option<String>,
    pub lib_name: Option<String>,
}

/// What parsing a project-configuration text yields, or nothing when the
/// text is not valid structured configuration.
pub uninterp spec fn project_config_of(text: Seq<char>) -> Option<ProjectConfig>;

/// What parsing a build-metadata text yields, or nothing when the text is
/// not valid structured configuration.
pub uninterp spec fn build_meta_of(text: Seq<char>) -> Option<BuildMeta>;

/// Relies on toml_edit's DocumentMut: parsing is a function of the text
/// alone; the consumed keys — `build-system.build-backend` and
/// `tool.uv.workspace.members` — are read out one for one, and the result
/// is `None` when the text does not parse.
#[verifier::external_body]
pub fn parse_project_config(text: &str) -> (r: Option<ProjectConfig>)
    ensures
        r == project_config_of(text@),
{
    let doc: toml_edit::DocumentMut = text.parse().ok()?;
    let ws = doc.get("tool").and_then(|t| t.get("uv")).and_then(|u| u.get("workspace"));
    Some(ProjectConfig {
        build_backend: doc.get("build-system").and_then(|b| b.get("build-backend")).and_then(|i| i.as_str()).map(String::from),
        has_workspace: ws.is_some(),
        workspace_members: ws.and_then(|w| w.get("members")).and_then(|m| m.as_array()).map(|a| a.iter().map(|v| v.as_str().map(String::from)).collect()),
    })
}

/// Relies on toml_edit's DocumentMut: parsing is a function of the text
/// alone; the consumed keys — `package.name` and `lib.name` — are read out
/// one for one, and the result is `None` when the text does not parse.
#[verifier::external_body]
pub fn parse_build_metadata(text: &str) -> (r: Option<BuildMeta>)
    ensures
        r == build_meta_of(text@),
{
    let doc: toml_edit::DocumentMut = text.parse().ok()?;
    Some(BuildMeta {
        package_name: doc.get("package").and_then(|p| p.get("name")).and_then(|i| i.as_str()).map(String::from),
        lib_name: doc.get("lib").and_then(|l| l.get("name")).and_then(|i| i.as_str()).map(String::from),
    })
}

/// True of a configuration declaring the bridge toolchain as its build
/// backend.
pub open spec fn is_maturin_spec(cfg: ProjectConfig) -> bool {
    cfg.build_backend matches Some(b) && b@ == "maturin"@
}

/// True iff the configuration declares the bridge toolchain as its build
/// backend.
pub fn is_maturin_project(cfg: &ProjectConfig) -> (r: bool)
    ensures
        r == is_maturin_spec(*cfg),
{
    match &cfg.build_backend {
        Some(b) => text_eq(b, "maturin"),
        None => false,
    }
}

/// The project name the build metadata declares under its package section.
pub fn get_project_name(cfg: &BuildMeta) -> (r: Option<String>)
    ensures
        r == cfg.package_name,
{
    match &cfg.package_name {
        Some(n) => Some(n.clone()),
        None => None,
    }
}

/// The module name the build metadata declares under its library section.
pub fn get_module_name(cfg: &BuildMeta) -> (r: Option<String>)
    ensures
        r == cfg.lib_name,
{
    match &cfg.lib_name {
        Some(n) => Some(n.clone()),
        None => None,
    }
}

/// True of a member pattern ending in the wildcard segment.
pub open spec fn ends_star_spec(m: Seq<char>) -> bool {
    m.len() >= 2 && m.subrange(m.len() - 2, m.len() as int) == "/*"@
}

/// True iff the member pattern ends in the wildcard segment.
pub fn ends_with_star(m: &String) -> (r: bool)
    ensures
        r == ends_star_spec(m@),
{
    let n = m.as_str().unicode_len();
    if n < 2 {
        return false;
    }
    let tail = m.as_str().substring_char(n - 2, n);
    let owned: String = tail.to_owned();
    text_eq(&owned, "/*")
}

/// The wildcard expansion of a stem within a sequence of directory entries:
/// each entry that is a directory, as its name joined onto the stem, in
/// entry order.
pub open spec fn member_children_spec(es: Seq<FsEntry>, stem: Seq<char>) -> Seq<Seq<char>>
    decreases es.len(),
{
    if es.len() == 0 {
        Seq::<Seq<char>>::empty()
    } else {
        (if es[0].node is Dir {
            seq![joined_spec(stem, es[0].name@)]
        } else {
            Seq::<Seq<char>>::empty()
        }) + member_children_spec(es.drop_first(), stem)
    }
}

/// Appending one entry extends the wildcard expansion by that entry's
/// contribution.
proof fn lemma_member_children_push(es: Seq<FsEntry>, e: FsEntry, stem: Seq<char>)
    ensures
        member_children_spec(es.push(e), stem) == member_children_spec(es, stem) + (if e.node is Dir {
            seq![joined_spec(stem, e.name@)]
        } else {
            Seq::<Seq<char>>::empty()
        }),
    decreases es.len(),
{
    reveal_with_fuel(member_children_spec, 2);
    if es.len() == 0 {
        assert(es.push(e) =~= seq![e]);
        assert(seq![e][0] == e);
        assert(seq![e].drop_first() =~= Seq::<FsEntry>::empty());
        assert(member_children_spec(es.push(e), stem) =~~= member_children_spec(es, stem) + (
        if e.node is Dir {
            seq![joined_spec(stem, e.name@)]
        } else {
            Seq::<Seq<char>>::empty()
        }));
    } else {
        lemma_member_children_push(es.drop_first(), e, stem);
        assert(es.push(e).drop_first() =~= es.drop_first().push(e));
        assert(es.push(e)[0] == es[0]);
        assert(member_children_spec(es.push(e), stem) =~~= member_children_spec(es, stem) + (
        if e.node is Dir {
            seq![joined_spec(stem, e.name@)]
        } else {
            Seq::<Seq<char>>::empty()
        }));
    }
}

/// The resolution of one member pattern: a pattern ending in the wildcard
/// segment expands to every immediate child directory of its stem — the stem
/// missing or not a directory is a hard error —, an empty pattern is
/// malformed, and any other pattern resolves to exactly that path.
pub open spec fn expand_member_spec(t: FsTree, m: Seq<char>, dir: Seq<char>) -> Result<
    Seq<Seq<char>>,
    crate::stubgen::ErrorModel,
> {
    if ends_star_spec(m) {
        let stem = m.subrange(0, m.len() - 2);
        match lookup_spec(t, stem) {
            Some(FsTree::Dir { entries }) => Ok(member_children_spec(entries@, stem)),
            _ => Err(crate::stubgen::ErrorModel::ConfigNotFound { dir: joined_spec(dir, stem) }),
        }
    } else if m.len() == 0 {
        Err(crate::stubgen::ErrorModel::MalformedConfig { dir })
    } else {
        Ok(seq![m])
    }
}

/// The resolution of a member pattern list: each pattern resolved in
/// declared order, wildcard expansions standing in place, the results
/// concatenated; the first failing pattern's error is the list's error.
pub open spec fn resolve_members_spec(t: FsTree, ms: Seq<Seq<char>>, dir: Seq<char>) -> Result<
    Seq<Seq<char>>,
    crate::stubgen::ErrorModel,
>
    decreases ms.len(),
{
    if ms.len() == 0 {
        Ok(Seq::<Seq<char>>::empty())
    } else {
        match expand_member_spec(t, ms[0], dir) {
            Err(e) => Err(e),
            Ok(xs) => match resolve_members_spec(t, ms.drop_first(), dir) {
                Err(e) => Err(e),
                Ok(rest) => Ok(xs + rest),
            },
        }
    }
}

/// Law: member resolution is complete and keeps the declared order — the
/// resolution of a concatenation of pattern lists is the concatenation of
/// their resolutions, each wildcard expansion standing exactly where its
/// pattern was declared, and the first failing pattern decides the error.
pub proof fn lemma_resolve_members_append(
    t: FsTree,
    ms1: Seq<Seq<char>>,
    ms2: Seq<Seq<char>>,
    dir: Seq<char>,
)
    ensures
        resolve_members_spec(t, ms1 + ms2, dir) == (match resolve_members_spec(t, ms1, dir) {
            Err(e) => Err::<Seq<Seq<char>>, crate::stubgen::ErrorModel>(e),
            Ok(a) => match resolve_members_spec(t, ms2, dir) {
                Err(e) => Err(e),
                Ok(b) => Ok(a + b),
            },
        }),
    decreases ms1.len(),
{
    if ms1.len() == 0 {
        assert(ms1 + ms2 =~= ms2);
        if resolve_members_spec(t, ms2, dir) is Ok {
            let b = resolve_members_spec(t, ms2, dir)->Ok_0;
            assert(Seq::<Seq<char>>::empty() + b =~= b);
        }
    } else {
        lemma_resolve_members_append(t, ms1.drop_first(), ms2, dir);
        assert((ms1 + ms2).drop_first() =~= ms1.drop_first() + ms2);
        assert((ms1 + ms2)[0] == ms1[0]);
        if expand_member_spec(t, ms1[0], dir) is Ok && resolve_members_spec(
            t,
            ms1.drop_first(),
            dir,
        ) is Ok && resolve_members_spec(t, ms2, dir) is Ok {
            let xs = expand_member_spec(t, ms1[0], dir)->Ok_0;
            let a = resolve_members_spec(t, ms1.drop_first(), dir)->Ok_0;
            let b = resolve_members_spec(t, ms2, dir)->Ok_0;
            assert(xs + (a + b) =~~= (xs + a) + b);
        }
    }
}

/// Law: member resolution is idempotent — a list of already-resolved paths
/// (non-empty literals with no wildcard segment), resolved again, comes back
/// exactly as it stands.
pub proof fn lemma_resolve_members_idempotent(t: FsTree, ps: Seq<Seq<char>>, dir: Seq<char>)
    requires
        forall|i: int|
            0 <= i < ps.len() ==> (#[trigger] ps[i]).len() > 0 && !ends_star_spec(ps[i]),
    ensures
        resolve_members_spec(t, ps, dir) == Ok::<Seq<Seq<char>>, crate::stubgen::ErrorModel>(ps),
    decreases ps.len(),
{
    if ps.len() == 0 {
        assert(ps =~~= Seq::<Seq<char>>::empty());
    } else {
        assert(forall|i: int|
            0 <= i < ps.drop_first().len() ==> (#[trigger] ps.drop_first()[i]) == ps[i + 1]);
        lemma_resolve_members_idempotent(t, ps.drop_first(), dir);
        assert(expand_member_spec(t, ps[0], dir) == Ok::<
            Seq<Seq<char>>,
            crate::stubgen::ErrorModel,
        >(seq![ps[0]]));
        assert(seq![ps[0]] + ps.drop_first() =~~= ps);
    }
}

/// Resolve one member pattern against the snapshot: the expanded child
/// directories of its stem for a wildcard pattern, the pattern itself
/// otherwise.
#[verifier::loop_isolation(false)]
fn expand_member(t: &FsTree, m: &String, dir: &str) -> (r: Result<Vec<String>, StubError>)
    ensures
        r matches Ok(v) ==> expand_member_spec(*t, m@, dir@) == Ok::<
            Seq<Seq<char>>,
            crate::stubgen::ErrorModel,
        >(v.deep_view()),
        r matches Err(e) ==> expand_member_spec(*t, m@, dir@) == Err::<
            Seq<Seq<char>>,
            crate::stubgen::ErrorModel,
        >(e@),
{
    if ends_with_star(m) {
        let n = m.as_str().unicode_len();
        let stem = m.as_str().substring_char(0, n - 2);
        match lookup(t, stem) {
            Some(sub) => match sub {
                FsTree::Dir { entries } => {
                    let mut out: Vec<String> = Vec::new();
                    proof {
                        assert(entries@.subrange(0, 0) =~= Seq::<FsEntry>::empty());
                    }
                    let mut i: usize = 0;
                    while i < entries.len()
                        invariant
                            i <= entries.len(),
                            out.deep_view() == member_children_spec(
                                entries@.subrange(0, i as int),
                                stem@,
                            ),
                        decreases entries.len() - i,
                    {
                        match &entries[i].node {
                            FsTree::Dir { .. } => {
                                out.push(path_join(stem, entries[i].name.as_str()));
                            },
                            FsTree::File { .. } => {},
                        }
                        proof {
                            lemma_member_children_push(
                                entries@.subrange(0, i as int),
                                entries@[i as int],
                                stem@,
                            );
                            assert(entries@.subrange(0, i + 1) =~= entries@.subrange(
                                0,
                                i as int,
                            ).push(entries@[i as int]));
                            assert(out.deep_view() =~~= member_children_spec(
                                entries@.subrange(0, i + 1),
                                stem@,
                            ));
                        }
                        i = i + 1;
                    }
                    proof {
                        assert(entries@.subrange(0, entries@.len() as int) =~= entries@);
                    }
                    Ok(out)
                },
                FsTree::File { .. } => Err(
                    StubError::ConfigNotFound { dir: path_join(dir, stem) },
                ),
            },
            None => Err(StubError::ConfigNotFound { dir: path_join(dir, stem) }),
        }
    } else if m.as_str().unicode_len() == 0 {
        Err(StubError::MalformedConfig { dir: dir.to_owned() })
    } else {
        let out = vec![m.clone()];
        proof {
            assert(out.deep_view() =~~= seq![m@]);
        }
        Ok(out)
    }
}

/// Resolve a workspace's member pattern list against the snapshot: every
/// pattern in declared order, wildcard expansions standing in place, as
/// paths relative to the workspace root.
#[verifier::loop_isolation(false)]
pub fn get_workspace_members_path(t: &FsTree, members: &Vec<String>, dir: &str) -> (r: Result<
    Vec<String>,
    StubError,
>)
    ensures
        r matches Ok(v) ==> resolve_members_spec(*t, members.deep_view(), dir@) == Ok::<
            Seq<Seq<char>>,
            crate::stubgen::ErrorModel,
        >(v.deep_view()),
        r matches Err(e) ==> resolve_members_spec(*t, members.deep_view(), dir@) == Err::<
            Seq<Seq<char>>,
            crate::stubgen::ErrorModel,
        >(e@),
{
    let ghost full = members.deep_view();
    let mut out: Vec<String> = Vec::new();
    let mut i: usize = 0;
    proof {
        assert(full.subrange(0, full.len() as int) =~~= full);
    }
    while i < members.len()
        invariant
            i <= members.len(),
            full == members.deep_view(),
            resolve_members_spec(*t, full, dir@) == (match resolve_members_spec(
                *t,
                full.subrange(i as int, full.len() as int),
                dir@,
            ) {
                Err(e) => Err::<Seq<Seq<char>>, crate::stubgen::ErrorModel>(e),
                Ok(rest) => Ok(out.deep_view() + rest),
            }),
        decreases members.len() - i,
    {
        let ghost suffix = full.subrange(i as int, full.len() as int);
        proof {
            assert(suffix[0] == full[i as int]);
            assert(suffix.drop_first() =~~= full.subrange(i + 1, full.len() as int));
        }
        match expand_member(t, &members[i], dir) {
            Err(e) => {
                return Err(e);
            },
            Ok(mut xs) => {
                let ghost out0 = out.deep_view();
                let ghost xs0 = xs.deep_view();
                out.append(&mut xs);
                proof {
                    assert(out.deep_view() =~~= out0 + xs0);
                    if resolve_members_spec(*t, suffix.drop_first(), dir@) is Ok {
                        let rest = resolve_members_spec(*t, suffix.drop_first(), dir@)->Ok_0;
                        assert(out0 + (xs0 + rest) =~~= (out0 + xs0) + rest);
                    }
                }
            },
        }
        i = i + 1;
    }
    proof {
        assert(full.subrange(full.len() as int, full.len() as int) =~= Seq::<Seq<char>>::empty());
        assert(out.deep_view() + Seq::<Seq<char>>::empty() =~~= out.deep_view());
    }
    Ok(out)
}

impl DeepView for ProjectInfo {
    type V = ProjectModel;

    open spec fn deep_view(&self) -> ProjectModel {
        self.view()
    }
}

/// How many workspace levels resolution follows before treating the
/// configuration as self-referential: the format nests one level in
/// practice, so this bound is never reached by well-formed trees.
pub const MAX_WORKSPACE_DEPTH: usize = 8;

/// True when every declared member pattern is a string.
pub open spec fn members_all_strings(ms: Seq<Option<String>>) -> bool {
    forall|i: int| 0 <= i < ms.len() ==> (#[trigger] ms[i]) is Some
}

/// The member patterns' texts.
pub open spec fn member_texts_spec(ms: Seq<Option<String>>) -> Seq<Seq<char>> {
    Seq::new(ms.len(), |i: int| ms[i]->0@)
}

/// The projects reachable from one scanned root, resolution bounded by the
/// given depth: a missing configuration file is `ConfigNotFound`; a
/// configuration that does not parse, lacks a required key, holds a
/// non-string member, or nests workspaces past the depth bound is
/// `MalformedConfig`; a workspace resolves its members and scans each in
/// declared order; a single unit declaring another build backend resolves to
/// no projects; a single bridge-toolchain unit reads its build metadata and
/// enumerates its source files.
pub open spec fn locate_spec(t: FsTree, dir: Seq<char>, fuel: nat) -> Result<
    Seq<ProjectModel>,
    crate::stubgen::ErrorModel,
>
    decreases fuel, 0nat,
{
    match child_spec(t, "pyproject.toml"@) {
        Some(FsTree::File { content }) => match project_config_of(content@) {
            None => Err(crate::stubgen::ErrorModel::MalformedConfig { dir }),
            Some(cfg) => if cfg.has_workspace {
                match cfg.workspace_members {
                    None => Err(crate::stubgen::ErrorModel::MalformedConfig { dir }),
                    Some(ms) => if !members_all_strings(ms@) {
                        Err(crate::stubgen::ErrorModel::MalformedConfig { dir })
                    } else if fuel == 0 {
                        Err(crate::stubgen::ErrorModel::MalformedConfig { dir })
                    } else {
                        match resolve_members_spec(t, member_texts_spec(ms@), dir) {
                            Err(e) => Err(e),
                            Ok(paths) => locate_members_spec(t, dir, paths, (fuel - 1) as nat),
                        }
                    },
                }
            } else {
                match cfg.build_backend {
                    None => Err(crate::stubgen::ErrorModel::MalformedConfig { dir }),
                    Some(b) => if b@ != "maturin"@ {
                        Ok(Seq::<ProjectModel>::empty())
                    } else {
                        single_project_spec(t, dir)
                    },
                }
            },
        },
        _ => Err(crate::stubgen::ErrorModel::ConfigNotFound { dir }),
    }
}

/// The single resolved unit of a bridge-toolchain root: names from the
/// build metadata, output directory under the source root named after the
/// module, and every source file beneath the source root.
pub open spec fn single_project_spec(t: FsTree, dir: Seq<char>) -> Result<
    Seq<ProjectModel>,
    crate::stubgen::ErrorModel,
> {
    match child_spec(t, "Cargo.toml"@) {
        Some(FsTree::File { content }) => match build_meta_of(content@) {
            None => Err(crate::stubgen::ErrorModel::MalformedConfig { dir }),
            Some(cargo) => match cargo.package_name {
                None => Err(crate::stubgen::ErrorModel::MalformedConfig { dir }),
                Some(pn) => match cargo.lib_name {
                    None => Err(crate::stubgen::ErrorModel::MalformedConfig { dir }),
                    Some(ln) => match child_spec(t, "src"@) {
                        Some(src) => if src is Dir {
                            Ok(
                                seq![
                                    ProjectModel {
                                        project_name: pn@,
                                        module_name: ln@,
                                        output_dir: joined_spec(joined_spec(dir, "src"@), ln@),
                                        rust_src_file: rs_files_spec(src, joined_spec(dir, "src"@)),
                                    },
                                ],
                            )
                        } else {
                            Err(
                                crate::stubgen::ErrorModel::IoFailure {
                                    path: joined_spec(dir, "src"@),
                                },
                            )
                        },
                        None => Err(
                            crate::stubgen::ErrorModel::IoFailure { path: joined_spec(dir, "src"@) },
                        ),
                    },
                },
            },
        },
        _ => Err(
            crate::stubgen::ErrorModel::IoFailure { path: joined_spec(dir, "Cargo.toml"@) },
        ),
    }
}

/// The projects of a workspace's resolved member paths, scanned in order:
/// a member path with no node behind it is a hard error, and the first
/// failing member decides the error.
pub open spec fn locate_members_spec(
    t: FsTree,
    dir: Seq<char>,
    paths: Seq<Seq<char>>,
    fuel: nat,
) -> Result<Seq<ProjectModel>, crate::stubgen::ErrorModel>
    decreases fuel, paths.len() + 1nat,
{
    if paths.len() == 0 {
        Ok(Seq::<ProjectModel>::empty())
    } else {
        match lookup_spec(t, paths[0]) {
            Some(sub) => match locate_spec(sub, joined_spec(dir, paths[0]), fuel) {
                Err(e) => Err(e),
                Ok(v) => match locate_members_spec(t, dir, paths.drop_first(), fuel) {
                    Err(e) => Err(e),
                    Ok(rest) => Ok(v + rest),
                },
            },
            None => Err(
                crate::stubgen::ErrorModel::ConfigNotFound { dir: joined_spec(dir, paths[0]) },
            ),
        }
    }
}

/// Gather the projects reachable from one scanned root, resolution bounded
/// by the given depth.
#[verifier::loop_isolation(false)]
fn locate_in_dir(t: &FsTree, dir: &str, fuel: usize) -> (r: Result<Vec<ProjectInfo>, StubError>)
    ensures
        r matches Ok(v) ==> locate_spec(*t, dir@, fuel as nat) == Ok::<
            Seq<ProjectModel>,
            crate::stubgen::ErrorModel,
        >(v.deep_view()),
        r matches Err(e) ==> locate_spec(*t, dir@, fuel as nat) == Err::<
            Seq<ProjectModel>,
            crate::stubgen::ErrorModel,
        >(e@),
    decreases fuel,
{
    let pyproject = match child(t, "pyproject.toml") {
        Some(node) => match node {
            FsTree::File { content } => content,
            FsTree::Dir { .. } => {
                return Err(StubError::ConfigNotFound { dir: dir.to_owned() });
            },
        },
        None => {
            return Err(StubError::ConfigNotFound { dir: dir.to_owned() });
        },
    };
    let cfg = match parse_project_config(pyproject.as_str()) {
        Some(c) => c,
        None => {
            return Err(StubError::MalformedConfig { dir: dir.to_owned() });
        },
    };
    if cfg.has_workspace {
        let ms = match &cfg.workspace_members {
            Some(ms) => ms,
            None => {
                return Err(StubError::MalformedConfig { dir: dir.to_owned() });
            },
        };
        let mut texts: Vec<String> = Vec::new();
        let mut i: usize = 0;
        while i < ms.len()
            invariant
                i <= ms.len(),
                texts@.len() == i as int,
                forall|j: int| 0 <= j < i ==> (#[trigger] ms@[j]) is Some,
                forall|j: int| 0 <= j < i ==> (#[trigger] texts@[j]) == ms@[j]->0,
            decreases ms.len() - i,
        {
            match &ms[i] {
                Some(m) => {
                    texts.push(m.clone());
                },
                None => {
                    return Err(StubError::MalformedConfig { dir: dir.to_owned() });
                },
            }
            i = i + 1;
        }
        proof {
            assert(texts.deep_view() =~~= member_texts_spec(ms@));
        }
        if fuel == 0 {
            return Err(StubError::MalformedConfig { dir: dir.to_owned() });
        }
        let resolved = match get_workspace_members_path(t, &texts, dir) {
            Ok(v) => v,
            Err(e) => {
                return Err(e);
            },
        };
        let ghost rfull = resolved.deep_view();
        let ghost subfuel = (fuel - 1) as nat;
        let mut out: Vec<ProjectInfo> = Vec::new();
        let mut k: usize = 0;
        proof {
            assert(rfull.subrange(0, rfull.len() as int) =~~= rfull);
        }
        while k < resolved.len()
            invariant
                k <= resolved.len(),
                rfull == resolved.deep_view(),
                fuel >= 1,
                locate_members_spec(*t, dir@, rfull, subfuel) == (match locate_members_spec(
                    *t,
                    dir@,
                    rfull.subrange(k as int, rfull.len() as int),
                    subfuel,
                ) {
                    Err(e) => Err::<Seq<ProjectModel>, crate::stubgen::ErrorModel>(e),
                    Ok(rest) => Ok(out.deep_view() + rest),
                }),
            decreases resolved.len() - k,
        {
            let ghost suffix = rfull.subrange(k as int, rfull.len() as int);
            proof {
                assert(suffix[0] == rfull[k as int]);
                assert(suffix.drop_first() =~~= rfull.subrange(k + 1, rfull.len() as int));
            }
            let member_dir = path_join(dir, resolved[k].as_str());
            let sub = match lookup(t, resolved[k].as_str()) {
                Some(sub) => sub,
                None => {
                    return Err(StubError::ConfigNotFound { dir: member_dir });
                },
            };
            match locate_in_dir(sub, member_dir.as_str(), fuel - 1) {
                Err(e) => {
                    return Err(e);
                },
                Ok(mut v) => {
                    let ghost out0 = out.deep_view();
                    let ghost v0 = v.deep_view();
                    out.append(&mut v);
                    proof {
                        assert(out.deep_view() =~~= out0 + v0);
                        if locate_members_spec(*t, dir@, suffix.drop_first(), subfuel) is Ok {
                            let rest = locate_members_spec(
                                *t,
                                dir@,
                                suffix.drop_first(),
                                subfuel,
                            )->Ok_0;
                            assert(out0 + (v0 + rest) =~~= (out0 + v0) + rest);
                        }
                    }
                },
            }
            k = k + 1;
        }
        proof {
            assert(rfull.subrange(rfull.len() as int, rfull.len() as int) =~= Seq::<
                Seq<char>,
            >::empty());
            assert(out.deep_view() + Seq::<ProjectModel>::empty() =~~= out.deep_view());
        }
        Ok(out)
    } else {
        if matches!(&cfg.build_backend, None) {
            return Err(StubError::MalformedConfig { dir: dir.to_owned() });
        }
        if !is_maturin_project(&cfg) {
            let out: Vec<ProjectInfo> = Vec::new();
            proof {
                assert(out.deep_view() =~~= Seq::<ProjectModel>::empty());
            }
            return Ok(out);
        }
        let cargo_text = match child(t, "Cargo.toml") {
            Some(node) => match node {
                FsTree::File { content } => content,
                FsTree::Dir { .. } => {
                    return Err(StubError::IoFailure { path: path_join(dir, "Cargo.toml") });
                },
            },
            None => {
                return Err(StubError::IoFailure { path: path_join(dir, "Cargo.toml") });
            },
        };
        let cargo = match parse_build_metadata(cargo_text.as_str()) {
            Some(c) => c,
            None => {
                return Err(StubError::MalformedConfig { dir: dir.to_owned() });
            },
        };
        let project_name = match get_project_name(&cargo) {
            Some(n) => n,
            None => {
                return Err(StubError::MalformedConfig { dir: dir.to_owned() });
            },
        };
        let module_name = match get_module_name(&cargo) {
            Some(n) => n,
            None => {
                return Err(StubError::MalformedConfig { dir: dir.to_owned() });
            },
        };
        let src_dir = path_join(dir, "src");
        let src = match child(t, "src") {
            Some(node) => node,
            None => {
                return Err(StubError::IoFailure { path: src_dir });
            },
        };
        match src {
            FsTree::File { .. } => Err(StubError::IoFailure { path: src_dir }),
            FsTree::Dir { .. } => {
                let rust_src_file = get_rust_src_files(src, src_dir.as_str());
                let output_dir = path_join(src_dir.as_str(), module_name.as_str());
                let info = ProjectInfo { project_name, module_name, output_dir, rust_src_file };
                let mut out: Vec<ProjectInfo> = Vec::new();
                out.push(info);
                proof {
                    assert(out.deep_view() =~~= single_project_spec(*t, dir@)->Ok_0);
                }
                Ok(out)
            },
        }
    }
}

/// Gather the projects reachable from one root directory of the snapshot.
pub fn get_maturin_project_info(t: &FsTree, dir: &str) -> (r: Result<Vec<ProjectInfo>, StubError>)
    ensures
        r matches Ok(v) ==> locate_spec(*t, dir@, MAX_WORKSPACE_DEPTH as nat) == Ok::<
            Seq<ProjectModel>,
            crate::stubgen::ErrorModel,
        >(v.deep_view()),
        r matches Err(e) ==> locate_spec(*t, dir@, MAX_WORKSPACE_DEPTH as nat) == Err::<
            Seq<ProjectModel>,
            crate::stubgen::ErrorModel,
        >(e@),
{
    locate_in_dir(t, dir, MAX_WORKSPACE_DEPTH)
}

/// Resolve every project of the invocation root: the root is either a
/// single bridge-toolchain project or a workspace whose members are scanned
/// in declared order.
pub fn locate_python_project(t: &FsTree) -> (r: Result<Vec<ProjectInfo>, StubError>)
    ensures
        r matches Ok(v) ==> locate_spec(*t, ""@, MAX_WORKSPACE_DEPTH as nat) == Ok::<
            Seq<ProjectModel>,
            crate::stubgen::ErrorModel,
        >(v.deep_view()),
        r matches Err(e) ==> locate_spec(*t, ""@, MAX_WORKSPACE_DEPTH as nat) == Err::<
            Seq<ProjectModel>,
            crate::stubgen::ErrorModel,
        >(e@),
{
    get_maturin_project_info(t, "")
}

} // verus!
