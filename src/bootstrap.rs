//! Skeletons of manifests: a source, a module and an application built
//! from an optional origin URL.
use vstd::prelude::*;
use crate::manifest::{
    empty_rest, opt_str, strs_view, ApplicationModel, Application, ItemModel, Module, ModuleItem,
    ModuleModel, Source, SourceItem, SourceItemModel, SourceModel, SourceType,
};
use crate::text::{chars_of, string_of};

verus! {

/// The branch that a bootstrapped Git source follows.
pub const DEFAULT_GIT_BRANCH: &'static str = "master";

/// The name a project gets when none can be derived from its URL.
pub const PLACEHOLDER_PROJECT_NAME: &'static str = "project-name";

/// Whether `s` ends with `.git`.
pub open spec fn ends_with_git(s: Seq<char>) -> bool {
    s.len() >= 4 && git_at(s, s.len() - 4)
}

/// Whether `.git` stands in `s` at index `i`.
pub open spec fn git_at(s: Seq<char>, i: int) -> bool {
    &&& 0 <= i
    &&& i + 4 <= s.len()
    &&& s[i] == '.'
    &&& s[i + 1] == 'g'
    &&& s[i + 2] == 'i'
    &&& s[i + 3] == 't'
}

/// The text after the last `/` of `s`; all of `s` when it holds no `/`.
pub open spec fn last_segment(s: Seq<char>) -> Seq<char>
    decreases s.len(),
{
    if s.len() == 0 {
        s
    } else if s[s.len() - 1] == '/' {
        Seq::empty()
    } else {
        last_segment(s.subrange(0, s.len() - 1)).push(s[s.len() - 1])
    }
}

/// The project name of a Git URL: for a URL that ends with `.git`, the last
/// `/`-separated segment of what stands before that suffix; none otherwise.
pub open spec fn git_project_name(url: Seq<char>) -> Option<Seq<char>> {
    if ends_with_git(url) {
        Some(last_segment(url.subrange(0, url.len() - 4)))
    } else {
        None
    }
}

/// What the archive heuristic of the manifest library derives from a URL.
pub uninterp spec fn archive_project_name(url: Seq<char>) -> Option<Seq<char>>;

/// Relies on `flatpak_rs::archive::get_project_name_from_url`: the project
/// name that it reads off an archive's file name, if any; the result depends
/// on the URL alone.
#[verifier::external_body]
fn project_name_from_archive_url(url: &str) -> (r: Option<String>)
    ensures
        opt_str(r) == archive_project_name(url@),
{
    flatpak_rs::archive::get_project_name_from_url(url)
}

fn last_segment_exec(s: &Vec<char>) -> (r: Vec<char>)
    ensures
        r@ == last_segment(s@),
{
    let mut seg: Vec<char> = Vec::new();
    for i in 0..s.len()
        invariant
            seg@ == last_segment(s@.subrange(0, i as int)),
    {
        assert(s@.subrange(0, i + 1).subrange(0, i as int) =~= s@.subrange(0, i as int));
        if s[i] == '/' {
            seg = Vec::new();
        } else {
            seg.push(s[i]);
        }
    }
    assert(s@.subrange(0, s.len() as int) =~= s@);
    seg
}

/// The project name of a Git URL: the last path segment before the trailing
/// `.git`, or none when the URL does not end with `.git`.
pub fn get_project_name_from_git_url(url: String) -> (r: Option<String>)
    ensures
        opt_str(r) == git_project_name(url@),
{
    let cs = chars_of(url.as_str());
    let n = cs.len();
    if !(n >= 4 && cs[n - 4] == '.' && cs[n - 3] == 'g' && cs[n - 2] == 'i' && cs[n - 1] == 't') {
        return None;
    }
    let mut stripped: Vec<char> = Vec::new();
    for i in 0..n - 4
        invariant
            n == cs.len(),
            n >= 4,
            stripped@ =~= cs@.subrange(0, i as int),
    {
        stripped.push(cs[i]);
    }
    let name = last_segment_exec(&stripped);
    Some(string_of(&name))
}

/// The source of a skeleton: a Git source on the default branch for a URL
/// that ends with `.git`, an archive for another URL, and the current
/// directory when there is no URL.
pub open spec fn default_source(url: Option<Seq<char>>) -> SourceModel {
    match url {
        Some(u) => if ends_with_git(u) {
            SourceModel {
                source_type: Some(SourceType::Git),
                url: Some(u),
                path: None,
                branch: Some(DEFAULT_GIT_BRANCH@),
            }
        } else {
            SourceModel { source_type: Some(SourceType::Archive), url: Some(u), path: None, branch: None }
        },
        None => SourceModel {
            source_type: Some(SourceType::Dir),
            url: None,
            path: Some("./"@),
            branch: None,
        },
    }
}

/// `project.branch`, the placeholder standing in for a missing project.
pub open spec fn placeholder_name() -> Seq<char> {
    PLACEHOLDER_PROJECT_NAME@ + seq!['.'] + DEFAULT_GIT_BRANCH@
}

/// The name of a skeleton module with `source`: for a Git source,
/// `<project>.<default branch>`; for an archive, `<project>.archive`, with
/// the project that the archive heuristic gave (`archive_name`); the
/// placeholder when no project is known; empty for a source without URL.
pub open spec fn module_name(source: SourceModel, archive_name: Option<Seq<char>>) -> Seq<char> {
    match source.url {
        None => Seq::empty(),
        Some(u) => if source.source_type == Some(SourceType::Git) {
            match git_project_name(u) {
                Some(n) => n + seq!['.'] + DEFAULT_GIT_BRANCH@,
                None => placeholder_name(),
            }
        } else if source.source_type == Some(SourceType::Archive) {
            match archive_name {
                Some(n) => n + ".archive"@,
                None => placeholder_name(),
            }
        } else {
            Seq::empty()
        },
    }
}

/// A skeleton module built on `source`: named by `module_name`, with no
/// build system, build commands or nested modules, and `source` as its one
/// source.
pub open spec fn default_module(source: SourceModel, archive_name: Option<Seq<char>>) -> ModuleModel {
    ModuleModel {
        name: module_name(source, archive_name),
        buildsystem: None,
        build_commands: Seq::empty(),
        sources: seq![SourceItemModel::Description(source)],
        modules: Seq::empty(),
    }
}

/// What the archive heuristic gives for an optional URL.
pub open spec fn archive_name_of(url: Option<Seq<char>>) -> Option<Seq<char>> {
    match url {
        Some(u) => archive_project_name(u),
        None => None,
    }
}

/// The source of a skeleton for an optional origin URL.
pub fn get_default_source(url: Option<String>) -> (r: Source)
    ensures
        r@ == default_source(opt_str(url)),
{
    match url {
        Some(u) => {
            let cs = chars_of(u.as_str());
            let n = cs.len();
            if n >= 4 && cs[n - 4] == '.' && cs[n - 3] == 'g' && cs[n - 2] == 'i' && cs[n - 1] == 't' {
                Source {
                    source_type: Some(SourceType::Git),
                    url: Some(u),
                    path: None,
                    branch: Some(DEFAULT_GIT_BRANCH.to_owned()),
                }
            } else {
                Source { source_type: Some(SourceType::Archive), url: Some(u), path: None, branch: None }
            }
        },
        None => Source {
            source_type: Some(SourceType::Dir),
            url: None,
            path: Some("./".to_owned()),
            branch: None,
        },
    }
}

fn name_with_suffix(project: &String, suffix: &str) -> (r: String)
    ensures
        r@ == project@ + suffix@,
{
    let mut cs = chars_of(project.as_str());
    let mut tail = chars_of(suffix);
    cs.append(&mut tail);
    string_of(&cs)
}

fn placeholder() -> (r: String)
    ensures
        r@ == placeholder_name(),
{
    let mut cs = chars_of(PLACEHOLDER_PROJECT_NAME);
    cs.push('.');
    let mut tail = chars_of(DEFAULT_GIT_BRANCH);
    cs.append(&mut tail);
    assert(cs@ =~= placeholder_name());
    string_of(&cs)
}

/// The skeleton module built on `source`, given what the archive heuristic
/// gave for its URL (it is read only for an archive).
pub fn module_for_source(source: Source, archive_name: Option<String>) -> (r: Module)
    ensures
        r@ == default_module(source@, opt_str(archive_name)),
{
    let ghost s = source@;
    let mut name = String::new();
    match &source.url {
        None => {},
        Some(u) => {
            if source.source_type == Some(SourceType::Git) {
                name = match get_project_name_from_git_url(u.clone()) {
                    Some(project) => {
                        let mut cs = chars_of(project.as_str());
                        cs.push('.');
                        let mut tail = chars_of(DEFAULT_GIT_BRANCH);
                        cs.append(&mut tail);
                        assert(cs@ =~= project@ + seq!['.'] + DEFAULT_GIT_BRANCH@);
                        string_of(&cs)
                    },
                    None => placeholder(),
                };
                assert(name@ == module_name(s, opt_str(archive_name)));
            } else if source.source_type == Some(SourceType::Archive) {
                name = match &archive_name {
                    Some(project) => name_with_suffix(project, ".archive"),
                    None => placeholder(),
                };
                assert(name@ == module_name(s, opt_str(archive_name)));
            }
        },
    }
    let mut sources: Vec<SourceItem> = Vec::new();
    sources.push(SourceItem::Description(source));
    let r = Module {
        name,
        buildsystem: None,
        build_commands: Vec::new(),
        sources,
        modules: Vec::new(),
        rest: empty_rest(),
    };
    assert(strs_view(r.build_commands@) =~= Seq::empty());
    assert(crate::manifest::sources_view(r.sources@) =~= seq![SourceItemModel::Description(s)]);
    assert(crate::manifest::items_view(r.modules@) =~= Seq::empty());
    r
}

/// The skeleton module for an optional origin URL: its one source is
/// `get_default_source(url)`, and its name is derived from the URL.
pub fn get_default_module(url: Option<String>) -> (r: Module)
    ensures
        r@ == default_module(default_source(opt_str(url)), archive_name_of(opt_str(url))),
{
    let source = get_default_source(url);
    let archive_name = if source.source_type == Some(SourceType::Archive) {
        match &source.url {
            Some(u) => project_name_from_archive_url(u.as_str()),
            None => None,
        }
    } else {
        None
    };
    module_for_source(source, archive_name)
}

/// The skeleton application: fixed identity, GNOME runtime and SDK, access
/// to the home directory and to the X11 and Wayland sockets, and the
/// skeleton module for `url` as its one module.
pub open spec fn default_application(module: ModuleModel) -> ApplicationModel {
    ApplicationModel {
        id: "org.example.appName"@,
        runtime: "org.gnome.Platform"@,
        runtime_version: "41"@,
        sdk: "org.gnome.Sdk"@,
        finish_args: seq!["--filesystem=home"@, "--socket=x11"@, "--socket=wayland"@],
        modules: seq![ItemModel::Inline(module)],
    }
}

/// The skeleton application for an optional origin URL, holding
/// `get_default_module(url)`.
pub fn get_default_application(url: Option<String>) -> (r: Application)
    ensures
        r@ == default_application(
            default_module(default_source(opt_str(url)), archive_name_of(opt_str(url))),
        ),
{
    let module = get_default_module(url);
    let mut finish_args: Vec<String> = Vec::new();
    finish_args.push("--filesystem=home".to_owned());
    finish_args.push("--socket=x11".to_owned());
    finish_args.push("--socket=wayland".to_owned());
    let mut modules: Vec<ModuleItem> = Vec::new();
    modules.push(ModuleItem::Description(module));
    let r = Application {
        id: "org.example.appName".to_owned(),
        runtime: "org.gnome.Platform".to_owned(),
        runtime_version: "41".to_owned(),
        sdk: "org.gnome.Sdk".to_owned(),
        finish_args,
        modules,
    };
    assert(strs_view(r.finish_args@) =~= seq!["--filesystem=home"@, "--socket=x11"@, "--socket=wayland"@]);
    proof {
        crate::manifest::lemma_items_view(r.modules@);
    }
    assert(crate::manifest::items_view(r.modules@) =~= seq![ItemModel::Inline(module@)]);
    r
}

} // verus!
