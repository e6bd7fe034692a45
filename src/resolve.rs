//! Resolution of module references: every reference by path is replaced by
//! the module that its file describes, recursively, in order.
use vstd::prelude::*;
use crate::manifest::{
    item_view, items_view, lemma_items_view, lemma_items_view_push, Application,
    ApplicationModel, ItemModel, Module, ModuleItem, ModuleModel,
};
use crate::paths::{join_path, join_path_exec, parent_dir, parent_dir_exec};

verus! {

/// How many levels of nested modules a resolution goes through before it
/// gives up. A reference cycle among manifest files shows as a nesting
/// deeper than this.
pub const MAX_RESOLVE_DEPTH: u64 = 100;

/// Why a manifest file could not be loaded.
#[derive(Debug)]
pub enum LoadError {
    /// There is no file at the path.
    NotFound,
    /// The file could not be read or parsed; the text says why.
    Invalid(String),
}

pub enum LoadErrorModel {
    NotFound,
    Invalid(Seq<char>),
}

impl View for LoadError {
    type V = LoadErrorModel;

    open spec fn view(&self) -> LoadErrorModel {
        match self {
            LoadError::NotFound => LoadErrorModel::NotFound,
            LoadError::Invalid(s) => LoadErrorModel::Invalid(s@),
        }
    }
}

impl LoadError {
    /// A copy of this error.
    pub fn copy(&self) -> (r: LoadError)
        ensures
            r@ == self@,
    {
        match self {
            LoadError::NotFound => LoadError::NotFound,
            LoadError::Invalid(s) => LoadError::Invalid(s.clone()),
        }
    }
}

/// What loading the file at `path` gave.
#[derive(Debug)]
pub struct StoreEntry {
    pub path: String,
    pub outcome: Result<Module, LoadError>,
}

pub type Outcome = Result<ModuleModel, LoadErrorModel>;

pub open spec fn outcome_view(o: Result<Module, LoadError>) -> Outcome {
    match o {
        Ok(m) => Ok(m@),
        Err(e) => Err(e@),
    }
}

/// The manifest files loaded so far, each with what loading it gave. The
/// resolver reads files only through a store.
#[derive(Debug)]
pub struct ManifestStore {
    entries: Vec<StoreEntry>,
}

/// What a store says of `path`: the outcome of its latest entry for that
/// path, if any.
pub open spec fn lookup(entries: Seq<(Seq<char>, Outcome)>, path: Seq<char>) -> Option<Outcome>
    decreases entries.len(),
{
    if entries.len() == 0 {
        None
    } else if entries[entries.len() - 1].0 == path {
        Some(entries[entries.len() - 1].1)
    } else {
        lookup(entries.subrange(0, entries.len() - 1), path)
    }
}

impl View for ManifestStore {
    type V = Seq<(Seq<char>, Outcome)>;

    closed spec fn view(&self) -> Seq<(Seq<char>, Outcome)> {
        self.entries@.map_values(|e: StoreEntry| (e.path@, outcome_view(e.outcome)))
    }
}

impl ManifestStore {
    /// A store with no file in it.
    pub fn new() -> (r: ManifestStore)
        ensures
            r@ == Seq::<(Seq<char>, Outcome)>::empty(),
    {
        let r = ManifestStore { entries: Vec::new() };
        assert(r@ =~= Seq::<(Seq<char>, Outcome)>::empty());
        r
    }

    /// Records what loading the file at `path` gave; it replaces what was
    /// recorded for that path before.
    pub fn insert(&mut self, path: String, outcome: Result<Module, LoadError>)
        ensures
            final(self)@ == old(self)@.push((path@, outcome_view(outcome))),
            lookup(final(self)@, path@) == Some(outcome_view(outcome)),
    {
        let ghost p = path@;
        let ghost o = outcome_view(outcome);
        self.entries.push(StoreEntry { path, outcome });
        assert(self@ =~= old(self)@.push((p, o)));
    }

    /// What the store holds for `path`.
    pub fn get(&self, path: &String) -> (r: Option<&Result<Module, LoadError>>)
        ensures
            match r {
                Some(o) => lookup(self@, path@) == Some(outcome_view(*o)),
                None => lookup(self@, path@) is None,
            },
    {
        let mut i = self.entries.len();
        assert(self@.subrange(0, i as int) =~= self@);
        while i > 0
            invariant
                i <= self.entries.len(),
                lookup(self@, path@) == lookup(self@.subrange(0, i as int), path@),
            decreases i,
        {
            let e = &self.entries[i - 1];
            assert(self@.subrange(0, i as int).subrange(0, i - 1) =~= self@.subrange(0, i - 1));
            if e.path == *path {
                return Some(&e.outcome);
            }
            i = i - 1;
        }
        None
    }
}

/// Why a resolution failed.
#[derive(Debug)]
pub enum ResolveError {
    /// The file at `path` is needed and the store does not hold it yet.
    Missing { path: String },
    /// The module reference `reference` could not be resolved: its file,
    /// at `file`, could not be loaded.
    Unreadable { reference: String, file: String, error: LoadError },
    /// The modules nest deeper than the resolution goes.
    TooDeep,
}

pub enum ResolveErrorModel {
    Missing(Seq<char>),
    Unreadable(Seq<char>, Seq<char>, LoadErrorModel),
    TooDeep,
}

impl View for ResolveError {
    type V = ResolveErrorModel;

    open spec fn view(&self) -> ResolveErrorModel {
        match self {
            ResolveError::Missing { path } => ResolveErrorModel::Missing(path@),
            ResolveError::Unreadable { reference, file, error } => ResolveErrorModel::Unreadable(
                reference@,
                file@,
                error@,
            ),
            ResolveError::TooDeep => ResolveErrorModel::TooDeep,
        }
    }
}

/// A list of references resolved from the directory `base`, with `depth`
/// levels of nesting left: the references in order, each resolved, or the
/// error of the first one that fails.
pub open spec fn resolve_list(
    base: Seq<char>,
    items: Seq<ItemModel>,
    store: Seq<(Seq<char>, Outcome)>,
    depth: nat,
) -> Result<Seq<ItemModel>, ResolveErrorModel>
    decreases depth, items.len(),
{
    if items.len() == 0 {
        Ok(Seq::empty())
    } else {
        match resolve_list(base, items.subrange(0, items.len() - 1), store, depth) {
            Err(e) => Err(e),
            Ok(done) => match resolve_item(base, items[items.len() - 1], store, depth) {
                Err(e) => Err(e),
                Ok(it) => Ok(done.push(it)),
            },
        }
    }
}

/// One reference resolved from the directory `base`. A reference by path
/// `p` is the module of the file at `join_path(base, p)`, whose own nested
/// references are resolved from `parent_dir(p)`; an inline module keeps
/// `base` for its nested references.
pub open spec fn resolve_item(
    base: Seq<char>,
    item: ItemModel,
    store: Seq<(Seq<char>, Outcome)>,
    depth: nat,
) -> Result<ItemModel, ResolveErrorModel>
    decreases depth, 0nat,
{
    if depth == 0 {
        Err(ResolveErrorModel::TooDeep)
    } else {
        match item {
            ItemModel::Path(p) => {
                let file = join_path(base, p);
                match lookup(store, file) {
                    None => Err(ResolveErrorModel::Missing(file)),
                    Some(Err(e)) => Err(ResolveErrorModel::Unreadable(p, file, e)),
                    Some(Ok(m)) => match resolve_list(parent_dir(p), m.modules, store, (depth - 1) as nat) {
                        Err(e) => Err(e),
                        Ok(c) => Ok(ItemModel::Inline(ModuleModel { modules: c, ..m })),
                    },
                }
            },
            ItemModel::Inline(m) => match resolve_list(base, m.modules, store, (depth - 1) as nat) {
                Err(e) => Err(e),
                Ok(c) => Ok(ItemModel::Inline(ModuleModel { modules: c, ..m })),
            },
        }
    }
}

/// A failure in the first `k` references is the failure of the whole list.
pub proof fn lemma_prefix_error(
    base: Seq<char>,
    items: Seq<ItemModel>,
    store: Seq<(Seq<char>, Outcome)>,
    depth: nat,
    k: int,
)
    requires
        0 <= k <= items.len(),
        resolve_list(base, items.subrange(0, k), store, depth) is Err,
    ensures
        resolve_list(base, items, store, depth) == resolve_list(base, items.subrange(0, k), store, depth),
    decreases items.len(),
{
    if k == items.len() {
        assert(items.subrange(0, k) =~= items);
    } else {
        let shorter = items.subrange(0, items.len() - 1);
        assert(shorter.subrange(0, k) =~= items.subrange(0, k));
        lemma_prefix_error(base, shorter, store, depth, k);
    }
}

pub open spec fn resolved_as(
    r: Result<Vec<ModuleItem>, ResolveError>,
    s: Result<Seq<ItemModel>, ResolveErrorModel>,
) -> bool {
    match r {
        Ok(v) => s == Ok::<Seq<ItemModel>, ResolveErrorModel>(items_view(v@)),
        Err(e) => s == Err::<Seq<ItemModel>, ResolveErrorModel>(e@),
    }
}

fn resolve_item_exec(base: &str, item: &ModuleItem, store: &ManifestStore, depth: u64) -> (r:
    Result<ModuleItem, ResolveError>)
    ensures
        match r {
            Ok(it) => resolve_item(base@, item@, store@, depth as nat) == Ok::<ItemModel, ResolveErrorModel>(it@),
            Err(e) => resolve_item(base@, item@, store@, depth as nat) == Err::<ItemModel, ResolveErrorModel>(e@),
        },
    decreases depth, 0nat,
{
    if depth == 0 {
        return Err(ResolveError::TooDeep);
    }
    match item {
        ModuleItem::Path(p) => {
            let file = join_path_exec(base, p.as_str());
            match store.get(&file) {
                None => Err(ResolveError::Missing { path: file }),
                Some(Err(e)) => Err(
                    ResolveError::Unreadable { reference: p.clone(), file, error: e.copy() },
                ),
                Some(Ok(m)) => {
                    let child_base = parent_dir_exec(p.as_str());
                    match resolve_list_exec(child_base.as_str(), &m.modules, store, depth - 1) {
                        Err(e) => Err(e),
                        Ok(c) => Ok(ModuleItem::Description(m.with_modules(c))),
                    }
                },
            }
        },
        ModuleItem::Description(m) => {
            match resolve_list_exec(base, &m.modules, store, depth - 1) {
                Err(e) => Err(e),
                Ok(c) => Ok(ModuleItem::Description(m.with_modules(c))),
            }
        },
    }
}

fn resolve_list_exec(base: &str, items: &Vec<ModuleItem>, store: &ManifestStore, depth: u64) -> (r:
    Result<Vec<ModuleItem>, ResolveError>)
    ensures
        resolved_as(r, resolve_list(base@, items_view(items@), store@, depth as nat)),
    decreases depth, 1nat,
{
    let ghost all = items_view(items@);
    proof {
        lemma_items_view(items@);
    }
    let mut out: Vec<ModuleItem> = Vec::new();
    for i in 0..items.len()
        invariant
            all == items_view(items@),
            all.len() == items.len(),
            forall|j: int| 0 <= j < items.len() ==> #[trigger] all[j] == item_view(items@[j]),
            resolve_list(base@, all.subrange(0, i as int), store@, depth as nat)
                == Ok::<Seq<ItemModel>, ResolveErrorModel>(items_view(out@)),
    {
        let ghost prefix = all.subrange(0, i + 1);
        assert(prefix.subrange(0, i as int) =~= all.subrange(0, i as int));
        assert(prefix[i as int] == item_view(items@[i as int]));
        match resolve_item_exec(base, &items[i], store, depth) {
            Err(e) => {
                proof {
                    lemma_prefix_error(base@, all, store@, depth as nat, i + 1);
                }
                return Err(e);
            },
            Ok(it) => {
                proof {
                    lemma_items_view_push(out@, it);
                }
                out.push(it);
            },
        }
    }
    assert(all.subrange(0, items.len() as int) =~= all);
    Ok(out)
}

/// Resolves `module_items` from the directory `base_path`: each reference
/// by path becomes the module of its file, with its own nested references
/// resolved from the directory part of the reference; each inline module
/// keeps `base_path` for its nested references. The order of references is
/// kept at every level. Fails with the error of the first reference, in
/// order, that cannot be resolved.
pub fn resolve_modules(base_path: &str, module_items: &Vec<ModuleItem>, store: &ManifestStore) -> (r:
    Result<Vec<ModuleItem>, ResolveError>)
    ensures
        resolved_as(
            r,
            resolve_list(base_path@, items_view(module_items@), store@, MAX_RESOLVE_DEPTH as nat),
        ),
{
    resolve_list_exec(base_path, module_items, store, MAX_RESOLVE_DEPTH)
}

/// Resolves the modules of the application whose manifest is at `path`,
/// from the directory part of `path`. On failure the application is left
/// as it was.
pub fn resolve_application(path: &str, application: &mut Application, store: &ManifestStore) -> (r:
    Result<(), ResolveError>)
    ensures
        match resolve_list(
            parent_dir(path@),
            old(application)@.modules,
            store@,
            MAX_RESOLVE_DEPTH as nat,
        ) {
            Ok(resolved) => r is Ok && final(application)@ == (ApplicationModel {
                modules: resolved,
                ..old(application)@
            }),
            Err(e) => (r matches Err(x) && x@ == e) && *final(application) == *old(application),
        },
{
    let base = parent_dir_exec(path);
    match resolve_modules(base.as_str(), &application.modules, store) {
        Ok(resolved) => {
            application.modules = resolved;
            Ok(())
        },
        Err(e) => Err(e),
    }
}

} // verus!
