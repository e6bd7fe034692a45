//! The object model of a manifest, and its mathematical views.
use vstd::prelude::*;

verus! {

/// How a module is built.
#[derive(Clone, Copy, Debug, PartialEq, Eq, Structural)]
pub enum BuildSystem {
    Autotools,
    CMake,
    CMakeNinja,
    QMake,
    Meson,
    Simple,
}

/// What kind of thing a source points at.
#[derive(Clone, Copy, Debug, PartialEq, Eq, Structural)]
pub enum SourceType {
    Archive,
    Git,
    Bazaar,
    Svn,
    Dir,
    File,
    Script,
    Shell,
    Patch,
    ExtraData,
}

/// How to obtain the code of a module.
#[derive(Debug)]
pub struct Source {
    pub source_type: Option<SourceType>,
    pub url: Option<String>,
    pub path: Option<String>,
    pub branch: Option<String>,
}

/// A source, given inline or as the path of a file that describes it.
#[derive(Debug)]
pub enum SourceItem {
    Path(String),
    Description(Source),
}

/// A named unit that is built, with its sources and its nested modules.
#[derive(Debug)]
pub struct Module {
    pub name: String,
    pub buildsystem: Option<BuildSystem>,
    pub build_commands: Vec<String>,
    pub sources: Vec<SourceItem>,
    pub modules: Vec<ModuleItem>,
    /// The fields of the manifest that this model does not read; they are
    /// carried along with the module.
    pub rest: flatpak_rs::module::FlatpakModule,
}

/// A module, given inline or as the path of a file that describes it.
#[derive(Debug)]
pub enum ModuleItem {
    Path(String),
    Description(Module),
}

/// An application: its identity, runtime, sandbox permissions and modules.
#[derive(Debug)]
pub struct Application {
    pub id: String,
    pub runtime: String,
    pub runtime_version: String,
    pub sdk: String,
    pub finish_args: Vec<String>,
    pub modules: Vec<ModuleItem>,
}

/// Outside type: every field of a module manifest, as the codec reads it.
#[verifier::external_type_specification]
#[verifier::external_body]
pub struct ExFlatpakModule(flatpak_rs::module::FlatpakModule);

/// Relies on the derived `Clone` of `FlatpakModule`: it clones every field,
/// so the copy is the same value.
#[verifier::external_body]
fn copy_rest(rest: &flatpak_rs::module::FlatpakModule) -> (r: flatpak_rs::module::FlatpakModule)
    ensures
        r == *rest,
{
    rest.clone()
}

/// Relies on the derived `Default` of `FlatpakModule`; nothing is assumed of
/// the value.
#[verifier::external_body]
pub(crate) fn empty_rest() -> flatpak_rs::module::FlatpakModule {
    flatpak_rs::module::FlatpakModule::default()
}

// ---------------------------------------------------------------------------
// Views

pub struct SourceModel {
    pub source_type: Option<SourceType>,
    pub url: Option<Seq<char>>,
    pub path: Option<Seq<char>>,
    pub branch: Option<Seq<char>>,
}

pub enum SourceItemModel {
    Path(Seq<char>),
    Description(SourceModel),
}

pub struct ModuleModel {
    pub name: Seq<char>,
    pub buildsystem: Option<BuildSystem>,
    pub build_commands: Seq<Seq<char>>,
    pub sources: Seq<SourceItemModel>,
    pub modules: Seq<ItemModel>,
}

pub enum ItemModel {
    Path(Seq<char>),
    Inline(ModuleModel),
}

pub struct ApplicationModel {
    pub id: Seq<char>,
    pub runtime: Seq<char>,
    pub runtime_version: Seq<char>,
    pub sdk: Seq<char>,
    pub finish_args: Seq<Seq<char>>,
    pub modules: Seq<ItemModel>,
}

pub open spec fn opt_str(o: Option<String>) -> Option<Seq<char>> {
    match o {
        Some(s) => Some(s@),
        None => None,
    }
}

pub open spec fn strs_view(v: Seq<String>) -> Seq<Seq<char>> {
    v.map_values(|s: String| s@)
}

impl View for Source {
    type V = SourceModel;

    open spec fn view(&self) -> SourceModel {
        SourceModel {
            source_type: self.source_type,
            url: opt_str(self.url),
            path: opt_str(self.path),
            branch: opt_str(self.branch),
        }
    }
}

impl View for SourceItem {
    type V = SourceItemModel;

    open spec fn view(&self) -> SourceItemModel {
        match self {
            SourceItem::Path(p) => SourceItemModel::Path(p@),
            SourceItem::Description(s) => SourceItemModel::Description(s@),
        }
    }
}

pub open spec fn sources_view(v: Seq<SourceItem>) -> Seq<SourceItemModel> {
    v.map_values(|s: SourceItem| s@)
}

/// The view of a module, nested modules included.
pub open spec fn module_view(m: Module) -> ModuleModel
    decreases m,
{
    ModuleModel {
        name: m.name@,
        buildsystem: m.buildsystem,
        build_commands: strs_view(m.build_commands@),
        sources: sources_view(m.sources@),
        modules: items_view(m.modules@),
    }
}

/// The view of one module reference, nested modules included.
pub open spec fn item_view(item: ModuleItem) -> ItemModel
    decreases item,
{
    match item {
        ModuleItem::Path(p) => ItemModel::Path(p@),
        ModuleItem::Description(m) => ItemModel::Inline(module_view(m)),
    }
}

/// The views of a list of module references, in order.
pub open spec fn items_view(items: Seq<ModuleItem>) -> Seq<ItemModel>
    decreases items,
{
    if items.len() == 0 {
        Seq::empty()
    } else {
        items_view(items.subrange(0, items.len() - 1)).push(item_view(items[items.len() - 1]))
    }
}

impl View for Module {
    type V = ModuleModel;

    open spec fn view(&self) -> ModuleModel {
        module_view(*self)
    }
}

impl View for ModuleItem {
    type V = ItemModel;

    open spec fn view(&self) -> ItemModel {
        item_view(*self)
    }
}

impl View for Application {
    type V = ApplicationModel;

    open spec fn view(&self) -> ApplicationModel {
        ApplicationModel {
            id: self.id@,
            runtime: self.runtime@,
            runtime_version: self.runtime_version@,
            sdk: self.sdk@,
            finish_args: strs_view(self.finish_args@),
            modules: items_view(self.modules@),
        }
    }
}

/// `items_view` maps each reference to its view.
pub proof fn lemma_items_view(items: Seq<ModuleItem>)
    ensures
        items_view(items).len() == items.len(),
        forall|i: int| 0 <= i < items.len() ==> #[trigger] items_view(items)[i] == item_view(items[i]),
    decreases items.len(),
{
    if items.len() > 0 {
        lemma_items_view(items.subrange(0, items.len() - 1));
    }
}

/// Adding a reference at the end adds its view at the end.
pub proof fn lemma_items_view_push(items: Seq<ModuleItem>, item: ModuleItem)
    ensures
        items_view(items.push(item)) == items_view(items).push(item_view(item)),
{
    let s = items.push(item);
    assert(s.subrange(0, s.len() - 1) =~= items);
}

fn copy_opt(o: &Option<String>) -> (r: Option<String>)
    ensures
        opt_str(r) == opt_str(*o),
{
    match o {
        Some(s) => Some(s.clone()),
        None => None,
    }
}

/// A copy of a list of strings.
pub fn copy_strings(v: &Vec<String>) -> (r: Vec<String>)
    ensures
        strs_view(r@) == strs_view(v@),
{
    let mut r: Vec<String> = Vec::new();
    for i in 0..v.len()
        invariant
            r.len() == i,
            forall|j: int| 0 <= j < i ==> #[trigger] r@[j]@ == v@[j]@,
    {
        r.push(v[i].clone());
    }
    assert(strs_view(r@) =~= strs_view(v@));
    r
}

impl Source {
    /// A copy of this source.
    pub fn copy(&self) -> (r: Source)
        ensures
            r@ == self@,
    {
        Source {
            source_type: self.source_type,
            url: copy_opt(&self.url),
            path: copy_opt(&self.path),
            branch: copy_opt(&self.branch),
        }
    }
}

impl SourceItem {
    /// A copy of this source reference.
    pub fn copy(&self) -> (r: SourceItem)
        ensures
            r@ == self@,
    {
        match self {
            SourceItem::Path(p) => SourceItem::Path(p.clone()),
            SourceItem::Description(s) => SourceItem::Description(s.copy()),
        }
    }
}

/// A copy of a list of source references.
pub fn copy_sources(v: &Vec<SourceItem>) -> (r: Vec<SourceItem>)
    ensures
        sources_view(r@) == sources_view(v@),
{
    let mut r: Vec<SourceItem> = Vec::new();
    for i in 0..v.len()
        invariant
            r.len() == i,
            forall|j: int| 0 <= j < i ==> #[trigger] r@[j]@ == v@[j]@,
    {
        r.push(v[i].copy());
    }
    assert(sources_view(r@) =~= sources_view(v@));
    r
}

impl Module {
    /// A module named `name`, with no build system, build commands, sources
    /// or nested modules.
    pub fn new(name: String) -> (r: Module)
        ensures
            r@ == (ModuleModel {
                name: name@,
                buildsystem: None,
                build_commands: Seq::empty(),
                sources: Seq::empty(),
                modules: Seq::empty(),
            }),
    {
        let r = Module {
            name,
            buildsystem: None,
            build_commands: Vec::new(),
            sources: Vec::new(),
            modules: Vec::new(),
            rest: empty_rest(),
        };
        assert(strs_view(r.build_commands@) =~= Seq::empty());
        assert(sources_view(r.sources@) =~= Seq::empty());
        assert(items_view(r.modules@) =~= Seq::empty());
        r
    }

    /// This module with its nested modules replaced by `modules`; the other
    /// fields, those outside the model included, are copied.
    pub fn with_modules(&self, modules: Vec<ModuleItem>) -> (r: Module)
        ensures
            r@ == (ModuleModel { modules: items_view(modules@), ..self@ }),
            r.rest == self.rest,
    {
        Module {
            name: self.name.clone(),
            buildsystem: self.buildsystem,
            build_commands: copy_strings(&self.build_commands),
            sources: copy_sources(&self.sources),
            modules,
            rest: copy_rest(&self.rest),
        }
    }
}

} // verus!
