//! Module trees of Flatpak manifests: resolving module references into
//! inline descriptions, rendering the tree, and generating manifest
//! skeletons.
pub mod bootstrap;
pub mod install;
pub mod laws;
pub mod manifest;
pub mod paths;
pub mod resolve;
mod text;
pub mod tree;

pub use bootstrap::{
    get_default_application, get_default_module, get_default_source, get_project_name_from_git_url,
    module_for_source, DEFAULT_GIT_BRANCH,
};
pub use install::bare_install;
pub use manifest::{
    Application, BuildSystem, Module, ModuleItem, Source, SourceItem, SourceType,
};
pub use resolve::{
    resolve_application, resolve_modules, LoadError, ManifestStore, ResolveError,
    MAX_RESOLVE_DEPTH,
};
pub use tree::{module_tree_lines, DEFAULT_MAX_DEPTH};
