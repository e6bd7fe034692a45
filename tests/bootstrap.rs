use fpcli::{
    get_default_application, get_default_module, get_default_source,
    get_project_name_from_git_url, module_for_source, Source, SourceItem, SourceType,
};

fn only_source(m: &fpcli::Module) -> &Source {
    assert_eq!(m.sources.len(), 1);
    match &m.sources[0] {
        SourceItem::Description(s) => s,
        SourceItem::Path(p) => panic!("unexpected source path {}", p),
    }
}

#[test]
fn git_url_gives_named_module_on_master() {
    let m = get_default_module(Some("https://example.com/project.git".to_string()));
    assert_eq!(m.name, "project.master");
    let s = only_source(&m);
    assert_eq!(s.source_type, Some(SourceType::Git));
    assert_eq!(s.branch.as_deref(), Some("master"));
    assert_eq!(s.url.as_deref(), Some("https://example.com/project.git"));
    assert!(m.modules.is_empty());
    assert!(m.buildsystem.is_none());
}

#[test]
fn no_url_gives_dir_source() {
    let m = get_default_module(None);
    assert_eq!(m.name, "");
    let s = only_source(&m);
    assert_eq!(s.source_type, Some(SourceType::Dir));
    assert_eq!(s.path.as_deref(), Some("./"));
    assert!(s.url.is_none());
    assert!(s.branch.is_none());
}

#[test]
fn archive_url_gives_archive_module() {
    let url = "https://download.gnome.org/core/3.28/3.28.2/sources/libgsf-1.14.43.tar.xz";
    let m = get_default_module(Some(url.to_string()));
    assert_eq!(m.name, "libgsf.archive");
    let s = only_source(&m);
    assert_eq!(s.source_type, Some(SourceType::Archive));
    assert_eq!(s.url.as_deref(), Some(url));
    assert!(s.branch.is_none());
}

#[test]
fn archive_without_project_falls_back_to_placeholder() {
    let m = get_default_module(Some("https://example.com/download.zip".to_string()));
    assert_eq!(m.name, "project-name.master");
}

#[test]
fn module_for_archive_uses_given_project() {
    let s = get_default_source(Some("https://example.com/a.tar.gz".to_string()));
    let m = module_for_source(s, Some("proj".to_string()));
    assert_eq!(m.name, "proj.archive");
    let s = get_default_source(Some("https://example.com/a.tar.gz".to_string()));
    let m = module_for_source(s, None);
    assert_eq!(m.name, "project-name.master");
}

#[test]
fn module_for_dir_source_is_unnamed() {
    let s = get_default_source(None);
    let m = module_for_source(s, Some("ignored".to_string()));
    assert_eq!(m.name, "");
}

#[test]
fn source_for_git_and_archive() {
    let s = get_default_source(Some("git@host:me/x.git".to_string()));
    assert_eq!(s.source_type, Some(SourceType::Git));
    assert_eq!(s.branch.as_deref(), Some("master"));
    assert!(s.path.is_none());
    let s = get_default_source(Some("https://host/x.tar".to_string()));
    assert_eq!(s.source_type, Some(SourceType::Archive));
    assert!(s.branch.is_none());
    assert!(s.path.is_none());
}

#[test]
fn project_name_from_git_urls() {
    assert_eq!(
        get_project_name_from_git_url("https://github.com/louib/flatpak-rs.git".to_string()),
        Some("flatpak-rs".to_string())
    );
    assert_eq!(
        get_project_name_from_git_url("git@github.com:louib/flatpak-rs.git".to_string()),
        Some("flatpak-rs".to_string())
    );
    assert_eq!(get_project_name_from_git_url("https://example.com/x".to_string()), None);
    assert_eq!(get_project_name_from_git_url("".to_string()), None);
    assert_eq!(
        get_project_name_from_git_url("https://user.github.io/site.git".to_string()),
        Some("site".to_string())
    );
    assert_eq!(get_project_name_from_git_url(".git".to_string()), Some("".to_string()));
    assert_eq!(get_project_name_from_git_url("plain.git".to_string()), Some("plain".to_string()));
}

#[test]
fn only_trailing_git_suffix_is_stripped() {
    assert_eq!(
        get_project_name_from_git_url("https://github.com/user/user.github.io.git".to_string()),
        Some("user.github.io".to_string())
    );
    assert_eq!(get_project_name_from_git_url(".git.git".to_string()), Some(".git".to_string()));
    let m = get_default_module(Some(".git.git".to_string()));
    assert_eq!(m.name, ".git.master");
}

#[test]
fn application_defaults() {
    let app = get_default_application(Some("https://example.com/project.git".to_string()));
    assert_eq!(app.id, "org.example.appName");
    assert_eq!(app.runtime, "org.gnome.Platform");
    assert_eq!(app.runtime_version, "41");
    assert_eq!(app.sdk, "org.gnome.Sdk");
    assert_eq!(
        app.finish_args,
        vec!["--filesystem=home", "--socket=x11", "--socket=wayland"]
    );
    assert_eq!(app.modules.len(), 1);
    match &app.modules[0] {
        fpcli::ModuleItem::Description(m) => assert_eq!(m.name, "project.master"),
        fpcli::ModuleItem::Path(p) => panic!("unexpected module path {}", p),
    }
}
