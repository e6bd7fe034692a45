use fpcli::{
    resolve_application, resolve_modules, Application, LoadError, ManifestStore, Module,
    ModuleItem, ResolveError,
};

fn module(name: &str, modules: Vec<ModuleItem>) -> Module {
    let mut m = Module::new(name.to_string());
    m.modules = modules;
    m
}

fn path(p: &str) -> ModuleItem {
    ModuleItem::Path(p.to_string())
}

fn names(items: &[ModuleItem]) -> Vec<String> {
    let mut out = vec![];
    for item in items {
        match item {
            ModuleItem::Path(p) => out.push(format!("path:{}", p)),
            ModuleItem::Description(m) => {
                out.push(m.name.clone());
                for n in names(&m.modules) {
                    out.push(format!("{}/{}", m.name, n));
                }
            }
        }
    }
    out
}

#[test]
fn resolve_keeps_order_and_inlines_paths() {
    let mut store = ManifestStore::new();
    store.insert("base/x.json".to_string(), Ok(module("x", vec![])));
    let items = vec![
        ModuleItem::Description(module("a", vec![ModuleItem::Description(module("b", vec![]))])),
        path("x.json"),
        ModuleItem::Description(module("c", vec![])),
    ];
    let r = resolve_modules("base", &items, &store).unwrap();
    assert_eq!(names(&r), vec!["a", "a/b", "x", "c"]);
}

#[test]
fn inline_module_keeps_base_directory() {
    let mut store = ManifestStore::new();
    store.insert("base/y.json".to_string(), Ok(module("y", vec![])));
    let items = vec![ModuleItem::Description(module("a", vec![path("y.json")]))];
    let r = resolve_modules("base", &items, &store).unwrap();
    assert_eq!(names(&r), vec!["a", "a/y"]);
}

#[test]
fn nested_reference_is_read_from_reference_directory() {
    let mut store = ManifestStore::new();
    store.insert("./a/b.json".to_string(), Ok(module("b", vec![path("c.json")])));
    let items = vec![path("a/b.json")];
    match resolve_modules(".", &items, &store) {
        Err(ResolveError::Missing { path }) => assert_eq!(path, "a/c.json"),
        other => panic!("unexpected result {:?}", other),
    }
    store.insert("a/c.json".to_string(), Ok(module("c", vec![])));
    let r = resolve_modules(".", &items, &store).unwrap();
    assert_eq!(names(&r), vec!["b", "b/c"]);
    let r = resolve_modules("/elsewhere", &vec![path("/x/a/b.json")], &{
        let mut s = ManifestStore::new();
        s.insert("/x/a/b.json".to_string(), Ok(module("b", vec![path("c.json")])));
        s.insert("/x/a/c.json".to_string(), Ok(module("c", vec![])));
        s
    })
    .unwrap();
    assert_eq!(names(&r), vec!["b", "b/c"]);
}

#[test]
fn reference_without_directory_is_read_as_is() {
    let mut store = ManifestStore::new();
    store.insert("b.json".to_string(), Ok(module("b", vec![path("c.json")])));
    store.insert("c.json".to_string(), Ok(module("c", vec![])));
    let r = resolve_modules("", &vec![path("b.json")], &store).unwrap();
    assert_eq!(names(&r), vec!["b", "b/c"]);
}

#[test]
fn missing_reference_fails_with_not_found() {
    let mut store = ManifestStore::new();
    store.insert("missing.json".to_string(), Err(LoadError::NotFound));
    let items = vec![ModuleItem::Description(module("a", vec![])), path("missing.json")];
    match resolve_modules("", &items, &store) {
        Err(ResolveError::Unreadable { reference, file, error: LoadError::NotFound }) => {
            assert_eq!(reference, "missing.json");
            assert_eq!(file, "missing.json");
        }
        other => panic!("unexpected result {:?}", other),
    }
}

#[test]
fn failed_resolution_leaves_application_unchanged() {
    let mut store = ManifestStore::new();
    store.insert("dir/missing.json".to_string(), Err(LoadError::NotFound));
    let mut app = Application {
        id: "org.example.App".to_string(),
        runtime: "rt".to_string(),
        runtime_version: "1".to_string(),
        sdk: "sdk".to_string(),
        finish_args: vec![],
        modules: vec![path("missing.json"), ModuleItem::Description(module("m", vec![]))],
    };
    let r = resolve_application("dir/app.json", &mut app, &store);
    assert!(matches!(r, Err(ResolveError::Unreadable { .. })));
    assert_eq!(names(&app.modules), vec!["path:missing.json", "m"]);
}

#[test]
fn resolve_application_reads_from_manifest_directory() {
    let mut store = ManifestStore::new();
    store.insert("dir/m.json".to_string(), Ok(module("m", vec![])));
    let mut app = Application {
        id: "org.example.App".to_string(),
        runtime: "rt".to_string(),
        runtime_version: "1".to_string(),
        sdk: "sdk".to_string(),
        finish_args: vec![],
        modules: vec![path("m.json")],
    };
    resolve_application("dir/app.json", &mut app, &store).unwrap();
    assert_eq!(names(&app.modules), vec!["m"]);
    assert_eq!(app.id, "org.example.App");
}

#[test]
fn invalid_file_reports_cause() {
    let mut store = ManifestStore::new();
    store.insert("d/bad.json".to_string(), Err(LoadError::Invalid("no name".to_string())));
    match resolve_modules("d", &vec![path("bad.json")], &store) {
        Err(ResolveError::Unreadable { reference, file, error: LoadError::Invalid(cause) }) => {
            assert_eq!(reference, "bad.json");
            assert_eq!(file, "d/bad.json");
            assert_eq!(cause, "no name");
        }
        other => panic!("unexpected result {:?}", other),
    }
}

#[test]
fn first_failure_in_order_is_reported() {
    let mut store = ManifestStore::new();
    store.insert("two.json".to_string(), Err(LoadError::NotFound));
    let items = vec![path("one.json"), path("two.json")];
    match resolve_modules("", &items, &store) {
        Err(ResolveError::Missing { path }) => assert_eq!(path, "one.json"),
        other => panic!("unexpected result {:?}", other),
    }
}

#[test]
fn reference_cycle_is_too_deep() {
    let mut store = ManifestStore::new();
    store.insert("loop.json".to_string(), Ok(module("loop", vec![path("loop.json")])));
    let r = resolve_modules("", &vec![path("loop.json")], &store);
    assert!(matches!(r, Err(ResolveError::TooDeep)));
}

#[test]
fn later_insert_replaces_earlier() {
    let mut store = ManifestStore::new();
    store.insert("a.json".to_string(), Err(LoadError::NotFound));
    store.insert("a.json".to_string(), Ok(module("a", vec![])));
    let r = resolve_modules("", &vec![path("a.json")], &store).unwrap();
    assert_eq!(names(&r), vec!["a"]);
}

#[test]
fn resolution_is_deterministic() {
    let mut store = ManifestStore::new();
    store.insert("a/b.json".to_string(), Ok(module("b", vec![path("c.json")])));
    store.insert("c.json".to_string(), Ok(module("c", vec![])));
    let items = vec![path("b.json"), ModuleItem::Description(module("d", vec![]))];
    let r1 = resolve_modules("a", &items, &store).unwrap();
    let r2 = resolve_modules("a", &items, &store).unwrap();
    assert_eq!(names(&r1), names(&r2));
    assert_eq!(names(&r1), vec!["b", "b/c", "d"]);
}

#[test]
fn unreadable_error_names_the_reference() {
    let mut store = ManifestStore::new();
    store.insert("./missing.json".to_string(), Err(LoadError::NotFound));
    match resolve_modules(".", &vec![path("missing.json")], &store) {
        Err(ResolveError::Unreadable { reference, file, error: LoadError::NotFound }) => {
            assert_eq!(reference, "missing.json");
            assert_eq!(file, "./missing.json");
        }
        other => panic!("unexpected result {:?}", other),
    }
}

#[test]
fn resolving_inline_forest_changes_nothing() {
    let store = ManifestStore::new();
    let items = vec![
        ModuleItem::Description(module("a", vec![ModuleItem::Description(module("b", vec![]))])),
        ModuleItem::Description(module("c", vec![])),
    ];
    let r = resolve_modules("x", &items, &store).unwrap();
    assert_eq!(names(&r), names(&items));
}
