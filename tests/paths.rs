use fpcli::paths::{join_path_exec, parent_dir_exec};

#[test]
fn parent_of_reference_paths() {
    assert_eq!(parent_dir_exec("a/b.json"), "a");
    assert_eq!(parent_dir_exec("a/b/c.json"), "a/b");
    assert_eq!(parent_dir_exec("b.json"), "");
    assert_eq!(parent_dir_exec("/b.json"), "/");
    assert_eq!(parent_dir_exec(""), "");
    assert_eq!(parent_dir_exec("a/b/"), "a");
    assert_eq!(parent_dir_exec("a//b.json"), "a");
    assert_eq!(parent_dir_exec("/"), "");
    assert_eq!(parent_dir_exec("//b"), "/");
}

#[test]
fn join_reference_paths() {
    assert_eq!(join_path_exec("a", "c.json"), "a/c.json");
    assert_eq!(join_path_exec("", "c.json"), "c.json");
    assert_eq!(join_path_exec(".", "a/b.json"), "./a/b.json");
    assert_eq!(join_path_exec("base", "/abs/c.json"), "/abs/c.json");
}
