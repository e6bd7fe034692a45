use fpcli::{module_tree_lines, Module, ModuleItem, DEFAULT_MAX_DEPTH};

fn sample() -> Vec<ModuleItem> {
    let mut b = Module::new("b".to_string());
    b.modules = vec![ModuleItem::Path("c.json".to_string())];
    let mut a = Module::new("a".to_string());
    a.modules = vec![ModuleItem::Description(b)];
    vec![ModuleItem::Description(a), ModuleItem::Path("x.json".to_string())]
}

#[test]
fn depth_zero_shows_roots_only() {
    assert_eq!(module_tree_lines(&sample(), 0, 0), vec!["↪ a", "↪ x.json"]);
}

#[test]
fn default_bound_shows_whole_tree() {
    assert_eq!(
        module_tree_lines(&sample(), 0, DEFAULT_MAX_DEPTH),
        vec!["↪ a", "  ↪ b", "    ↪ c.json", "↪ x.json"]
    );
}

#[test]
fn bound_is_inclusive() {
    assert_eq!(module_tree_lines(&sample(), 0, 1), vec!["↪ a", "  ↪ b", "↪ x.json"]);
}

#[test]
fn start_past_bound_shows_nothing() {
    assert!(module_tree_lines(&sample(), 3, 2).is_empty());
    assert!(module_tree_lines(&sample(), 0, -1).is_empty());
}

#[test]
fn negative_depth_has_no_indent() {
    assert_eq!(module_tree_lines(&sample(), -1, -1), vec!["↪ a", "↪ x.json"]);
}

#[test]
fn empty_forest_has_no_lines() {
    assert!(module_tree_lines(&vec![], 0, DEFAULT_MAX_DEPTH).is_empty());
}
