//! Rendering a module forest as an indented tree, one line per reference.
use vstd::prelude::*;
use crate::manifest::{item_view, items_view, lemma_items_view, strs_view, ItemModel, ModuleItem};
use crate::text::{chars_of, string_of};

verus! {

/// The bound on depth used when none is given; it covers any realistic
/// manifest.
pub const DEFAULT_MAX_DEPTH: i64 = 1000;

/// Two spaces for each level of depth.
pub open spec fn indent(depth: int) -> Seq<char>
    decreases depth,
{
    if depth <= 0 {
        Seq::empty()
    } else {
        indent(depth - 1) + seq![' ', ' ']
    }
}

/// The line of one reference at `depth`: the indentation, the marker `↪`,
/// a space, and the label.
pub open spec fn tree_line(depth: int, label: Seq<char>) -> Seq<char> {
    indent(depth) + seq!['↪', ' '] + label
}

/// A reference is shown by its path, a module by its name.
pub open spec fn item_label(item: ItemModel) -> Seq<char> {
    match item {
        ItemModel::Path(p) => p,
        ItemModel::Inline(m) => m.name,
    }
}

/// The lines of `items` at `depth`, in pre-order: nothing once `depth` is
/// past `max_depth`; else each reference's line, followed, for an inline
/// module, by the lines of its nested modules one level deeper.
pub open spec fn tree_lines(items: Seq<ItemModel>, depth: int, max_depth: int) -> Seq<Seq<char>>
    decreases items,
{
    if depth > max_depth || items.len() == 0 {
        Seq::empty()
    } else {
        tree_lines(items.subrange(0, items.len() - 1), depth, max_depth) + item_tree_lines(
            items[items.len() - 1],
            depth,
            max_depth,
        )
    }
}

/// The lines of one reference at `depth`, with those of its nested modules.
pub open spec fn item_tree_lines(item: ItemModel, depth: int, max_depth: int) -> Seq<Seq<char>>
    decreases item,
{
    match item {
        ItemModel::Path(p) => seq![tree_line(depth, p)],
        ItemModel::Inline(m) => seq![tree_line(depth, m.name)] + tree_lines(m.modules, depth + 1, max_depth),
    }
}

fn line_of(depth: i64, label: &String) -> (r: String)
    ensures
        r@ == tree_line(depth as int, label@),
{
    let mut cs: Vec<char> = Vec::new();
    let mut n: i64 = 0;
    while n < depth
        invariant
            0 <= n,
            depth > 0 ==> n <= depth,
            depth <= 0 ==> n == 0,
            cs@ =~= indent(n as int),
        decreases depth - n,
    {
        cs.push(' ');
        cs.push(' ');
        n = n + 1;
    }
    assert(cs@ =~= indent(depth as int)) by {
        if depth <= 0 {
            assert(indent(depth as int) =~= indent(0));
        }
    }
    cs.push('↪');
    cs.push(' ');
    let mut l = chars_of(label.as_str());
    cs.append(&mut l);
    string_of(&cs)
}

/// The lines of the tree of `module_items`, starting at `depth`: each line
/// holds two spaces per level, the marker `↪`, and the module's name or
/// the reference's path. Nested modules are shown one level deeper, down
/// to `max_depth` included.
pub fn module_tree_lines(module_items: &Vec<ModuleItem>, depth: i64, max_depth: i64) -> (r: Vec<String>)
    ensures
        strs_view(r@) == tree_lines(items_view(module_items@), depth as int, max_depth as int),
    decreases max_depth - depth,
{
    let ghost all = items_view(module_items@);
    proof {
        lemma_items_view(module_items@);
    }
    let mut out: Vec<String> = Vec::new();
    if depth > max_depth {
        return out;
    }
    for i in 0..module_items.len()
        invariant
            depth <= max_depth,
            all == items_view(module_items@),
            all.len() == module_items.len(),
            forall|j: int| 0 <= j < module_items.len() ==> #[trigger] all[j] == item_view(module_items@[j]),
            strs_view(out@) == tree_lines(all.subrange(0, i as int), depth as int, max_depth as int),
    {
        let ghost prefix = all.subrange(0, i + 1);
        assert(prefix.subrange(0, i as int) =~= all.subrange(0, i as int));
        let ghost before = out@;
        match &module_items[i] {
            ModuleItem::Path(p) => {
                out.push(line_of(depth, p));
                assert(strs_view(out@) =~= strs_view(before) + item_tree_lines(all[i as int], depth as int, max_depth as int));
            },
            ModuleItem::Description(m) => {
                out.push(line_of(depth, &m.name));
                let ghost mid = out@;
                let mut nested = if depth < max_depth {
                    module_tree_lines(&m.modules, depth + 1, max_depth)
                } else {
                    Vec::new()
                };
                assert(strs_view(nested@) == tree_lines(items_view(m.modules@), depth + 1, max_depth as int));
                out.append(&mut nested);
                assert(strs_view(out@) =~= strs_view(before) + item_tree_lines(all[i as int], depth as int, max_depth as int));
            },
        }
    }
    assert(all.subrange(0, module_items.len() as int) =~= all);
    out
}

} // verus!
