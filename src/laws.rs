//! Properties that relate several calls, or hold of every input.
use vstd::prelude::*;
use crate::manifest::{items_view, ItemModel, ModuleItem, ModuleModel};
use crate::paths::{join_path, parent_dir};
use crate::resolve::{
    lemma_prefix_error, LoadErrorModel, lookup, resolve_item, resolve_list, resolved_as, Outcome, ResolveError, ResolveErrorModel,
};
use crate::tree::{item_label, item_tree_lines, tree_line, tree_lines};

verus! {

/// Resolution is deterministic: two resolutions of the same references,
/// from the same directory, over the same loaded files, give the same tree
/// or the same error.
pub proof fn lemma_resolution_deterministic(
    base: Seq<char>,
    items: Seq<ModuleItem>,
    store: Seq<(Seq<char>, Outcome)>,
    depth: nat,
    r1: Result<Vec<ModuleItem>, ResolveError>,
    r2: Result<Vec<ModuleItem>, ResolveError>,
)
    requires
        resolved_as(r1, resolve_list(base, items_view(items), store, depth)),
        resolved_as(r2, resolve_list(base, items_view(items), store, depth)),
    ensures
        match (r1, r2) {
            (Ok(a), Ok(b)) => items_view(a@) == items_view(b@),
            (Err(x), Err(y)) => x@ == y@,
            _ => false,
        },
{
}

/// Whether every reference of a forest, at every level, is an inline module.
pub open spec fn forest_inline(items: Seq<ItemModel>) -> bool
    decreases items,
{
    items.len() == 0 || (forest_inline(items.subrange(0, items.len() - 1)) && item_inline(
        items[items.len() - 1],
    ))
}

/// Whether a reference is an inline module whose nested references are all
/// inline too.
pub open spec fn item_inline(item: ItemModel) -> bool
    decreases item,
{
    match item {
        ItemModel::Path(_) => false,
        ItemModel::Inline(m) => forest_inline(m.modules),
    }
}

/// A successful resolution leaves no reference by path, at any level, and
/// as many references as it was given.
pub proof fn lemma_resolved_is_inline(
    base: Seq<char>,
    items: Seq<ItemModel>,
    store: Seq<(Seq<char>, Outcome)>,
    depth: nat,
)
    ensures
        resolve_list(base, items, store, depth) matches Ok(out) ==> forest_inline(out) && out.len()
            == items.len(),
    decreases depth, items.len(),
{
    if items.len() > 0 {
        let front = items.subrange(0, items.len() - 1);
        lemma_resolved_is_inline(base, front, store, depth);
        lemma_resolved_item_is_inline(base, items[items.len() - 1], store, depth);
        if let Ok(out) = resolve_list(base, items, store, depth) {
            assert(out.subrange(0, out.len() - 1) =~= resolve_list(base, front, store, depth)->Ok_0);
        }
    }
}

/// `lemma_resolved_is_inline` for one reference.
pub proof fn lemma_resolved_item_is_inline(
    base: Seq<char>,
    item: ItemModel,
    store: Seq<(Seq<char>, Outcome)>,
    depth: nat,
)
    ensures
        resolve_item(base, item, store, depth) matches Ok(it) ==> item_inline(it),
    decreases depth, 0nat,
{
    if depth > 0 {
        match item {
            ItemModel::Path(p) => {
                if let Some(Ok(m)) = lookup(store, join_path(base, p)) {
                    lemma_resolved_is_inline(parent_dir(p), m.modules, store, (depth - 1) as nat);
                }
            },
            ItemModel::Inline(m) => {
                lemma_resolved_is_inline(base, m.modules, store, (depth - 1) as nat);
            },
        }
    }
}

/// Resolution keeps the order of references: the `i`-th reference of the
/// result is the `i`-th reference of the input, resolved.
pub proof fn lemma_resolution_keeps_order(
    base: Seq<char>,
    items: Seq<ItemModel>,
    store: Seq<(Seq<char>, Outcome)>,
    depth: nat,
)
    ensures
        resolve_list(base, items, store, depth) matches Ok(out) ==> {
            &&& out.len() == items.len()
            &&& forall|i: int|
                0 <= i < items.len() ==> #[trigger] resolve_item(base, items[i], store, depth) == Ok::<
                    ItemModel,
                    ResolveErrorModel,
                >(out[i])
        },
    decreases items.len(),
{
    if items.len() > 0 {
        let front = items.subrange(0, items.len() - 1);
        lemma_resolution_keeps_order(base, front, store, depth);
        if let Ok(out) = resolve_list(base, items, store, depth) {
            let done = resolve_list(base, front, store, depth)->Ok_0;
            assert forall|i: int| 0 <= i < items.len() implies #[trigger] resolve_item(
                base,
                items[i],
                store,
                depth,
            ) == Ok::<ItemModel, ResolveErrorModel>(out[i]) by {
                if i < items.len() - 1 {
                    assert(items[i] == front[i]);
                    assert(out[i] == done[i]);
                }
            }
        }
    }
}

/// A reference whose file could not be loaded makes the resolution fail;
/// when every reference before it resolves, the error is that reference's,
/// with the file read for it and the cause.
pub proof fn lemma_unreadable_reference_fails(
    base: Seq<char>,
    items: Seq<ItemModel>,
    store: Seq<(Seq<char>, Outcome)>,
    depth: nat,
    i: int,
    p: Seq<char>,
    cause: LoadErrorModel,
)
    requires
        0 <= i < items.len(),
        depth > 0,
        items[i] == ItemModel::Path(p),
        lookup(store, join_path(base, p)) == Some(Err::<ModuleModel, LoadErrorModel>(cause)),
    ensures
        resolve_list(base, items, store, depth) is Err,
        resolve_list(base, items.subrange(0, i), store, depth) is Ok ==> resolve_list(
            base,
            items,
            store,
            depth,
        ) == Err::<Seq<ItemModel>, ResolveErrorModel>(
            ResolveErrorModel::Unreadable(p, join_path(base, p), cause),
        ),
{
    let upto = items.subrange(0, i + 1);
    assert(upto.subrange(0, i) =~= items.subrange(0, i));
    assert(upto[i] == items[i]);
    assert(upto.subrange(0, upto.len() - 1) == items.subrange(0, i));
    assert(resolve_item(base, upto[upto.len() - 1], store, depth) == Err::<ItemModel, ResolveErrorModel>(
        ResolveErrorModel::Unreadable(p, join_path(base, p), cause),
    ));
    assert(resolve_list(base, upto, store, depth) is Err);
    lemma_prefix_error(base, items, store, depth, i + 1);
}

/// Resolving a forest that is already inline, and no deeper than the
/// resolution goes, gives back the same forest.
pub proof fn lemma_inline_forest_unchanged(
    base: Seq<char>,
    items: Seq<ItemModel>,
    store: Seq<(Seq<char>, Outcome)>,
    depth: nat,
)
    requires
        forest_inline(items),
        forest_height(items) <= depth,
    ensures
        resolve_list(base, items, store, depth) == Ok::<Seq<ItemModel>, ResolveErrorModel>(items),
    decreases depth, items.len(),
{
    if items.len() > 0 {
        let front = items.subrange(0, items.len() - 1);
        lemma_inline_forest_unchanged(base, front, store, depth);
        lemma_inline_item_unchanged(base, items[items.len() - 1], store, depth);
        assert(resolve_list(base, front, store, depth) == Ok::<Seq<ItemModel>, ResolveErrorModel>(front));
        assert(resolve_item(base, items[items.len() - 1], store, depth) == Ok::<ItemModel, ResolveErrorModel>(items[items.len() - 1]));
        assert(front.push(items[items.len() - 1]) =~= items);
    } else {
        assert(items =~= Seq::<ItemModel>::empty());
    }
}

/// `lemma_inline_forest_unchanged` for one reference.
pub proof fn lemma_inline_item_unchanged(
    base: Seq<char>,
    item: ItemModel,
    store: Seq<(Seq<char>, Outcome)>,
    depth: nat,
)
    requires
        item_inline(item),
        item_height(item) <= depth,
    ensures
        resolve_item(base, item, store, depth) == Ok::<ItemModel, ResolveErrorModel>(item),
    decreases depth, 0nat,
{
    if let ItemModel::Inline(m) = item {
        lemma_inline_forest_unchanged(base, m.modules, store, (depth - 1) as nat);
    }
}

/// The nested references of a file are resolved from the directory part of
/// the reference that named it, whatever directory that reference was read
/// from: two directories from which the reference reaches the same loaded
/// module give the same result.
pub proof fn lemma_nested_base_is_reference_dir(
    base1: Seq<char>,
    base2: Seq<char>,
    p: Seq<char>,
    store: Seq<(Seq<char>, Outcome)>,
    depth: nat,
)
    requires
        lookup(store, join_path(base1, p)) == lookup(store, join_path(base2, p)),
        lookup(store, join_path(base1, p)) matches Some(Ok(_)),
    ensures
        resolve_item(base1, ItemModel::Path(p), store, depth) == resolve_item(
            base2,
            ItemModel::Path(p),
            store,
            depth,
        ),
{
}

/// At `depth == max_depth` only the references of the list itself are
/// shown, one line each, and nothing nested.
pub proof fn lemma_tree_at_max_depth(items: Seq<ItemModel>, depth: int)
    ensures
        tree_lines(items, depth, depth) == items.map_values(|it: ItemModel| tree_line(depth, item_label(it))),
    decreases items.len(),
{
    if items.len() > 0 {
        let front = items.subrange(0, items.len() - 1);
        lemma_tree_at_max_depth(front, depth);
        let last = items[items.len() - 1];
        match last {
            ItemModel::Path(_) => {},
            ItemModel::Inline(m) => {
                assert(tree_lines(m.modules, depth + 1, depth) == Seq::<Seq<char>>::empty());
            },
        }
        assert(item_tree_lines(last, depth, depth) =~= seq![tree_line(depth, item_label(last))]);
        assert(tree_lines(items, depth, depth) =~= items.map_values(
            |it: ItemModel| tree_line(depth, item_label(it)),
        ));
    }
}

/// How many levels of references a forest has.
pub open spec fn forest_height(items: Seq<ItemModel>) -> nat
    decreases items,
{
    if items.len() == 0 {
        0
    } else {
        let a = forest_height(items.subrange(0, items.len() - 1));
        let b = item_height(items[items.len() - 1]);
        if a >= b {
            a
        } else {
            b
        }
    }
}

/// How many levels of references a reference and its nested modules have.
pub open spec fn item_height(item: ItemModel) -> nat
    decreases item,
{
    match item {
        ItemModel::Path(_) => 1,
        ItemModel::Inline(m) => 1 + forest_height(m.modules),
    }
}

/// Every line of the forest, in pre-order, with no bound on depth.
pub open spec fn full_tree_lines(items: Seq<ItemModel>, depth: int) -> Seq<Seq<char>>
    decreases items,
{
    if items.len() == 0 {
        Seq::empty()
    } else {
        full_tree_lines(items.subrange(0, items.len() - 1), depth) + full_item_lines(
            items[items.len() - 1],
            depth,
        )
    }
}

/// Every line of a reference and of its nested modules, in pre-order.
pub open spec fn full_item_lines(item: ItemModel, depth: int) -> Seq<Seq<char>>
    decreases item,
{
    match item {
        ItemModel::Path(p) => seq![tree_line(depth, p)],
        ItemModel::Inline(m) => seq![tree_line(depth, m.name)] + full_tree_lines(m.modules, depth + 1),
    }
}

/// A bound on depth that the forest does not exceed cuts nothing: the whole
/// tree is shown. With the default bound of 1000 this covers every forest of
/// up to 1001 levels.
pub proof fn lemma_tree_complete(items: Seq<ItemModel>, depth: int, max_depth: int)
    requires
        depth + forest_height(items) <= max_depth + 1,
    ensures
        tree_lines(items, depth, max_depth) == full_tree_lines(items, depth),
    decreases items,
{
    if items.len() > 0 {
        let front = items.subrange(0, items.len() - 1);
        lemma_tree_complete(front, depth, max_depth);
        lemma_item_complete(items[items.len() - 1], depth, max_depth);
    }
}

/// `lemma_tree_complete` for one reference and its nested modules.
pub proof fn lemma_item_complete(item: ItemModel, depth: int, max_depth: int)
    requires
        depth + item_height(item) <= max_depth + 1,
    ensures
        item_tree_lines(item, depth, max_depth) == full_item_lines(item, depth),
    decreases item,
{
    match item {
        ItemModel::Path(_) => {},
        ItemModel::Inline(m) => {
            lemma_tree_complete(m.modules, depth + 1, max_depth);
        },
    }
}

} // verus!
