//! Builds the menu tree out of the flat list of menu records.

use vstd::prelude::*;

verus! {

broadcast use vstd::std_specs::vec::axiom_vec_index_decreases;

/// Plain image of one menu row: the fields the tree builder reads. A root
/// menu has `parent_id` 0; children point at their parent's `id`.
#[derive(Debug, PartialEq, Eq)]
pub struct MenuRecord {
    pub id: i64,
    pub parent_id: i64,
    pub name: String,
}

impl Clone for MenuRecord {
    fn clone(&self) -> (r: Self)
        ensures
            r == *self,
    {
        MenuRecord { id: self.id, parent_id: self.parent_id, name: self.name.clone() }
    }
}

/// One node of the menu tree: a record together with its subtree.
#[derive(Debug)]
pub struct MenuNode {
    pub id: i64,
    pub label: String,
    pub menu: MenuRecord,
    pub children: Vec<MenuNode>,
}

/// Mathematical image of one tree node.
#[verifier::ext_equal]
pub struct MenuNodeView {
    pub id: i64,
    pub label: Seq<char>,
    pub menu: MenuRecord,
    pub children: Seq<MenuNodeView>,
}

/// The image of one node, subtree included.
pub open spec fn node_view(n: MenuNode) -> MenuNodeView
    decreases n,
{
    MenuNodeView {
        id: n.id,
        label: n.label@,
        menu: n.menu,
        children: Seq::new(
            n.children.len() as nat,
            |i: int|
                if 0 <= i < n.children.len() {
                    node_view(n.children[i])
                } else {
                    arbitrary()
                },
        ),
    }
}

/// The image of a forest of nodes.
pub open spec fn nodes_view(s: Seq<MenuNode>) -> Seq<MenuNodeView> {
    Seq::new(s.len(), |i: int| node_view(s[i]))
}

/// The forest of nodes whose records, among `all[i..]`, have parent
/// `parent_id`; each node carries the subtree built the same way from the
/// whole list. Well-founded because a child's id is larger than its
/// parent's.
pub open spec fn spec_build_from(all: Seq<MenuRecord>, parent_id: i64, i: int) -> Seq<MenuNodeView>
    decreases i64::MAX - parent_id, all.len() - i,
{
    if i < 0 || i >= all.len() {
        Seq::empty()
    } else {
        let rest = spec_build_from(all, parent_id, i + 1);
        if all[i].parent_id == parent_id && parent_id < all[i].id {
            seq![
                MenuNodeView {
                    id: all[i].id,
                    label: all[i].name@,
                    menu: all[i],
                    children: spec_build_from(all, all[i].id, 0),
                },
            ] + rest
        } else {
            rest
        }
    }
}

/// Builds the forest of menus whose parent is `parent_id`, in list order,
/// each node carrying its recursively built children. Requires the usual
/// shape of menu data: every record's id is larger than its parent id, so
/// parent chains cannot loop.
pub fn build_tree(all_menus: &Vec<MenuRecord>, parent_id: i64) -> (r: Vec<MenuNode>)
    requires
        forall|k: int|
            0 <= k < all_menus@.len() ==> (#[trigger] all_menus@[k]).parent_id < all_menus@[k].id,
    ensures
        nodes_view(r@) == spec_build_from(all_menus@, parent_id, 0),
    decreases i64::MAX - parent_id,
{
    let mut out: Vec<MenuNode> = Vec::new();
    let mut i: usize = all_menus.len();
    proof {
        assert(nodes_view(out@) =~= spec_build_from(all_menus@, parent_id, i as int));
    }
    while i > 0
        invariant
            i <= all_menus@.len(),
            forall|k: int|
                0 <= k < all_menus@.len() ==> (#[trigger] all_menus@[k]).parent_id
                    < all_menus@[k].id,
            nodes_view(out@) == spec_build_from(all_menus@, parent_id, i as int),
        decreases i,
    {
        i = i - 1;
        if all_menus[i].parent_id == parent_id {
            let children = build_tree(all_menus, all_menus[i].id);
            let node = MenuNode {
                id: all_menus[i].id,
                label: all_menus[i].name.clone(),
                menu: all_menus[i].clone(),
                children,
            };
            proof {
                assert(node_view(node).children =~= spec_build_from(
                    all_menus@,
                    all_menus@[i as int].id,
                    0,
                ));
            }
            out.insert(0, node);
            proof {
                assert(nodes_view(out@) =~= spec_build_from(all_menus@, parent_id, i as int));
            }
        } else {
            proof {
                assert(nodes_view(out@) =~= spec_build_from(all_menus@, parent_id, i as int));
            }
        }
    }
    out
}

} // verus!
