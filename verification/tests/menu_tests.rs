use session_lock::service::menu_service::{build_tree, MenuRecord};

fn menu(id: i64, parent_id: i64, name: &str) -> MenuRecord {
    MenuRecord { id, parent_id, name: name.to_string() }
}

#[test]
fn builds_nested_tree_in_list_order() {
    let all = vec![
        menu(1, 0, "home"),
        menu(2, 1, "reports"),
        menu(3, 1, "settings"),
        menu(4, 0, "admin"),
        menu(5, 3, "profile"),
    ];
    let tree = build_tree(&all, 0);
    assert_eq!(tree.len(), 2);
    assert_eq!(tree[0].id, 1);
    assert_eq!(tree[0].label, "home");
    assert_eq!(tree[0].menu, menu(1, 0, "home"));
    assert_eq!(tree[1].id, 4);
    assert_eq!(tree[1].children.len(), 0);

    let home_children = &tree[0].children;
    assert_eq!(home_children.len(), 2);
    assert_eq!(home_children[0].id, 2);
    assert_eq!(home_children[1].id, 3);
    assert_eq!(home_children[1].children.len(), 1);
    assert_eq!(home_children[1].children[0].label, "profile");
}

#[test]
fn empty_input_gives_empty_tree() {
    let tree = build_tree(&Vec::new(), 0);
    assert_eq!(tree.len(), 0);
}

#[test]
fn unmatched_parent_gives_empty_forest() {
    let all = vec![menu(2, 1, "a")];
    let tree = build_tree(&all, 0);
    assert_eq!(tree.len(), 0);
}
