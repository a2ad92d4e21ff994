use rustineci::nodes::{create_node, delete_node, list_nodes, rename_node, Node};
use rustineci::tokens::tokenize;

fn names(node_list: &Vec<Node>) -> Vec<String> {
    node_list.iter().map(|n| n.get_name().clone()).collect()
}

#[test]
fn test_create_default_node() {
    let mut node_list: Vec<Node> = vec![];
    let command = tokenize("");

    create_node(&command, &mut node_list);
    assert!(!node_list.is_empty());
    assert_eq!(node_list.len(), 1);
    assert_eq!(node_list.first().unwrap().get_name(), "default");
}

#[test]
fn test_create_specific_node() {
    let mut node_list: Vec<Node> = vec![];
    let command = tokenize("toto");

    create_node(&command, &mut node_list);
    assert!(!node_list.is_empty());
    assert_eq!(node_list.len(), 1);
    assert_eq!(node_list.first().unwrap().get_name(), "toto");
}

#[test]
fn test_deleting_node() {
    let mut node_list: Vec<Node> = vec![];
    let command = tokenize("toto");

    create_node(&command, &mut node_list);
    let command = tokenize("toto");
    delete_node(&command, &mut node_list);
    assert!(node_list.is_empty());
    assert_eq!(node_list.len(), 0);
}

#[test]
fn test_deleting_non_existing_node() {
    let mut node_list: Vec<Node> = vec![];
    let command = tokenize("toto");

    create_node(&command, &mut node_list);
    let command = tokenize("titi");
    delete_node(&command, &mut node_list);
    assert!(!node_list.is_empty());
    assert_eq!(node_list.len(), 1);
}

#[test]
fn test_deleting_node_in_empty_node_list() {
    let mut node_list: Vec<Node> = vec![];
    let command = tokenize("toto");

    delete_node(&command, &mut node_list);
    assert!(node_list.is_empty());
    assert_eq!(node_list.len(), 0);
}

#[test]
fn test_node_renaming() {
    let mut node_list: Vec<Node> = vec![];
    let command = tokenize("toto");

    create_node(&command, &mut node_list);
    let command = tokenize("toto titi");
    rename_node(&command, &mut node_list);
    assert!(!node_list.is_empty());
    assert_eq!(node_list.len(), 1);
    assert_eq!(node_list.first().unwrap().get_name(), "titi");
}

#[test]
fn test_node_renaming_wrong_node_name_given() {
    let mut node_list: Vec<Node> = vec![];
    let command = tokenize("toto");

    create_node(&command, &mut node_list);
    let command = tokenize("titi titi");
    rename_node(&command, &mut node_list);
    assert!(!node_list.is_empty());
    assert_eq!(node_list.len(), 1);
    assert_eq!(node_list.first().unwrap().get_name(), "toto");
}

#[test]
fn test_node_renaming_no_new_name_given() {
    let mut node_list: Vec<Node> = vec![];
    let command = tokenize("toto");

    create_node(&command, &mut node_list);
    let command = tokenize("toto");
    rename_node(&command, &mut node_list);
    assert!(!node_list.is_empty());
    assert_eq!(node_list.len(), 1);
    assert_eq!(node_list.first().unwrap().get_name(), "toto");
}

#[test]
fn test_node_get_name() {
    let default_node: Node = Node::default();

    assert_eq!(default_node.get_name(), "default");
}

#[test]
fn test_node_get_status_string() {
    let default_node: Node = Node::default();

    assert_eq!(default_node.get_status_string(), "STAND BY");
}

#[test]
fn test_node_set_name() {
    let mut default_node: Node = Node::default();

    default_node.set_name(String::from("plouf"));
    assert_eq!(default_node.get_name(), "plouf");
}

#[test]
fn create_reports_name_and_status() {
    let mut node_list: Vec<Node> = vec![];
    let out = create_node(&tokenize(""), &mut node_list);
    assert_eq!(out, vec!["Node default created !\n Status: STAND BY".to_string()]);
    assert_eq!(node_list[0].get_status_string(), "STAND BY");
    let out = create_node(&tokenize("toto extra"), &mut node_list);
    assert_eq!(out, vec!["Node toto created !\n Status: STAND BY".to_string()]);
    assert_eq!(names(&node_list), vec!["default", "toto"]);
}

#[test]
fn creations_are_never_merged() {
    let mut node_list: Vec<Node> = vec![];
    for _ in 0..5 {
        create_node(&tokenize("same"), &mut node_list);
    }
    create_node(&tokenize(""), &mut node_list);
    assert_eq!(node_list.len(), 6);
}

#[test]
fn delete_moves_last_node_into_the_gap() {
    let mut node_list: Vec<Node> = vec![];
    for name in ["a", "b", "c", "d"] {
        create_node(&tokenize(name), &mut node_list);
    }
    let out = delete_node(&tokenize("b"), &mut node_list);
    assert_eq!(out, vec!["Node b deleted".to_string()]);
    assert_eq!(names(&node_list), vec!["a", "d", "c"]);
}

#[test]
fn delete_removes_only_the_first_match() {
    let mut node_list: Vec<Node> = vec![];
    for name in ["x", "y", "x", "z"] {
        create_node(&tokenize(name), &mut node_list);
    }
    delete_node(&tokenize("x"), &mut node_list);
    assert_eq!(names(&node_list), vec!["z", "y", "x"]);
}

#[test]
fn delete_missing_name_changes_nothing() {
    let mut node_list: Vec<Node> = vec![];
    for name in ["a", "b", "c"] {
        create_node(&tokenize(name), &mut node_list);
    }
    let out = delete_node(&tokenize("B"), &mut node_list);
    assert!(out.is_empty());
    assert_eq!(names(&node_list), vec!["a", "b", "c"]);
}

#[test]
fn delete_without_name_reports_it() {
    let mut node_list: Vec<Node> = vec![];
    create_node(&tokenize("a"), &mut node_list);
    let out = delete_node(&tokenize(""), &mut node_list);
    assert_eq!(out, vec!["No node given for deletion".to_string()]);
    assert_eq!(node_list.len(), 1);
}

#[test]
fn rename_changes_every_match() {
    let mut node_list: Vec<Node> = vec![];
    for name in ["a", "b", "a"] {
        create_node(&tokenize(name), &mut node_list);
    }
    let out = rename_node(&tokenize("a c"), &mut node_list);
    assert_eq!(out, vec!["Node renamed: c".to_string(), "Node renamed: c".to_string()]);
    assert_eq!(names(&node_list), vec!["c", "b", "c"]);
}

#[test]
fn rename_with_missing_names_reports_it() {
    let mut node_list: Vec<Node> = vec![];
    create_node(&tokenize("a"), &mut node_list);
    let line = "No node given to rename or no new name given".to_string();
    assert_eq!(rename_node(&tokenize("a"), &mut node_list), vec![line.clone()]);
    assert_eq!(rename_node(&tokenize(""), &mut node_list), vec![line]);
    assert_eq!(names(&node_list), vec!["a"]);
}

#[test]
fn rename_missing_name_is_silent() {
    let mut node_list: Vec<Node> = vec![];
    create_node(&tokenize("toto"), &mut node_list);
    let out = rename_node(&tokenize("titi titi"), &mut node_list);
    assert!(out.is_empty());
    assert_eq!(names(&node_list), vec!["toto"]);
}

#[test]
fn listing_empty_registry() {
    let node_list: Vec<Node> = vec![];
    assert_eq!(
        list_nodes(&node_list),
        vec!["No node found, create some to display their informations when listing.".to_string()]
    );
}

#[test]
fn listing_shows_every_node_in_order() {
    let mut node_list: Vec<Node> = vec![];
    create_node(&tokenize("toto"), &mut node_list);
    create_node(&tokenize(""), &mut node_list);
    assert_eq!(
        list_nodes(&node_list),
        vec![
            "Node list:".to_string(),
            "- Node: toto, Status: STAND BY".to_string(),
            "- Node: default, Status: STAND BY".to_string(),
        ]
    );
}

#[test]
fn scenario_create_then_delete() {
    let mut node_list: Vec<Node> = vec![];
    create_node(&tokenize("toto"), &mut node_list);
    delete_node(&tokenize("toto"), &mut node_list);
    assert!(node_list.is_empty());
}

#[test]
fn scenario_create_then_delete_other() {
    let mut node_list: Vec<Node> = vec![];
    create_node(&tokenize("toto"), &mut node_list);
    delete_node(&tokenize("titi"), &mut node_list);
    assert_eq!(names(&node_list), vec!["toto"]);
}

#[test]
fn scenario_create_then_rename() {
    let mut node_list: Vec<Node> = vec![];
    create_node(&tokenize("toto"), &mut node_list);
    rename_node(&tokenize("toto titi"), &mut node_list);
    assert_eq!(names(&node_list), vec!["titi"]);
}

#[test]
fn describe_shows_name_and_status() {
    let mut n = Node::default();
    assert_eq!(n.describe(), "Node default, status: STAND BY");
    n.set_name("plouf".to_string());
    assert_eq!(n.describe(), "Node plouf, status: STAND BY");
}
