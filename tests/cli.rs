use rustineci::cli::{match_command, node};
use rustineci::nodes::Node;
use rustineci::tokens::{is_space_char, tokenize};

fn names(node_list: &Vec<Node>) -> Vec<String> {
    node_list.iter().map(|n| n.get_name().clone()).collect()
}

#[test]
fn tokenize_collapses_white_space() {
    assert_eq!(tokenize("  node \t create\n toto  "), vec!["node", "create", "toto"]);
    assert!(tokenize("").is_empty());
    assert!(tokenize(" \t\r\n").is_empty());
    assert_eq!(tokenize("a\u{3000}b\u{a0}c"), vec!["a", "b", "c"]);
    assert_eq!(tokenize("héllo wörld"), vec!["héllo", "wörld"]);
}

#[test]
fn space_test_agrees_with_std() {
    for c in ['a', ' ', '\t', '\n', '\u{b}', '\u{85}', '\u{a0}', '\u{1680}', '\u{2000}', '\u{200a}',
        '\u{200b}', '\u{2028}', '\u{202f}', '\u{205f}', '\u{3000}', '\u{feff}', 'é']
    {
        assert_eq!(is_space_char(c), c.is_whitespace(), "{:?}", c);
    }
}

#[test]
fn exit_ends_the_session() {
    let mut node_list: Vec<Node> = vec![];
    let reply = match_command("exit", &mut node_list);
    assert!(reply.exit);
    assert_eq!(reply.lines, vec!["Bye friend !"]);
    let reply = match_command("  exit now", &mut node_list);
    assert!(reply.exit);
}

#[test]
fn unknown_commands_are_reported() {
    let mut node_list: Vec<Node> = vec![];
    for line in ["", "   ", "nodes create", "Exit", "create toto"] {
        let reply = match_command(line, &mut node_list);
        assert!(!reply.exit);
        assert_eq!(reply.lines, vec!["Wrong command !"]);
    }
    assert!(node_list.is_empty());
}

#[test]
fn unknown_node_commands_are_reported() {
    let mut node_list: Vec<Node> = vec![];
    for line in ["node", "node make toto", "node  LIST"] {
        let reply = match_command(line, &mut node_list);
        assert!(!reply.exit);
        assert_eq!(reply.lines, vec!["Not a node command"]);
    }
    assert!(node_list.is_empty());
}

#[test]
fn node_commands_reach_the_registry() {
    let mut node_list: Vec<Node> = vec![];
    let reply = match_command("node create toto", &mut node_list);
    assert_eq!(reply.lines, vec!["Node toto created !\n Status: STAND BY"]);
    match_command("node   create", &mut node_list);
    assert_eq!(names(&node_list), vec!["toto", "default"]);
    let reply = match_command("node list", &mut node_list);
    assert_eq!(
        reply.lines,
        vec!["Node list:", "- Node: toto, Status: STAND BY", "- Node: default, Status: STAND BY"]
    );
    let reply = match_command("node rename default titi", &mut node_list);
    assert_eq!(reply.lines, vec!["Node renamed: titi"]);
    let reply = match_command("node delete toto", &mut node_list);
    assert_eq!(reply.lines, vec!["Node toto deleted"]);
    assert_eq!(names(&node_list), vec!["titi"]);
    assert!(!reply.exit);
}

#[test]
fn node_takes_sub_command_first() {
    let mut node_list: Vec<Node> = vec![];
    node(&tokenize("create toto"), &mut node_list);
    assert_eq!(names(&node_list), vec!["toto"]);
    let out = node(&tokenize("list"), &mut node_list);
    assert_eq!(out, vec!["Node list:", "- Node: toto, Status: STAND BY"]);
    let out = node(&tokenize(""), &mut node_list);
    assert_eq!(out, vec!["Not a node command"]);
}

#[test]
fn scenario_create_then_rename_without_match() {
    let mut node_list: Vec<Node> = vec![];
    match_command("node create toto", &mut node_list);
    let reply = match_command("node rename titi titi", &mut node_list);
    assert!(reply.lines.is_empty());
    assert_eq!(names(&node_list), vec!["toto"]);
}
