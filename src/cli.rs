//! The command interpreter: routes one command line to the registry
//! operation it names and collects what is to be shown to the user.

use vstd::prelude::*;

use crate::nodes::{
    create_node, created, creation_line_of, delete_node, deleted_by, deletion_report,
    list_nodes, listing, model, rename_node, renamed_by, renaming_report, Node, NodeView,
};
use crate::tokens::{split_spaces, tokenize, words};

verus! {

/// What a command line produced: the lines to show, and whether the session
/// is to end.
pub struct Reply {
    pub lines: Vec<String>,
    pub exit: bool,
}

/// The line shown when a session ends.
pub open spec fn farewell_line() -> Seq<char> {
    "Bye friend !"@
}

/// The line shown for a command that is not known.
pub open spec fn wrong_command_line() -> Seq<char> {
    "Wrong command !"@
}

/// The line shown for a `node` command that is not known.
pub open spec fn not_node_command_line() -> Seq<char> {
    "Not a node command"@
}

/// The registry after the `node` command with these arguments.
pub open spec fn node_effect(reg: Seq<NodeView>, args: Seq<Seq<char>>) -> Seq<NodeView> {
    if args.len() == 0 {
        reg
    } else if args[0] == "create"@ {
        created(reg, args.drop_first())
    } else if args[0] == "list"@ {
        reg
    } else if args[0] == "delete"@ {
        deleted_by(reg, args.drop_first())
    } else if args[0] == "rename"@ {
        renamed_by(reg, args.drop_first())
    } else {
        reg
    }
}

/// The lines that the `node` command with these arguments shows.
pub open spec fn node_report(reg: Seq<NodeView>, args: Seq<Seq<char>>) -> Seq<Seq<char>> {
    if args.len() == 0 {
        seq![not_node_command_line()]
    } else if args[0] == "create"@ {
        seq![creation_line_of(args.drop_first())]
    } else if args[0] == "list"@ {
        listing(reg)
    } else if args[0] == "delete"@ {
        deletion_report(reg, args.drop_first())
    } else if args[0] == "rename"@ {
        renaming_report(reg, args.drop_first())
    } else {
        seq![not_node_command_line()]
    }
}

/// Whether the tokens ask to end the session.
pub open spec fn is_exit(toks: Seq<Seq<char>>) -> bool {
    toks.len() > 0 && toks[0] == "exit"@
}

/// Whether the tokens are a `node` command.
pub open spec fn is_node(toks: Seq<Seq<char>>) -> bool {
    toks.len() > 0 && toks[0] == "node"@ && !is_exit(toks)
}

/// The registry after the command with these tokens.
pub open spec fn command_effect(reg: Seq<NodeView>, toks: Seq<Seq<char>>) -> Seq<NodeView> {
    if is_node(toks) {
        node_effect(reg, toks.drop_first())
    } else {
        reg
    }
}

/// The lines that the command with these tokens shows.
pub open spec fn command_report(reg: Seq<NodeView>, toks: Seq<Seq<char>>) -> Seq<Seq<char>> {
    if is_exit(toks) {
        seq![farewell_line()]
    } else if is_node(toks) {
        node_report(reg, toks.drop_first())
    } else {
        seq![wrong_command_line()]
    }
}

/// Whether the token is the word `w`.
fn is_word(token: &String, w: &str) -> (r: bool)
    ensures
        r == (token@ == w@),
{
    let w = w.to_owned();
    token.eq(&w)
}

/// The tokens from position `from` on.
fn tokens_from(tokens: &Vec<String>, from: usize) -> (r: Vec<String>)
    requires
        from <= tokens.len(),
    ensures
        words(r@) == words(tokens@).skip(from as int),
{
    let mut r: Vec<String> = Vec::new();
    let mut i: usize = from;
    while i < tokens.len()
        invariant
            from <= i <= tokens.len(),
            words(r@) == words(tokens@).subrange(from as int, i as int),
        decreases tokens.len() - i,
    {
        let ghost before = words(r@);
        let t = tokens[i].clone();
        r.push(t);
        proof {
            assert(words(r@) =~= before.push(tokens@[i as int]@));
            assert(words(r@) =~= words(tokens@).subrange(from as int, i + 1));
        }
        i = i + 1;
    }
    proof {
        assert(words(tokens@).subrange(from as int, i as int) =~= words(tokens@).skip(
            from as int,
        ));
    }
    r
}

/// Runs the `node` command whose arguments (sub-command first) are given.
pub fn node(command: &Vec<String>, node_list: &mut Vec<Node>) -> (out: Vec<String>)
    ensures
        model(final(node_list)@) == node_effect(model(old(node_list)@), words(command@)),
        words(out@) == node_report(model(old(node_list)@), words(command@)),
{
    let mut out: Vec<String> = Vec::new();
    if command.len() == 0 {
        out.push("Not a node command".to_owned());
        proof {
            assert(words(out@) =~= seq![not_node_command_line()]);
        }
        return out;
    }
    let args = tokens_from(command, 1);
    proof {
        assert(words(command@).skip(1) =~= words(command@).drop_first());
    }
    let sub = &command[0];
    if is_word(sub, "create") {
        create_node(&args, node_list)
    } else if is_word(sub, "list") {
        list_nodes(node_list)
    } else if is_word(sub, "delete") {
        delete_node(&args, node_list)
    } else if is_word(sub, "rename") {
        rename_node(&args, node_list)
    } else {
        out.push("Not a node command".to_owned());
        proof {
            assert(words(out@) =~= seq![not_node_command_line()]);
        }
        out
    }
}

/// Interprets one command line: `exit` ends the session, `node ...` runs a
/// registry operation, anything else is reported as a wrong command.
pub fn match_command(command: &str, node_list: &mut Vec<Node>) -> (reply: Reply)
    ensures
        reply.exit == is_exit(split_spaces(command@)),
        model(final(node_list)@) == command_effect(model(old(node_list)@), split_spaces(command@)),
        words(reply.lines@) == command_report(model(old(node_list)@), split_spaces(command@)),
{
    let toks = tokenize(command);
    let mut lines: Vec<String> = Vec::new();
    if toks.len() > 0 && is_word(&toks[0], "exit") {
        lines.push("Bye friend !".to_owned());
        proof {
            assert(words(lines@) =~= seq![farewell_line()]);
        }
        return Reply { lines, exit: true };
    }
    if toks.len() > 0 && is_word(&toks[0], "node") {
        let args = tokens_from(&toks, 1);
        proof {
            assert(words(toks@).skip(1) =~= words(toks@).drop_first());
        }
        let lines = node(&args, node_list);
        return Reply { lines, exit: false };
    }
    lines.push("Wrong command !".to_owned());
    proof {
        assert(words(lines@) =~= seq![wrong_command_line()]);
    }
    Reply { lines, exit: false }
}

} // verus!
