//! Properties that hold across the registry operations.

use vstd::prelude::*;

use crate::cli::{command_effect, node_effect};
use crate::nodes::{
    count_named, created, deleted, deleted_by, find_name, listing, no_node_line, renamed,
    renamed_by, NodeView,
};
use crate::tokens::{split_from, split_spaces};

verus! {

/// The registry after the creations with these argument lists, in order.
pub open spec fn created_all(reg: Seq<NodeView>, cmds: Seq<Seq<Seq<char>>>) -> Seq<NodeView>
    decreases cmds.len(),
{
    if cmds.len() == 0 {
        reg
    } else {
        created(created_all(reg, cmds.drop_last()), cmds.last())
    }
}

/// Every creation adds exactly one node, whatever its name: after any run of
/// creations on an empty registry there are as many nodes as creations.
pub proof fn lemma_creations_count(cmds: Seq<Seq<Seq<char>>>)
    ensures
        created_all(seq![], cmds).len() == cmds.len(),
    decreases cmds.len(),
{
    if cmds.len() > 0 {
        lemma_creations_count(cmds.drop_last());
    }
}

/// The search for `target` from `from` stops at the first node of that name,
/// or at the end when there is none.
proof fn lemma_find_name(reg: Seq<NodeView>, target: Seq<char>, from: int)
    requires
        0 <= from <= reg.len(),
    ensures
        from <= find_name(reg, target, from) <= reg.len(),
        find_name(reg, target, from) < reg.len() ==> reg[find_name(reg, target, from)].name
            == target,
        forall|j: int| from <= j < find_name(reg, target, from) ==> reg[j].name != target,
    decreases reg.len() - from,
{
    if from < reg.len() && reg[from].name != target {
        lemma_find_name(reg, target, from + 1);
    }
}

/// Deleting a name that the registry holds removes exactly one node, the
/// first of that name; the other nodes stay, though not in their order.
pub proof fn lemma_delete_existing(reg: Seq<NodeView>, target: Seq<char>)
    requires
        exists|i: int| 0 <= i < reg.len() && #[trigger] reg[i].name == target,
    ensures
        deleted(reg, target).len() == reg.len() - 1,
        0 <= find_name(reg, target, 0) < reg.len(),
        reg[find_name(reg, target, 0)].name == target,
        deleted(reg, target).to_multiset() == reg.to_multiset().remove(
            reg[find_name(reg, target, 0)],
        ),
{
    broadcast use vstd::multiset::group_multiset_axioms;

    lemma_find_name(reg, target, 0);
    let k = choose|i: int| 0 <= i < reg.len() && #[trigger] reg[i].name == target;
    let i = find_name(reg, target, 0);
    assert(i < reg.len()) by {
        if i >= reg.len() {
            assert(reg[k].name != target);
        }
    }
    let last = reg.last();
    let u = reg.update(i, last);
    vstd::seq_lib::to_multiset_update(reg, i, last);
    assert(u.remove(u.len() - 1) =~= u.drop_last());
    vstd::seq_lib::to_multiset_remove(u, u.len() - 1);
    assert(u.last() == last);
    assert(deleted(reg, target).to_multiset() =~= reg.to_multiset().remove(reg[i]));
}

/// Deleting a name that no node has leaves the registry as it is.
pub proof fn lemma_delete_missing(reg: Seq<NodeView>, target: Seq<char>)
    requires
        forall|i: int| 0 <= i < reg.len() ==> #[trigger] reg[i].name != target,
    ensures
        deleted(reg, target) == reg,
{
    lemma_find_name(reg, target, 0);
}

/// A deletion on an empty registry, with or without a name, leaves it empty.
pub proof fn lemma_delete_from_empty(args: Seq<Seq<char>>)
    ensures
        deleted_by(seq![], args) == Seq::<NodeView>::empty(),
{
}

/// Renaming gives the new name to every node that had the old one, keeps
/// every other node, and keeps the registry's length.
pub proof fn lemma_rename_existing(reg: Seq<NodeView>, target: Seq<char>, new_name: Seq<char>)
    ensures
        renamed(reg, target, new_name).len() == reg.len(),
        forall|i: int|
            0 <= i < reg.len() && reg[i].name == target ==> (#[trigger] renamed(
                reg,
                target,
                new_name,
            )[i]).name == new_name,
        forall|i: int|
            0 <= i < reg.len() && reg[i].name != target ==> #[trigger] renamed(
                reg,
                target,
                new_name,
            )[i] == reg[i],
        forall|i: int|
            0 <= i < reg.len() ==> (#[trigger] renamed(reg, target, new_name)[i]).status
                == reg[i].status,
{
}

/// Renaming a name that no node has leaves the registry as it is.
pub proof fn lemma_rename_missing(reg: Seq<NodeView>, target: Seq<char>, new_name: Seq<char>)
    requires
        forall|i: int| 0 <= i < reg.len() ==> #[trigger] reg[i].name != target,
    ensures
        renamed(reg, target, new_name) == reg,
        count_named(reg, target) == 0,
    decreases reg.len(),
{
    assert(renamed(reg, target, new_name) =~= reg);
    if reg.len() > 0 {
        lemma_rename_missing(reg.drop_last(), target, new_name);
    }
}

/// A renaming given fewer than two names changes nothing.
pub proof fn lemma_rename_needs_two_names(reg: Seq<NodeView>, args: Seq<Seq<char>>)
    requires
        args.len() < 2,
    ensures
        renamed_by(reg, args) == reg,
{
}

/// Listing an empty registry shows the notice that there is no node, and
/// nothing else.
pub proof fn lemma_list_empty()
    ensures
        listing(seq![]) == seq![no_node_line()],
{
}

/// Whether every node of the registry has a name that is not empty.
pub open spec fn all_named(reg: Seq<NodeView>) -> bool {
    forall|i: int| 0 <= i < reg.len() ==> (#[trigger] reg[i]).name.len() > 0
}

/// No token is empty.
proof fn lemma_tokens_not_empty(s: Seq<char>, current: Seq<char>)
    ensures
        forall|k: int|
            0 <= k < split_from(s, current).len() ==> (#[trigger] split_from(s, current)[k]).len()
                > 0,
    decreases s.len(),
{
    let done: Seq<Seq<char>> = if current.len() > 0 {
        seq![current]
    } else {
        seq![]
    };
    if s.len() > 0 {
        if crate::tokens::is_space(s[0]) {
            let rest = split_from(s.drop_first(), seq![]);
            lemma_tokens_not_empty(s.drop_first(), seq![]);
            assert(split_from(s, current) == done + rest);
            assert forall|k: int| 0 <= k < (done + rest).len() implies (#[trigger] (done
                + rest)[k]).len() > 0 by {
                if k >= done.len() {
                    assert((done + rest)[k] == rest[k - done.len()]);
                }
            }
        } else {
            lemma_tokens_not_empty(s.drop_first(), current.push(s[0]));
            assert(split_from(s, current) == split_from(s.drop_first(), current.push(s[0])));
        }
    } else {
        assert(split_from(s, current) == done);
    }
}

/// Every argument list drawn from a token list has no empty word.
pub open spec fn no_empty_word(args: Seq<Seq<char>>) -> bool {
    forall|k: int| 0 <= k < args.len() ==> (#[trigger] args[k]).len() > 0
}

/// A `node` command whose words are not empty leaves every name non-empty.
proof fn lemma_node_keeps_names(reg: Seq<NodeView>, args: Seq<Seq<char>>)
    requires
        all_named(reg),
        no_empty_word(args),
    ensures
        all_named(node_effect(reg, args)),
{
    if args.len() > 0 {
        let rest = args.drop_first();
        assert(no_empty_word(rest)) by {
            assert forall|k: int| 0 <= k < rest.len() implies (#[trigger] rest[k]).len() > 0 by {
                assert(rest[k] == args[k + 1]);
            }
        }
        let c = created(reg, rest);
        assert(all_named(c)) by {
            assert forall|k: int| 0 <= k < c.len() implies (#[trigger] c[k]).name.len() > 0 by {
                if k == reg.len() && rest.len() == 0 {
                    assert(crate::nodes::default_name().len() == 7);
                }
            }
        }
        if rest.len() > 0 {
            let i = find_name(reg, rest[0], 0);
            lemma_find_name(reg, rest[0], 0);
            if i < reg.len() {
                let d = deleted(reg, rest[0]);
                assert(d == reg.update(i, reg.last()).drop_last());
                assert(all_named(d)) by {
                    assert forall|k: int| 0 <= k < d.len() implies (#[trigger] d[k]).name.len()
                        > 0 by {
                        if k == i {
                            assert(d[k] == reg[reg.len() - 1]);
                        } else {
                            assert(d[k] == reg[k]);
                        }
                    }
                }
            } else {
                assert(deleted(reg, rest[0]) == reg);
            }
        }
        if rest.len() >= 2 {
            let r = renamed(reg, rest[0], rest[1]);
            assert(all_named(r)) by {
                assert forall|k: int| 0 <= k < r.len() implies (#[trigger] r[k]).name.len() > 0 by {
                    assert(reg[k].name.len() > 0);
                }
            }
        }
    }
}

/// Whatever command line is run, every node keeps a name that is not empty.
pub proof fn lemma_command_keeps_names(reg: Seq<NodeView>, line: Seq<char>)
    requires
        all_named(reg),
    ensures
        all_named(command_effect(reg, split_spaces(line))),
{
    let toks = split_spaces(line);
    lemma_tokens_not_empty(line, seq![]);
    if toks.len() > 0 {
        let args = toks.drop_first();
        assert(no_empty_word(args)) by {
            assert forall|k: int| 0 <= k < args.len() implies (#[trigger] args[k]).len() > 0 by {
                assert(args[k] == toks[k + 1]);
            }
        }
        lemma_node_keeps_names(reg, args);
    }
}

} // verus!
