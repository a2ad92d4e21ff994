//! Nodes and the registry that holds them: creation, listing, deletion and
//! renaming, each returning the lines it reports to the user.

use vstd::prelude::*;

use crate::tokens::words;

verus! {

/// The states a node can be in.
#[derive(PartialEq, Eq, Structural, Clone, Copy, Debug)]
pub enum Status {
    Standby,
}

/// What a node is, seen mathematically.
pub struct NodeView {
    pub name: Seq<char>,
    pub status: Status,
}

/// A compute node known to the system: a name and a status.
pub struct Node {
    name: String,
    status: Status,
}

/// The name a node gets when none is given.
pub open spec fn default_name() -> Seq<char> {
    seq!['d', 'e', 'f', 'a', 'u', 'l', 't']
}

/// How a status is written for the user.
pub open spec fn status_text(s: Status) -> Seq<char> {
    match s {
        Status::Standby => seq!['S', 'T', 'A', 'N', 'D', ' ', 'B', 'Y'],
    }
}

impl View for Node {
    type V = NodeView;

    closed spec fn view(&self) -> NodeView {
        NodeView { name: self.name@, status: self.status }
    }
}

impl Default for Node {
    fn default() -> (n: Node)
        ensures
            n@.name == default_name(),
            n@.status == Status::Standby,
    {
        let name = "default".to_owned();
        proof {
            reveal_strlit("default");
        }
        Node { name, status: Status::Standby }
    }
}

impl Node {
    /// Replaces the node's name.
    pub fn set_name(&mut self, name: String)
        ensures
            final(self)@.name == name@,
            final(self)@.status == old(self)@.status,
    {
        self.name = name;
    }

    /// The node's name.
    pub fn get_name(&self) -> (r: &String)
        ensures
            r@ == self@.name,
    {
        &self.name
    }

    /// A one-line description of the node, for diagnostics.
    pub fn describe(&self) -> (r: String)
        ensures
            r@ == "Node "@ + self@.name + ", status: "@ + status_text(self@.status),
    {
        let status = self.get_status_string();
        let mut r = "Node ".to_owned();
        r.append(self.name.as_str());
        r.append(", status: ");
        r.append(status.as_str());
        r
    }

    /// The node's status as it is shown to the user.
    pub fn get_status_string(&self) -> (r: String)
        ensures
            r@ == status_text(self@.status),
    {
        match self.status {
            Status::Standby => {
                let r = "STAND BY".to_owned();
                proof {
                    reveal_strlit("STAND BY");
                }
                r
            },
        }
    }
}

/// The registry seen as a sequence of node views.
pub open spec fn model(nodes: Seq<Node>) -> Seq<NodeView> {
    nodes.map_values(|n: Node| n@)
}

/// The name a creation with these arguments gives its node.
pub open spec fn name_to_create(args: Seq<Seq<char>>) -> Seq<char> {
    if args.len() > 0 {
        args[0]
    } else {
        default_name()
    }
}

/// The registry after a creation with these arguments.
pub open spec fn created(reg: Seq<NodeView>, args: Seq<Seq<char>>) -> Seq<NodeView> {
    reg.push(NodeView { name: name_to_create(args), status: Status::Standby })
}

/// The line that reports a creation.
pub open spec fn created_line(name: Seq<char>, status: Status) -> Seq<char> {
    "Node "@ + name + " created !\n Status: "@ + status_text(status)
}

/// The line that reports a creation with these arguments.
pub open spec fn creation_line_of(args: Seq<Seq<char>>) -> Seq<char> {
    created_line(name_to_create(args), Status::Standby)
}

/// Reports the creation of a node.
fn creation_report(node: &Node) -> (r: String)
    ensures
        r@ == created_line(node@.name, node@.status),
{
    let status = node.get_status_string();
    let mut r = "Node ".to_owned();
    r.append(node.get_name().as_str());
    r.append(" created !\n Status: ");
    r.append(status.as_str());
    r
}

/// Creates a node named after the first argument, or `default` when there is
/// none, with status stand-by, and appends it to the registry.
pub fn create_node(command: &Vec<String>, node_list: &mut Vec<Node>) -> (out: Vec<String>)
    ensures
        model(final(node_list)@) == created(model(old(node_list)@), words(command@)),
        words(out@) == seq![creation_line_of(words(command@))],
{
    let node = if command.len() > 0 {
        Node { name: command[0].clone(), status: Status::Standby }
    } else {
        Node::default()
    };
    let line = creation_report(&node);
    node_list.push(node);
    let mut out: Vec<String> = Vec::new();
    out.push(line);
    proof {
        assert(model(node_list@) =~= created(model(old(node_list)@), words(command@)));
        assert(words(out@) =~= seq![creation_line_of(words(command@))]);
    }
    out
}

/// The line shown when the registry is empty.
pub open spec fn no_node_line() -> Seq<char> {
    "No node found, create some to display their informations when listing."@
}

/// The line that opens a listing.
pub open spec fn list_header_line() -> Seq<char> {
    "Node list:"@
}

/// The line that shows one node in a listing.
pub open spec fn list_entry_line(n: NodeView) -> Seq<char> {
    "- Node: "@ + n.name + ", Status: "@ + status_text(n.status)
}

/// The lines that a listing of the registry shows.
pub open spec fn listing(reg: Seq<NodeView>) -> Seq<Seq<char>> {
    if reg.len() == 0 {
        seq![no_node_line()]
    } else {
        seq![list_header_line()] + reg.map_values(|n: NodeView| list_entry_line(n))
    }
}

/// Shows one node in a listing.
fn list_entry(node: &Node) -> (r: String)
    ensures
        r@ == list_entry_line(node@),
{
    let status = node.get_status_string();
    let mut r = "- Node: ".to_owned();
    r.append(node.get_name().as_str());
    r.append(", Status: ");
    r.append(status.as_str());
    r
}

/// The lines that show the registry: a notice when it is empty, else a header
/// and one line per node in registry order.
pub fn list_nodes(node_list: &Vec<Node>) -> (out: Vec<String>)
    ensures
        words(out@) == listing(model(node_list@)),
{
    let mut out: Vec<String> = Vec::new();
    if node_list.len() == 0 {
        out.push("No node found, create some to display their informations when listing.".to_owned());
        proof {
            assert(words(out@) =~= listing(model(node_list@)));
        }
        return out;
    }
    out.push("Node list:".to_owned());
    let mut i: usize = 0;
    while i < node_list.len()
        invariant
            i <= node_list.len(),
            words(out@) =~= seq![list_header_line()] + model(node_list@).take(i as int).map_values(
                |n: NodeView| list_entry_line(n),
            ),
        decreases node_list.len() - i,
    {
        let line = list_entry(&node_list[i]);
        let ghost before = words(out@);
        out.push(line);
        proof {
            let shown = |n: NodeView| list_entry_line(n);
            let prefix = model(node_list@).take(i as int);
            assert(model(node_list@).take(i + 1) =~= prefix.push(node_list@[i as int]@));
            assert(prefix.push(node_list@[i as int]@).map_values(shown) =~= prefix.map_values(
                shown,
            ).push(list_entry_line(node_list@[i as int]@)));
            assert(words(out@) =~= before.push(line@));
        }
        i = i + 1;
    }
    proof {
        assert(model(node_list@).take(i as int) =~= model(node_list@));
    }
    out
}

/// Index of the first node at or after `from` that has the name `target`, or
/// the registry's length when there is none.
pub open spec fn find_name(reg: Seq<NodeView>, target: Seq<char>, from: int) -> int
    decreases reg.len() - from,
{
    if from < 0 || from >= reg.len() {
        reg.len() as int
    } else if reg[from].name == target {
        from
    } else {
        find_name(reg, target, from + 1)
    }
}

/// The registry after deleting the first node named `target`: the last node
/// takes its place. A registry with no such node is left as it is.
pub open spec fn deleted(reg: Seq<NodeView>, target: Seq<char>) -> Seq<NodeView> {
    let i = find_name(reg, target, 0);
    if i < reg.len() {
        reg.update(i, reg.last()).drop_last()
    } else {
        reg
    }
}

/// The registry after a deletion with these arguments.
pub open spec fn deleted_by(reg: Seq<NodeView>, args: Seq<Seq<char>>) -> Seq<NodeView> {
    if args.len() > 0 {
        deleted(reg, args[0])
    } else {
        reg
    }
}

/// The line shown when a deletion names no node.
pub open spec fn no_deletion_target_line() -> Seq<char> {
    "No node given for deletion"@
}

/// The line that reports a deletion.
pub open spec fn deleted_line(name: Seq<char>) -> Seq<char> {
    "Node "@ + name + " deleted"@
}

/// The lines that a deletion with these arguments reports.
pub open spec fn deletion_report(reg: Seq<NodeView>, args: Seq<Seq<char>>) -> Seq<Seq<char>> {
    if args.len() == 0 {
        seq![no_deletion_target_line()]
    } else if find_name(reg, args[0], 0) < reg.len() {
        seq![deleted_line(args[0])]
    } else {
        seq![]
    }
}

/// Deletes the first node named after the first argument; the last node of
/// the registry moves into its place. Nothing is deleted when no node has
/// that name or when no argument is given.
pub fn delete_node(command: &Vec<String>, node_list: &mut Vec<Node>) -> (out: Vec<String>)
    ensures
        model(final(node_list)@) == deleted_by(model(old(node_list)@), words(command@)),
        words(out@) == deletion_report(model(old(node_list)@), words(command@)),
{
    let mut out: Vec<String> = Vec::new();
    if command.len() == 0 {
        out.push("No node given for deletion".to_owned());
        proof {
            assert(words(out@) =~= deletion_report(model(old(node_list)@), words(command@)));
        }
        return out;
    }
    let target = &command[0];
    let ghost reg = model(node_list@);
    let ghost t = target@;
    let mut i: usize = 0;
    while i < node_list.len()
        invariant
            i <= node_list.len(),
            node_list@ == old(node_list)@,
            reg == model(node_list@),
            t == target@,
            command.len() > 0,
            target == &command[0],
            out@.len() == 0,
            find_name(reg, t, 0) == find_name(reg, t, i as int),
        decreases node_list.len() - i,
    {
        if node_list[i].get_name().eq(target) {
            let ghost pre = node_list@;
            assert(reg[i as int] == pre[i as int]@);
            let _removed = node_list.swap_remove(i);
            let mut line = "Node ".to_owned();
            line.append(target.as_str());
            line.append(" deleted");
            out.push(line);
            proof {
                assert(find_name(reg, t, i as int) == i);
                assert(reg.len() == pre.len());
                assert(model(node_list@) =~= reg.update(i as int, reg.last()).drop_last());
                assert(model(node_list@) =~= deleted(reg, t));
                assert(words(command@)[0] == t);
                assert(words(out@) =~= deletion_report(reg, words(command@)));
            }
            return out;
        }
        i = i + 1;
    }
    proof {
        assert(reg.len() == node_list@.len());
        assert(find_name(reg, t, i as int) == reg.len());
        assert(words(command@)[0] == t);
        assert(words(out@) =~= deletion_report(reg, words(command@)));
    }
    out
}

/// A node view after the renaming of `target` to `new_name`.
pub open spec fn renamed_node(n: NodeView, target: Seq<char>, new_name: Seq<char>) -> NodeView {
    if n.name == target {
        NodeView { name: new_name, status: n.status }
    } else {
        n
    }
}

/// The registry after every node named `target` is renamed to `new_name`.
pub open spec fn renamed(reg: Seq<NodeView>, target: Seq<char>, new_name: Seq<char>) -> Seq<
    NodeView,
> {
    reg.map_values(|n: NodeView| renamed_node(n, target, new_name))
}

/// The registry after a renaming with these arguments.
pub open spec fn renamed_by(reg: Seq<NodeView>, args: Seq<Seq<char>>) -> Seq<NodeView> {
    if args.len() >= 2 {
        renamed(reg, args[0], args[1])
    } else {
        reg
    }
}

/// How many nodes of the registry are named `target`.
pub open spec fn count_named(reg: Seq<NodeView>, target: Seq<char>) -> nat
    decreases reg.len(),
{
    if reg.len() == 0 {
        0
    } else {
        count_named(reg.drop_last(), target) + if reg.last().name == target {
            1nat
        } else {
            0nat
        }
    }
}

/// The line shown when a renaming lacks the name or the new name.
pub open spec fn no_rename_target_line() -> Seq<char> {
    "No node given to rename or no new name given"@
}

/// The line that reports the renaming of one node.
pub open spec fn renamed_line(new_name: Seq<char>) -> Seq<char> {
    "Node renamed: "@ + new_name
}

/// The lines that a renaming with these arguments reports: one per node
/// renamed.
pub open spec fn renaming_report(reg: Seq<NodeView>, args: Seq<Seq<char>>) -> Seq<Seq<char>> {
    if args.len() >= 2 {
        Seq::new(count_named(reg, args[0]), |k: int| renamed_line(args[1]))
    } else {
        seq![no_rename_target_line()]
    }
}

/// Renames every node named after the first argument to the second argument.
/// Nothing changes when either argument is missing.
pub fn rename_node(command: &Vec<String>, node_list: &mut Vec<Node>) -> (out: Vec<String>)
    ensures
        model(final(node_list)@) == renamed_by(model(old(node_list)@), words(command@)),
        words(out@) == renaming_report(model(old(node_list)@), words(command@)),
{
    let mut out: Vec<String> = Vec::new();
    if command.len() < 2 {
        out.push("No node given to rename or no new name given".to_owned());
        proof {
            assert(words(out@) =~= renaming_report(model(old(node_list)@), words(command@)));
        }
        return out;
    }
    let target = &command[0];
    let new_name = &command[1];
    let ghost reg = model(node_list@);
    let ghost t = target@;
    let ghost nn = new_name@;
    let mut i: usize = 0;
    while i < node_list.len()
        invariant
            i <= node_list.len(),
            node_list@.len() == reg.len(),
            reg == model(old(node_list)@),
            t == target@,
            nn == new_name@,
            forall|j: int| 0 <= j < i ==> #[trigger] node_list@[j]@ == renamed_node(reg[j], t, nn),
            forall|j: int| i <= j < reg.len() ==> #[trigger] node_list@[j]@ == reg[j],
            words(out@) == Seq::new(
                count_named(reg.take(i as int), t),
                |k: int| renamed_line(nn),
            ),
        decreases node_list.len() - i,
    {
        proof {
            assert(reg.take(i + 1).drop_last() =~= reg.take(i as int));
        }
        if node_list[i].get_name().eq(target) {
            let status = node_list[i].status;
            node_list.set(i, Node { name: new_name.clone(), status });
            let mut line = "Node renamed: ".to_owned();
            line.append(new_name.as_str());
            let ghost before = words(out@);
            out.push(line);
            proof {
                assert(words(out@) =~= before.push(line@));
                assert(words(out@) =~= Seq::new(
                    count_named(reg.take(i + 1), t),
                    |k: int| renamed_line(nn),
                ));
            }
        } else {
            proof {
                assert(words(out@) =~= Seq::new(
                    count_named(reg.take(i + 1), t),
                    |k: int| renamed_line(nn),
                ));
            }
        }
        i = i + 1;
    }
    proof {
        assert(reg.take(i as int) =~= reg);
        assert(model(node_list@) =~= renamed(reg, t, nn));
        assert(words(out@) =~= renaming_report(reg, words(command@)));
    }
    out
}

} // verus!
