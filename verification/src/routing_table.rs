//! The table of known peers: admission, eviction, close groups and quorum.

use crate::id::{Connection, PublicId};
use crate::xor_name::{bucket_index, closer_to_target, distance, XorName};
use vstd::prelude::*;

verus! {

/// Default number of members of a close group.
pub const GROUP_SIZE: usize = 8;

/// Default number of contacts kept per distance class.
pub const BUCKET_CAPACITY: usize = 8;

/// A contact of the routing table: a peer and the connections that lead to it.
#[derive(Clone, Debug, PartialEq, Eq)]
pub struct NodeInfo {
    pub public_id: PublicId,
    pub connections: Vec<Connection>,
}

impl NodeInfo {
    /// A contact with the given connections.
    pub fn new(public_id: PublicId, connections: Vec<Connection>) -> (node: NodeInfo)
        ensures
            node.public_id == public_id,
            node.connections == connections,
    {
        NodeInfo { public_id, connections }
    }

    /// The contact's name.
    pub fn name(&self) -> (n: &XorName)
        ensures
            *n == self.public_id.name,
    {
        &self.public_id.name
    }
}

/// What became of a contact that was offered to the table.
#[derive(Clone, Debug, PartialEq, Eq)]
pub enum AddResult {
    /// The contact was taken into a distance class that had room.
    Added,
    /// The table is unchanged.
    Rejected,
    /// The contact replaced the farthest contact of its distance class.
    AddedAndEvicted(NodeInfo),
}

/// Number of contacts of `nodes` in distance class `b` of `our`.
pub open spec fn count_in_bucket(our: XorName, nodes: Seq<NodeInfo>, b: nat) -> nat
    decreases nodes.len(),
{
    if nodes.len() == 0 {
        0
    } else {
        count_in_bucket(our, nodes.drop_last(), b) + if bucket_index(
            our,
            nodes.last().public_id.name,
        ) == b {
            1nat
        } else {
            0nat
        }
    }
}

/// Number of contacts of `nodes` that are strictly closer to `target` than
/// `reference` is.
pub open spec fn count_closer(nodes: Seq<NodeInfo>, target: XorName, reference: XorName) -> nat
    decreases nodes.len(),
{
    if nodes.len() == 0 {
        0
    } else {
        count_closer(nodes.drop_last(), target, reference) + if distance(
            nodes.last().public_id.name,
            target,
        ) < distance(reference, target) {
            1nat
        } else {
            0nat
        }
    }
}

/// Whether the connections are a set with at least one member: no handle
/// stands twice.
pub open spec fn sound_connections(connections: Seq<Connection>) -> bool {
    connections.len() >= 1 && connections.no_duplicates()
}

/// Whether every contact has sound connections.
pub open spec fn connected(nodes: Seq<NodeInfo>) -> bool {
    forall|i: int| 0 <= i < nodes.len() ==> sound_connections(#[trigger] nodes[i].connections@)
}

/// Whether some contact has the name `name`.
pub open spec fn has_name(nodes: Seq<NodeInfo>, name: XorName) -> bool {
    exists|i: int| 0 <= i < nodes.len() && #[trigger] nodes[i].public_id.name == name
}

/// No name occurs twice.
pub open spec fn distinct_names(nodes: Seq<NodeInfo>) -> bool {
    forall|i: int, j: int|
        0 <= i < j < nodes.len() ==> #[trigger] nodes[i].public_id.name
            != #[trigger] nodes[j].public_id.name
}

/// Whether contact `i` is in the distance class of `name` and strictly
/// farther from `our` than `name` is.
pub open spec fn farther_in_bucket(our: XorName, nodes: Seq<NodeInfo>, i: int, name: XorName) -> bool {
    0 <= i < nodes.len() && bucket_index(our, nodes[i].public_id.name) == bucket_index(our, name)
        && distance(name, our) < distance(nodes[i].public_id.name, our)
}

/// Whether contact `j` is the farthest contact from `our` in distance class `b`.
pub open spec fn farthest_in_bucket(our: XorName, nodes: Seq<NodeInfo>, j: int, b: nat) -> bool {
    0 <= j < nodes.len() && bucket_index(our, nodes[j].public_id.name) == b && forall|i: int|
        0 <= i < nodes.len() && bucket_index(our, #[trigger] nodes[i].public_id.name) == b
            ==> distance(nodes[i].public_id.name, our) <= distance(nodes[j].public_id.name, our)
}

/// More than half of `n`, and never less than one.
pub open spec fn quorum_of(n: nat) -> nat {
    n / 2 + 1
}

pub proof fn lemma_count_in_bucket_push(our: XorName, nodes: Seq<NodeInfo>, node: NodeInfo, b: nat)
    ensures
        count_in_bucket(our, nodes.push(node), b) == count_in_bucket(our, nodes, b) + if bucket_index(
            our,
            node.public_id.name,
        ) == b {
            1nat
        } else {
            0nat
        },
{
    assert(nodes.push(node).drop_last() =~= nodes);
}

pub proof fn lemma_count_in_bucket_remove(our: XorName, nodes: Seq<NodeInfo>, j: int, b: nat)
    requires
        0 <= j < nodes.len(),
    ensures
        count_in_bucket(our, nodes, b) == count_in_bucket(our, nodes.remove(j), b) + if bucket_index(
            our,
            nodes[j].public_id.name,
        ) == b {
            1nat
        } else {
            0nat
        },
    decreases nodes.len(),
{
    if j == nodes.len() - 1 {
        assert(nodes.remove(j) =~= nodes.drop_last());
    } else {
        assert(nodes.remove(j).drop_last() =~= nodes.drop_last().remove(j));
        assert(nodes.remove(j).last() == nodes.last());
        lemma_count_in_bucket_remove(our, nodes.drop_last(), j, b);
    }
}

pub proof fn lemma_count_in_bucket_take(our: XorName, nodes: Seq<NodeInfo>, i: int, b: nat)
    requires
        0 <= i < nodes.len(),
    ensures
        count_in_bucket(our, nodes.take(i + 1), b) == count_in_bucket(our, nodes.take(i), b)
            + if bucket_index(our, nodes[i].public_id.name) == b {
            1nat
        } else {
            0nat
        },
{
    assert(nodes.take(i + 1).drop_last() =~= nodes.take(i));
}

pub proof fn lemma_count_closer_take(nodes: Seq<NodeInfo>, i: int, target: XorName, reference: XorName)
    requires
        0 <= i < nodes.len(),
    ensures
        count_closer(nodes.take(i + 1), target, reference) == count_closer(
            nodes.take(i),
            target,
            reference,
        ) + if distance(nodes[i].public_id.name, target) < distance(reference, target) {
            1nat
        } else {
            0nat
        },
        count_closer(nodes.take(i), target, reference) <= i,
    decreases i,
{
    assert(nodes.take(i + 1).drop_last() =~= nodes.take(i));
    if i > 0 {
        lemma_count_closer_take(nodes, i - 1, target, reference);
    }
}

/// Whether the table takes the contact that it is offered: it wants the
/// contact's name, and the contact comes with sound connections.
pub open spec fn takes(table: RoutingTable, node: NodeInfo) -> bool {
    table.wants(node.public_id.name) && sound_connections(node.connections@)
}

/// What `add_node` does: how the table after the call relates to the table
/// before it, and what is returned.
pub open spec fn after_add_node(
    pre: RoutingTable,
    post: RoutingTable,
    node: NodeInfo,
    r: AddResult,
) -> bool {
    let name = node.public_id.name;
    &&& post.wf()
    &&& post.name() == pre.name()
    &&& post.group_size() == pre.group_size()
    &&& post.bucket_capacity() == pre.bucket_capacity()
    &&& match r {
        AddResult::Rejected => !takes(pre, node) && post.nodes() == pre.nodes(),
        AddResult::Added => {
            &&& takes(pre, node)
            &&& pre.bucket_len(name) < pre.bucket_capacity()
            &&& post.nodes() == pre.nodes().push(node)
        },
        AddResult::AddedAndEvicted(gone) => {
            &&& takes(pre, node)
            &&& pre.bucket_len(name) == pre.bucket_capacity()
            &&& exists|j: int|
                farthest_in_bucket(pre.name(), pre.nodes(), j, bucket_index(pre.name(), name))
                    && pre.nodes()[j] == gone && post.nodes() == pre.nodes().remove(j).push(
                    node,
                )
        },
    }
}

/// What `add_connection` does: how the table after the call relates to the table
/// before it, and what is returned.
pub open spec fn after_add_connection(
    pre: RoutingTable,
    post: RoutingTable,
    name: XorName,
    connection: Connection,
    r: bool,
) -> bool {
    &&& post.wf()
    &&& post.name() == pre.name()
    &&& post.group_size() == pre.group_size()
    &&& post.bucket_capacity() == pre.bucket_capacity()
    &&& !r ==> post.nodes() == pre.nodes()
    &&& r == exists|i: int|
        0 <= i < pre.nodes().len() && #[trigger] pre.nodes()[i].public_id.name
            == name && !pre.nodes()[i].connections@.contains(connection)
    &&& r ==> exists|i: int|
        #[trigger] pre.nodes()[i].public_id.name == name && same_but_connections(
            pre.nodes(),
            post.nodes(),
            i,
            pre.nodes()[i].connections@.push(connection),
        )
}

/// What `drop_connection` does: how the table after the call relates to the
/// table before it, and what is returned.
pub open spec fn after_drop_connection(
    pre: RoutingTable,
    post: RoutingTable,
    connection: Connection,
    r: Option<XorName>,
) -> bool {
    &&& post.wf()
    &&& post.name() == pre.name()
    &&& post.group_size() == pre.group_size()
    &&& post.bucket_capacity() == pre.bucket_capacity()
    &&& match r {
        Some(name) => {
            &&& has_name(pre.nodes(), name)
            &&& !has_name(post.nodes(), name)
            &&& post.nodes().len() + 1 == pre.nodes().len()
        },
        None => post.nodes().len() == pre.nodes().len(),
    }
    &&& (forall|i: int|
        0 <= i < pre.nodes().len() ==> !(#[trigger] pre.nodes()[i]).connections@.contains(
            connection,
        )) ==> r.is_none() && post.nodes() == pre.nodes()
    &&& forall|i: int| #[trigger]
        first_holder(pre.nodes(), i, connection) ==> if pre.nodes()[i].connections@.len() == 1 {
            r == Some(pre.nodes()[i].public_id.name) && post.nodes() == pre.nodes().remove(i)
        } else {
            r.is_none() && !post.nodes()[i].connections@.contains(connection) && exists|p: int|
                first_occurrence(pre.nodes()[i].connections@, p, connection)
                    && same_but_connections(
                    pre.nodes(),
                    post.nodes(),
                    i,
                    pre.nodes()[i].connections@.remove(p),
                )
        }
}

/// The table of known peers of one node, in the order in which they were
/// added. Each distance class from the node's own name holds a bounded number
/// of contacts.
pub struct RoutingTable {
    our_name: XorName,
    nodes: Vec<NodeInfo>,
    group_size: usize,
    bucket_capacity: usize,
}

impl RoutingTable {
    /// The contacts, oldest first.
    pub closed spec fn nodes(&self) -> Seq<NodeInfo> {
        self.nodes@
    }

    /// The name of the node that owns the table.
    pub closed spec fn name(&self) -> XorName {
        self.our_name
    }

    /// Size of a close group.
    pub closed spec fn group_size(&self) -> nat {
        self.group_size as nat
    }

    /// Number of contacts that a distance class may hold.
    pub closed spec fn bucket_capacity(&self) -> nat {
        self.bucket_capacity as nat
    }

    /// The invariant: sizes are positive, no name occurs twice, the owner is
    /// no contact of itself, no distance class is over its capacity, and
    /// every contact has at least one connection and none twice.
    pub open spec fn wf(&self) -> bool {
        &&& self.group_size() >= 1
        &&& self.bucket_capacity() >= 1
        &&& connected(self.nodes())
        &&& distinct_names(self.nodes())
        &&& !has_name(self.nodes(), self.name())
        &&& forall|b: nat| count_in_bucket(self.name(), self.nodes(), b) <= self.bucket_capacity()
    }

    /// Number of contacts in the distance class of `name`.
    pub open spec fn bucket_len(&self, name: XorName) -> nat {
        count_in_bucket(self.name(), self.nodes(), bucket_index(self.name(), name))
    }

    /// Whether `name` is a candidate that the table would take: it is not the
    /// owner, not yet a contact, and either its distance class has room or
    /// some contact of that class is strictly farther from the owner.
    pub open spec fn wants(&self, name: XorName) -> bool {
        &&& name != self.name()
        &&& !has_name(self.nodes(), name)
        &&& (self.bucket_len(name) < self.bucket_capacity() || exists|i: int|
            farther_in_bucket(self.name(), self.nodes(), i, name))
    }

    /// An empty table with the default sizes.
    pub fn new(our_name: &XorName) -> (table: RoutingTable)
        ensures
            table.wf(),
            table.name() == *our_name,
            table.nodes() == Seq::<NodeInfo>::empty(),
            table.group_size() == GROUP_SIZE,
            table.bucket_capacity() == BUCKET_CAPACITY,
    {
        RoutingTable {
            our_name: *our_name,
            nodes: Vec::new(),
            group_size: GROUP_SIZE,
            bucket_capacity: BUCKET_CAPACITY,
        }
    }

    /// An empty table with the given sizes; a size of zero is raised to one.
    pub fn with_sizes(our_name: &XorName, group_size: usize, bucket_capacity: usize) -> (table:
        RoutingTable)
        ensures
            table.wf(),
            table.name() == *our_name,
            table.nodes() == Seq::<NodeInfo>::empty(),
            table.group_size() == if group_size == 0 {
                1
            } else {
                group_size
            },
            table.bucket_capacity() == if bucket_capacity == 0 {
                1
            } else {
                bucket_capacity
            },
    {
        RoutingTable {
            our_name: *our_name,
            nodes: Vec::new(),
            group_size: if group_size == 0 {
                1
            } else {
                group_size
            },
            bucket_capacity: if bucket_capacity == 0 {
                1
            } else {
                bucket_capacity
            },
        }
    }

    /// The owner's name.
    pub fn our_name(&self) -> (n: &XorName)
        ensures
            *n == self.name(),
    {
        &self.our_name
    }

    /// Number of contacts.
    pub fn len(&self) -> (n: usize)
        ensures
            n == self.nodes().len(),
    {
        self.nodes.len()
    }

    /// Position of the contact called `name`.
    pub fn position(&self, name: &XorName) -> (r: Option<usize>)
        ensures
            match r {
                Some(i) => i < self.nodes().len() && self.nodes()[i as int].public_id.name == *name
                    && forall|j: int| 0 <= j < i ==> self.nodes()[j].public_id.name != *name,
                None => !has_name(self.nodes(), *name),
            },
    {
        let mut i: usize = 0;
        while i < self.nodes.len()
            invariant
                0 <= i <= self.nodes.len(),
                forall|j: int| 0 <= j < i ==> self.nodes@[j].public_id.name != *name,
            decreases self.nodes.len() - i,
        {
            if self.nodes[i].public_id.name.same(name) {
                return Some(i);
            }
            i += 1;
        }
        None
    }

    /// The contact called `name`, where there is one.
    pub open spec fn contact(&self, name: XorName) -> NodeInfo {
        self.nodes()[choose|i: int|
            0 <= i < self.nodes().len() && #[trigger] self.nodes()[i].public_id.name == name]
    }

    /// Whether the owner belongs to the close group of `name` as far as the
    /// table knows: fewer than a close group's worth of contacts are strictly
    /// closer to `name` than the owner is.
    pub open spec fn is_close_to(&self, name: XorName) -> bool {
        count_closer(self.nodes(), name, self.name()) < self.group_size()
    }

    /// The contact called `name`, if there is one.
    pub fn get(&self, name: &XorName) -> (r: Option<&NodeInfo>)
        requires
            self.wf(),
        ensures
            match r {
                Some(node) => has_name(self.nodes(), *name) && node.public_id.name == *name
                    && *node == self.contact(*name),
                None => !has_name(self.nodes(), *name),
            },
    {
        match self.position(name) {
            Some(i) => Some(&self.nodes[i]),
            None => None,
        }
    }

    /// Whether the table would take a contact called `name`.
    pub fn want_to_add(&self, name: &XorName) -> (r: bool)
        requires
            self.wf(),
        ensures
            r == self.wants(*name),
    {
        if self.our_name.same(name) {
            return false;
        }
        if self.position(name).is_some() {
            return false;
        }
        let b = self.our_name.bucket_index(name);
        let mut count: usize = 0;
        let mut farther: bool = false;
        let mut i: usize = 0;
        while i < self.nodes.len()
            invariant
                0 <= i <= self.nodes.len(),
                b == bucket_index(self.our_name, *name),
                count == count_in_bucket(self.our_name, self.nodes@.take(i as int), b as nat),
                count <= i,
                farther == exists|j: int|
                    0 <= j < i && farther_in_bucket(self.our_name, self.nodes@, j, *name),
            decreases self.nodes.len() - i,
        {
            proof {
                lemma_count_in_bucket_take(self.our_name, self.nodes@, i as int, b as nat);
            }
            let ghost before = farther;
            if self.our_name.bucket_index(&self.nodes[i].public_id.name) == b {
                count += 1;
                if closer_to_target(name, &self.nodes[i].public_id.name, &self.our_name) {
                    farther = true;
                }
            }
            proof {
                if farther_in_bucket(self.our_name, self.nodes@, i as int, *name) {
                    assert(farther);
                } else {
                    assert(farther == before);
                    if farther {
                        let j = choose|j: int|
                            0 <= j < i && farther_in_bucket(self.our_name, self.nodes@, j, *name);
                        assert(0 <= j < i + 1 && farther_in_bucket(
                            self.our_name,
                            self.nodes@,
                            j,
                            *name,
                        ));
                    }
                }
            }
            i += 1;
        }
        assert(self.nodes@.take(i as int) =~= self.nodes@);
        count < self.bucket_capacity || farther
    }

    /// Offers a contact to the table.
    ///
    /// A contact whose distance class has room is appended. In a full class
    /// the contact replaces the farthest contact of the class if it is
    /// strictly closer to the owner than that one. Anything else leaves the
    /// table as it is: the owner itself, a name that is already a contact,
    /// and a contact that comes without a connection or with one twice.
    pub fn add_node(&mut self, node: NodeInfo) -> (r: AddResult)
        requires
            old(self).wf(),
        ensures
            after_add_node(
                *old(self),
                *final(self),
                node,
                r,
            ),
    {
        let name = node.public_id.name;
        if !has_sound_connections(&node.connections) {
            return AddResult::Rejected;
        }
        if self.our_name.same(&name) {
            return AddResult::Rejected;
        }
        if self.position(&name).is_some() {
            return AddResult::Rejected;
        }
        let b = self.our_name.bucket_index(&name);
        let mut count: usize = 0;
        let mut far: usize = 0;
        let mut i: usize = 0;
        while i < self.nodes.len()
            invariant
                0 <= i <= self.nodes.len(),
                b == bucket_index(self.our_name, name),
                count == count_in_bucket(self.our_name, self.nodes@.take(i as int), b as nat),
                count <= i,
                count > 0 ==> far < i && bucket_index(
                    self.our_name,
                    self.nodes@[far as int].public_id.name,
                ) == b,
                count > 0 ==> forall|j: int|
                    0 <= j < i && bucket_index(self.our_name, #[trigger] self.nodes@[j].public_id.name)
                        == b ==> distance(self.nodes@[j].public_id.name, self.our_name) <= distance(
                        self.nodes@[far as int].public_id.name,
                        self.our_name,
                    ),
                count == 0 ==> forall|j: int|
                    0 <= j < i ==> bucket_index(self.our_name, #[trigger] self.nodes@[j].public_id.name)
                        != b,
            decreases self.nodes.len() - i,
        {
            proof {
                lemma_count_in_bucket_take(self.our_name, self.nodes@, i as int, b as nat);
            }
            if self.our_name.bucket_index(&self.nodes[i].public_id.name) == b {
                if count == 0 || closer_to_target(
                    &self.nodes[far].public_id.name,
                    &self.nodes[i].public_id.name,
                    &self.our_name,
                ) {
                    far = i;
                }
                count += 1;
            }
            i += 1;
        }
        assert(self.nodes@.take(i as int) =~= self.nodes@);
        let ghost before = self.nodes@;
        if count < self.bucket_capacity {
            proof {
                assert forall|c: nat|
                    count_in_bucket(self.our_name, before.push(node), c)
                        <= self.bucket_capacity by {
                    lemma_count_in_bucket_push(self.our_name, before, node, c);
                }
                lemma_connected_push(before, node);
            }
            self.nodes.push(node);
            return AddResult::Added;
        }
        assert(count == self.bucket_capacity);
        assert(farthest_in_bucket(self.our_name, before, far as int, b as nat));
        if closer_to_target(&name, &self.nodes[far].public_id.name, &self.our_name) {
            assert(farther_in_bucket(self.our_name, before, far as int, name));
            let gone = self.nodes.remove(far);
            proof {
                let mid = before.remove(far as int);
                lemma_connected_remove(before, far as int);
                lemma_connected_push(mid, node);
                assert(distinct_names(mid));
                assert forall|c: nat|
                    count_in_bucket(self.our_name, mid.push(node), c)
                        <= self.bucket_capacity by {
                    lemma_count_in_bucket_remove(self.our_name, before, far as int, c);
                    lemma_count_in_bucket_push(self.our_name, mid, node, c);
                }
                assert(!has_name(mid, name)) by {
                    if has_name(mid, name) {
                        let k = choose|k: int|
                            0 <= k < mid.len() && #[trigger] mid[k].public_id.name == name;
                        let k0 = if k < far {
                            k
                        } else {
                            k + 1
                        };
                        assert(before[k0].public_id.name == name);
                    }
                }
                assert(!has_name(mid.push(node), self.our_name)) by {
                    if has_name(mid.push(node), self.our_name) {
                        let k = choose|k: int|
                            0 <= k < mid.push(node).len() && #[trigger] mid.push(
                                node,
                            )[k].public_id.name == self.our_name;
                        if k < mid.len() {
                            let k0 = if k < far {
                                k
                            } else {
                                k + 1
                            };
                            assert(before[k0].public_id.name == self.our_name);
                        }
                    }
                }
            }
            self.nodes.push(node);
            return AddResult::AddedAndEvicted(gone);
        }
        proof {
            assert forall|k: int| !farther_in_bucket(self.our_name, before, k, name) by {
                if farther_in_bucket(self.our_name, before, k, name) {
                    assert(bucket_index(self.our_name, before[k].public_id.name) == b);
                }
            }
        }
        AddResult::Rejected
    }

    /// Whether fewer than a close group's worth of contacts are strictly
    /// closer to `name` than the owner is, so that the owner belongs to the
    /// close group of `name` as far as the table knows.
    pub fn is_close(&self, name: &XorName) -> (r: bool)
        ensures
            r == (count_closer(self.nodes(), *name, self.name()) < self.group_size()),
    {
        self.in_close_group_of(name, &self.our_name)
    }

    /// Whether fewer than a close group's worth of contacts are strictly
    /// closer to `target` than `candidate` is.
    pub fn in_close_group_of(&self, target: &XorName, candidate: &XorName) -> (r: bool)
        ensures
            r == (count_closer(self.nodes(), *target, *candidate) < self.group_size()),
    {
        let mut count: usize = 0;
        let mut i: usize = 0;
        while i < self.nodes.len()
            invariant
                0 <= i <= self.nodes.len(),
                count == count_closer(self.nodes@.take(i as int), *target, *candidate),
                count <= i,
            decreases self.nodes.len() - i,
        {
            proof {
                lemma_count_closer_take(self.nodes@, i as int, *target, *candidate);
            }
            if closer_to_target(&self.nodes[i].public_id.name, candidate, target) {
                count += 1;
            }
            i += 1;
        }
        assert(self.nodes@.take(i as int) =~= self.nodes@);
        count < self.group_size
    }

    /// Whether a sender called `sender` can belong to the group around
    /// `group_name`, as far as the table knows.
    pub fn try_confirm_safe_group_distance(&self, group_name: &XorName, sender: &XorName) -> (r: bool)
        ensures
            r == (count_closer(self.nodes(), *group_name, *sender) < self.group_size()),
    {
        self.in_close_group_of(group_name, sender)
    }

    /// Number of members of the owner's close group that the table knows.
    pub open spec fn close_group_len(&self) -> nat {
        if self.nodes().len() < self.group_size() {
            self.nodes().len()
        } else {
            self.group_size()
        }
    }

    /// Number of distinct endorsements that make a decision of the section:
    /// more than half of the close group.
    pub fn dynamic_quorum_size(&self) -> (q: usize)
        ensures
            q == quorum_of(self.close_group_len()),
            q >= 1,
            q <= usize::MAX / 2 + 1,
    {
        let n = if self.nodes.len() < self.group_size {
            self.nodes.len()
        } else {
            self.group_size
        };
        quorum_size(n)
    }

    /// The `group_size` contacts closest to `target`, nearest first; all of
    /// them if the table holds fewer.
    pub fn close_group(&self, target: &XorName) -> (group: Vec<PublicId>)
        requires
            self.wf(),
        ensures
            is_close_group(self.nodes(), *target, self.group_size(), group@),
    {
        let mut group: Vec<PublicId> = Vec::new();
        let mut i: usize = 0;
        while i < self.nodes.len()
            invariant
                self.wf(),
                0 <= i <= self.nodes.len(),
                is_close_group(self.nodes@.take(i as int), *target, self.group_size as nat, group@),
                all_listed_unless_full(self.nodes@.take(i as int), self.group_size as nat, group@),
            decreases self.nodes.len() - i,
        {
            let id = self.nodes[i].public_id;
            let ghost seen = self.nodes@.take(i as int);
            let ghost old_group = group@;
            proof {
                assert(self.nodes@.take(i + 1) =~= seen.push(self.nodes@[i as int]));
                assert forall|a: int| 0 <= a < old_group.len() implies distance(
                    #[trigger] old_group[a].name,
                    *target,
                ) != distance(id.name, *target) by {
                    let j = choose|j: int| 0 <= j < seen.len() && seen[j].public_id == old_group[a];
                    assert(self.nodes@[j].public_id.name != self.nodes@[i as int].public_id.name);
                    crate::xor_name::lemma_distance_injective(old_group[a].name, id.name, *target);
                }
            }
            let mut p: usize = 0;
            while p < group.len() && !closer_to_target(&id.name, &group[p].name, target)
                invariant
                    0 <= p <= group.len(),
                    group@ == old_group,
                    forall|a: int|
                        0 <= a < p ==> distance(#[trigger] old_group[a].name, *target) < distance(
                            id.name,
                            *target,
                        ),
                    forall|a: int|
                        0 <= a < old_group.len() ==> distance(#[trigger] old_group[a].name, *target)
                            != distance(id.name, *target),
                decreases group.len() - p,
            {
                p += 1;
            }
            if p < self.group_size {
                proof {
                    lemma_close_group_insert(
                        seen,
                        self.nodes@[i as int],
                        *target,
                        self.group_size as nat,
                        old_group,
                        p as int,
                    );
                }
                group.insert(p, id);
                if group.len() > self.group_size {
                    let _ = group.pop();
                }
                assert(group@ =~= with_member(old_group, id, p as int, self.group_size as nat));
            } else {
                proof {
                    lemma_close_group_skip(
                        seen,
                        self.nodes@[i as int],
                        *target,
                        self.group_size as nat,
                        old_group,
                    );
                }
            }
            i += 1;
        }
        assert(self.nodes@.take(i as int) =~= self.nodes@);
        group
    }

    /// Adds a connection to the contact called `name`. Returns `false`, and
    /// changes nothing, if there is no such contact or if it has the
    /// connection already.
    pub fn add_connection(&mut self, name: &XorName, connection: Connection) -> (r: bool)
        requires
            old(self).wf(),
        ensures
            after_add_connection(
                *old(self),
                *final(self),
                *name,
                connection,
                r,
            ),
    {
        match self.position(name) {
            None => false,
            Some(i) => {
                if position_of(&self.nodes[i].connections, connection).is_some() {
                    return false;
                }
                let ghost before = self.nodes@;
                let mut node = self.nodes.remove(i);
                node.connections.push(connection);
                self.nodes.insert(i, node);
                proof {
                    assert(same_but_connections(
                        before,
                        self.nodes@,
                        i as int,
                        before[i as int].connections@.push(connection),
                    ));
                    lemma_same_names(self.our_name, before, self.nodes@);
                    lemma_push_connection(before[i as int].connections@, connection);
                    lemma_connected_after(
                        before,
                        self.nodes@,
                        i as int,
                        before[i as int].connections@.push(connection),
                    );
                }
                true
            },
        }
    }

    /// Forgets a connection. If it was the last connection of its contact,
    /// the contact leaves the table and its name is returned.
    pub fn drop_connection(&mut self, connection: Connection) -> (r: Option<XorName>)
        requires
            old(self).wf(),
        ensures
            after_drop_connection(
                *old(self),
                *final(self),
                connection,
                r,
            ),
    {
        let mut i: usize = 0;
        while i < self.nodes.len()
            invariant
                0 <= i <= self.nodes.len(),
                self.wf(),
                *self == *old(self),
                forall|j: int|
                    0 <= j < i ==> !(#[trigger] self.nodes@[j]).connections@.contains(connection),
            decreases self.nodes.len() - i,
        {
            match position_of(&self.nodes[i].connections, connection) {
                None => {},
                Some(p) => {
                    let ghost before = self.nodes@;
                    assert(first_holder(before, i as int, connection));
                    assert forall|k: int| first_holder(before, k, connection) implies k == i by {
                        if k < i {
                            assert(!before[k].connections@.contains(connection));
                        }
                    }
                    let mut node = self.nodes.remove(i);
                    if node.connections.len() == 1 {
                        proof {
                            lemma_remove_keeps_wf(self.our_name, before, i as int);
                            lemma_connected_remove(before, i as int);
                            assert forall|c: nat|
                                count_in_bucket(self.our_name, self.nodes@, c)
                                    <= self.bucket_capacity by {
                                lemma_count_in_bucket_remove(self.our_name, before, i as int, c);
                            }
                            assert(before[i as int].public_id.name == node.public_id.name);
                            if has_name(self.nodes@, node.public_id.name) {
                                let k = choose|k: int|
                                    0 <= k < self.nodes@.len() && #[trigger] self.nodes@[k].public_id.name
                                        == node.public_id.name;
                                let k0 = if k < i {
                                    k
                                } else {
                                    k + 1
                                };
                                assert(before[k0].public_id.name == node.public_id.name);
                            }
                        }
                        return Some(node.public_id.name);
                    }
                    let _ = node.connections.remove(p);
                    self.nodes.insert(i, node);
                    proof {
                        assert(same_but_connections(
                            before,
                            self.nodes@,
                            i as int,
                            before[i as int].connections@.remove(p as int),
                        ));
                        lemma_same_names(self.our_name, before, self.nodes@);
                        lemma_remove_connection(before[i as int].connections@, p as int);
                        lemma_connected_after(
                            before,
                            self.nodes@,
                            i as int,
                            before[i as int].connections@.remove(p as int),
                        );
                    }
                    return None;
                },
            }
            i += 1;
        }
        None
    }

    /// Removes the contact called `name`, whatever connections it has, and
    /// gives it back.
    pub fn drop_node(&mut self, name: &XorName) -> (r: Option<NodeInfo>)
        requires
            old(self).wf(),
        ensures
            final(self).wf(),
            final(self).name() == old(self).name(),
            final(self).group_size() == old(self).group_size(),
            final(self).bucket_capacity() == old(self).bucket_capacity(),
            !has_name(final(self).nodes(), *name),
            match r {
                None => !has_name(old(self).nodes(), *name) && final(self).nodes() == old(self).nodes(),
                Some(node) => exists|i: int|
                    0 <= i < old(self).nodes().len() && old(self).nodes()[i] == node
                        && node.public_id.name == *name && final(self).nodes() == old(self).nodes().remove(i),
            },
    {
        match self.position(name) {
            None => None,
            Some(i) => {
                let ghost before = self.nodes@;
                proof {
                    lemma_remove_keeps_wf(self.our_name, before, i as int);
                    lemma_connected_remove(before, i as int);
                    assert forall|c: nat|
                        count_in_bucket(self.our_name, before.remove(i as int), c)
                            <= self.bucket_capacity by {
                        lemma_count_in_bucket_remove(self.our_name, before, i as int, c);
                    }
                }
                let node = self.nodes.remove(i);
                proof {
                    if has_name(self.nodes@, *name) {
                        let k = choose|k: int|
                            0 <= k < self.nodes@.len() && #[trigger] self.nodes@[k].public_id.name
                                == *name;
                        let k0 = if k < i {
                            k
                        } else {
                            k + 1
                        };
                        assert(before[k0].public_id.name == *name);
                    }
                }
                Some(node)
            },
        }
    }

    /// The connections that lead towards `target`: those of the contacts in
    /// the close group of `target`, in the order of the contacts.
    pub fn target_connections(&self, target: &XorName) -> (connections: Vec<Connection>)
        requires
            self.wf(),
        ensures
            exists|group: Seq<PublicId>| #[trigger]
                is_close_group(self.nodes(), *target, self.group_size(), group) && connections@
                    == connections_of(self.nodes(), group),
    {
        let group = self.close_group(target);
        let mut connections: Vec<Connection> = Vec::new();
        let mut i: usize = 0;
        while i < self.nodes.len()
            invariant
                0 <= i <= self.nodes.len(),
                connections@ == connections_of(self.nodes@.take(i as int), group@),
            decreases self.nodes.len() - i,
        {
            assert(self.nodes@.take(i + 1).drop_last() =~= self.nodes@.take(i as int));
            if is_member(&group, &self.nodes[i].public_id) {
                let mut k: usize = 0;
                let ghost before = connections@;
                while k < self.nodes[i].connections.len()
                    invariant
                        0 <= k <= self.nodes@[i as int].connections@.len(),
                        i < self.nodes.len(),
                        connections@ == before + self.nodes@[i as int].connections@.take(k as int),
                    decreases self.nodes@[i as int].connections@.len() - k,
                {
                    connections.push(self.nodes[i].connections[k]);
                    assert(self.nodes@[i as int].connections@.take(k + 1)
                        =~= self.nodes@[i as int].connections@.take(k as int).push(
                        self.nodes@[i as int].connections@[k as int],
                    ));
                    k += 1;
                }
                assert(self.nodes@[i as int].connections@.take(k as int)
                    =~= self.nodes@[i as int].connections@);
            }
            i += 1;
        }
        assert(self.nodes@.take(i as int) =~= self.nodes@);
        connections
    }

    /// The close group of the owner's own name.
    pub fn our_close_group(&self) -> (group: Vec<PublicId>)
        requires
            self.wf(),
        ensures
            is_close_group(self.nodes(), self.name(), self.group_size(), group@),
    {
        self.close_group(&self.our_name)
    }
}

/// Whether `id` is the identity of one of `nodes`.
pub open spec fn listed_in(nodes: Seq<NodeInfo>, id: PublicId) -> bool {
    exists|j: int| 0 <= j < nodes.len() && nodes[j].public_id == id
}

/// Whether `id` is a member of `group`, or else farther from `target` than
/// every member.
pub open spec fn covered_by(group: Seq<PublicId>, target: XorName, id: PublicId) -> bool {
    (exists|c: int| 0 <= c < group.len() && group[c] == id) || forall|a: int|
        0 <= a < group.len() ==> distance(#[trigger] group[a].name, target) < distance(
            id.name,
            target,
        )
}

/// Whether `group` lists the `k` contacts of `nodes` that are closest to
/// `target` (all of them if there are fewer), nearest first.
pub open spec fn is_close_group(nodes: Seq<NodeInfo>, target: XorName, k: nat, group: Seq<PublicId>) -> bool {
    &&& group.len() == if nodes.len() < k {
        nodes.len()
    } else {
        k
    }
    &&& forall|a: int| 0 <= a < group.len() ==> listed_in(nodes, #[trigger] group[a])
    &&& forall|a: int, b: int|
        0 <= a < b < group.len() ==> distance(group[a].name, target) < distance(
            group[b].name,
            target,
        )
    &&& forall|j: int|
        0 <= j < nodes.len() ==> covered_by(group, target, #[trigger] nodes[j].public_id)
}

/// The connections of the contacts that are members of `group`, in the
/// order of the contacts.
pub open spec fn connections_of(nodes: Seq<NodeInfo>, group: Seq<PublicId>) -> Seq<Connection>
    decreases nodes.len(),
{
    if nodes.len() == 0 {
        Seq::empty()
    } else if member_of(group, nodes.last().public_id) {
        connections_of(nodes.drop_last(), group) + nodes.last().connections@
    } else {
        connections_of(nodes.drop_last(), group)
    }
}

/// Whether `id` occurs in `group`.
pub fn is_member(group: &Vec<PublicId>, id: &PublicId) -> (r: bool)
    ensures
        r == member_of(group@, *id),
{
    let mut c: usize = 0;
    while c < group.len()
        invariant
            0 <= c <= group.len(),
            forall|j: int| 0 <= j < c ==> group@[j] != *id,
        decreases group.len() - c,
    {
        if group[c].same(id) {
            return true;
        }
        c += 1;
    }
    false
}

/// Whether `id` occurs in `group`.
pub open spec fn member_of(group: Seq<PublicId>, id: PublicId) -> bool {
    exists|c: int| 0 <= c < group.len() && group[c] == id
}

/// Whether every contact is a member of `group` as long as `group` has
/// fewer than `k` members.
pub open spec fn all_listed_unless_full(nodes: Seq<NodeInfo>, k: nat, group: Seq<PublicId>) -> bool {
    group.len() < k ==> forall|j: int|
        0 <= j < nodes.len() ==> member_of(group, #[trigger] nodes[j].public_id)
}

/// A contact that is farther from the target than a full group leaves the
/// group as it is.
pub proof fn lemma_close_group_skip(
    seen: Seq<NodeInfo>,
    node: NodeInfo,
    target: XorName,
    k: nat,
    group: Seq<PublicId>,
)
    requires
        is_close_group(seen, target, k, group),
        group.len() >= k,
        forall|a: int|
            0 <= a < group.len() ==> distance(#[trigger] group[a].name, target) < distance(
                node.public_id.name,
                target,
            ),
    ensures
        is_close_group(seen.push(node), target, k, group),
        all_listed_unless_full(seen.push(node), k, group),
{
    let now = seen.push(node);
    assert forall|a: int| 0 <= a < group.len() implies listed_in(now, #[trigger] group[a]) by {
        let j = choose|j: int| 0 <= j < seen.len() && seen[j].public_id == group[a];
        assert(now[j].public_id == group[a]);
    }
    assert forall|j: int| 0 <= j < now.len() implies covered_by(
        group,
        target,
        #[trigger] now[j].public_id,
    ) by {
        if j < seen.len() {
            assert(now[j] == seen[j]);
        }
    }
}

/// Members in ascending order of distance from `target`.
pub open spec fn ascending(group: Seq<PublicId>, target: XorName) -> bool {
    forall|a: int, b: int|
        0 <= a < b < group.len() ==> distance(group[a].name, target) < distance(
            group[b].name,
            target,
        )
}

/// `group` with `id` put in at `p`, cut back to at most `k` members.
pub open spec fn with_member(group: Seq<PublicId>, id: PublicId, p: int, k: nat) -> Seq<PublicId> {
    let grown = group.insert(p, id);
    if grown.len() > k {
        grown.take(k as int)
    } else {
        grown
    }
}

/// Whether `p` is the place of `id` in the ascending `group`.
pub open spec fn place_of(group: Seq<PublicId>, target: XorName, id: PublicId, p: int) -> bool {
    &&& 0 <= p <= group.len()
    &&& forall|a: int|
        0 <= a < p ==> distance(#[trigger] group[a].name, target) < distance(id.name, target)
    &&& p < group.len() ==> distance(id.name, target) < distance(group[p].name, target)
}

pub proof fn lemma_with_member_index(group: Seq<PublicId>, id: PublicId, p: int, k: nat, a: int)
    requires
        0 <= p <= group.len(),
        p < k,
        0 <= a < with_member(group, id, p, k).len(),
    ensures
        with_member(group, id, p, k).len() == if group.len() + 1 > k {
            k
        } else {
            group.len() + 1
        },
        with_member(group, id, p, k)[a] == if a < p {
            group[a]
        } else if a == p {
            id
        } else {
            group[a - 1]
        },
{
}

pub proof fn lemma_with_member_ascending(
    group: Seq<PublicId>,
    target: XorName,
    id: PublicId,
    p: int,
    k: nat,
)
    requires
        ascending(group, target),
        place_of(group, target, id, p),
        p < k,
    ensures
        ascending(with_member(group, id, p, k), target),
{
    let g = with_member(group, id, p, k);
    assert forall|a: int, b: int| 0 <= a < b < g.len() implies distance(g[a].name, target)
        < distance(g[b].name, target) by {
        lemma_with_member_index(group, id, p, k, a);
        lemma_with_member_index(group, id, p, k, b);
        if a == p && p < b - 1 {
            assert(distance(group[p].name, target) < distance(group[b - 1].name, target));
        }
    }
}

pub proof fn lemma_with_member_covers(
    group: Seq<PublicId>,
    target: XorName,
    id: PublicId,
    p: int,
    k: nat,
    x: PublicId,
)
    requires
        ascending(group, target),
        place_of(group, target, id, p),
        p < k,
        group.len() <= k,
        covered_by(group, target, x),
        group.len() < k ==> member_of(group, x),
    ensures
        covered_by(with_member(group, id, p, k), target, x),
        with_member(group, id, p, k).len() < k ==> member_of(with_member(group, id, p, k), x),
{
    let g = with_member(group, id, p, k);
    if exists|c: int| 0 <= c < group.len() && group[c] == x {
        let c = choose|c: int| 0 <= c < group.len() && group[c] == x;
        let c1 = if c < p {
            c
        } else {
            c + 1
        };
        if c1 < g.len() {
            lemma_with_member_index(group, id, p, k, c1);
            assert(g[c1] == x);
        } else {
            assert(c == group.len() - 1);
            assert forall|a: int| 0 <= a < g.len() implies distance(#[trigger] g[a].name, target)
                < distance(x.name, target) by {
                lemma_with_member_index(group, id, p, k, a);
                if a == p {
                    if p < c {
                        assert(distance(group[p].name, target) < distance(group[c].name, target));
                    }
                } else if a < p {
                    assert(distance(group[a].name, target) < distance(group[c].name, target));
                } else {
                    assert(distance(group[a - 1].name, target) < distance(group[c].name, target));
                }
            }
        }
    } else {
        assert forall|a: int| 0 <= a < g.len() implies distance(#[trigger] g[a].name, target)
            < distance(x.name, target) by {
            lemma_with_member_index(group, id, p, k, a);
            if a == p {
                assert(distance(group[p].name, target) < distance(x.name, target));
            } else if a < p {
                assert(distance(group[a].name, target) < distance(x.name, target));
            } else {
                assert(distance(group[a - 1].name, target) < distance(x.name, target));
            }
        }
    }
}

/// Taking a contact into its place in the group, and dropping the last member
/// if the group was full, gives the group of the longer list.
pub proof fn lemma_close_group_insert(
    seen: Seq<NodeInfo>,
    node: NodeInfo,
    target: XorName,
    k: nat,
    group: Seq<PublicId>,
    p: int,
)
    requires
        is_close_group(seen, target, k, group),
        all_listed_unless_full(seen, k, group),
        place_of(group, target, node.public_id, p),
        p < k,
    ensures
        is_close_group(seen.push(node), target, k, with_member(group, node.public_id, p, k)),
        all_listed_unless_full(seen.push(node), k, with_member(group, node.public_id, p, k)),
{
    let id = node.public_id;
    let now = seen.push(node);
    let g = with_member(group, id, p, k);
    lemma_with_member_ascending(group, target, id, p, k);
    assert forall|a: int| 0 <= a < g.len() implies listed_in(now, #[trigger] g[a]) by {
        lemma_with_member_index(group, id, p, k, a);
        if a == p {
            assert(now[seen.len() as int].public_id == g[a]);
        } else {
            let a0 = if a < p {
                a
            } else {
                a - 1
            };
            assert(listed_in(seen, group[a0]));
            let j = choose|j: int| 0 <= j < seen.len() && seen[j].public_id == group[a0];
            assert(now[j].public_id == g[a]);
        }
    }
    assert forall|j: int| 0 <= j < now.len() implies covered_by(
        g,
        target,
        #[trigger] now[j].public_id,
    ) && (g.len() < k ==> member_of(g, now[j].public_id)) by {
        if j == seen.len() {
            lemma_with_member_index(group, id, p, k, p);
            assert(g[p] == now[j].public_id);
        } else {
            assert(now[j] == seen[j]);
            assert(covered_by(group, target, seen[j].public_id));
            lemma_with_member_covers(group, target, id, p, k, seen[j].public_id);
        }
    }
}

/// Whether contact `i` is the first contact that has the connection.
pub open spec fn first_holder(nodes: Seq<NodeInfo>, i: int, connection: Connection) -> bool {
    &&& 0 <= i < nodes.len()
    &&& nodes[i].connections@.contains(connection)
    &&& forall|j: int| 0 <= j < i ==> !(#[trigger] nodes[j]).connections@.contains(connection)
}

/// Whether `p` is the first place at which `value` stands in `list`.
pub open spec fn first_occurrence(list: Seq<Connection>, p: int, value: Connection) -> bool {
    &&& 0 <= p < list.len()
    &&& list[p] == value
    &&& forall|q: int| 0 <= q < p ==> list[q] != value
}

/// Whether `after` is `before` with the connections of contact `i` replaced
/// by `connections` and nothing else changed.
pub open spec fn same_but_connections(
    before: Seq<NodeInfo>,
    after: Seq<NodeInfo>,
    i: int,
    connections: Seq<Connection>,
) -> bool {
    &&& after.len() == before.len()
    &&& 0 <= i < before.len()
    &&& forall|j: int| 0 <= j < before.len() && j != i ==> #[trigger] after[j] == before[j]
    &&& after[i].public_id == before[i].public_id
    &&& after[i].connections@ == connections
}

/// Whether the connections are a set with at least one member.
pub fn has_sound_connections(list: &Vec<Connection>) -> (r: bool)
    ensures
        r == sound_connections(list@),
{
    if list.len() == 0 {
        return false;
    }
    let mut i: usize = 0;
    while i < list.len()
        invariant
            0 <= i <= list.len(),
            forall|a: int, b: int| 0 <= a < b < i ==> list@[a] != list@[b],
        decreases list.len() - i,
    {
        assert(list@.contains(list@[i as int]));
        match position_of(list, list[i]) {
            Some(p) => {
                if p != i {
                    assert(p < i) by {
                        if p > i {
                            assert(list@[i as int] != list@[i as int]);
                        }
                    }
                    assert(list@[p as int] == list@[i as int]);
                    return false;
                }
            },
            None => {
                return false;
            },
        }
        i += 1;
    }
    assert forall|a: int, b: int| 0 <= a < list@.len() && 0 <= b < list@.len() && a
        != b implies list@[a] != list@[b] by {
        if a < b {
            assert(list@[a] != list@[b]);
        } else {
            assert(list@[b] != list@[a]);
        }
    }
    true
}

/// A handle that a set of connections lacks can join it.
pub proof fn lemma_push_connection(connections: Seq<Connection>, connection: Connection)
    requires
        connections.no_duplicates(),
        !connections.contains(connection),
    ensures
        sound_connections(connections.push(connection)),
{
    let after = connections.push(connection);
    assert forall|a: int, b: int| 0 <= a < after.len() && 0 <= b < after.len() && a
        != b implies after[a] != after[b] by {
        if a < connections.len() {
            assert(connections.contains(connections[a]));
        }
        if b < connections.len() {
            assert(connections.contains(connections[b]));
        }
    }
}

/// A handle that leaves a set of connections is gone from it, and what
/// stays is a set.
pub proof fn lemma_remove_connection(connections: Seq<Connection>, p: int)
    requires
        connections.no_duplicates(),
        0 <= p < connections.len(),
    ensures
        connections.remove(p).no_duplicates(),
        !connections.remove(p).contains(connections[p]),
{
    let after = connections.remove(p);
    assert forall|a: int, b: int| 0 <= a < after.len() && 0 <= b < after.len() && a
        != b implies after[a] != after[b] by {
        let a0 = if a < p {
            a
        } else {
            a + 1
        };
        let b0 = if b < p {
            b
        } else {
            b + 1
        };
        assert(connections[a0] != connections[b0]);
    }
    if after.contains(connections[p]) {
        let q = choose|q: int| 0 <= q < after.len() && after[q] == connections[p];
        let q0 = if q < p {
            q
        } else {
            q + 1
        };
        assert(connections[q0] != connections[p]);
    }
}

/// Contacts stay connected when one of them leaves.
pub proof fn lemma_connected_remove(nodes: Seq<NodeInfo>, i: int)
    requires
        connected(nodes),
        0 <= i < nodes.len(),
    ensures
        connected(nodes.remove(i)),
{
    let after = nodes.remove(i);
    assert forall|k: int| 0 <= k < after.len() implies sound_connections(
        #[trigger] after[k].connections@,
    ) by {
        let k0 = if k < i {
            k
        } else {
            k + 1
        };
        assert(after[k] == nodes[k0]);
        assert(sound_connections(nodes[k0].connections@));
    }
}

/// Contacts stay connected when one with sound connections joins.
pub proof fn lemma_connected_push(nodes: Seq<NodeInfo>, node: NodeInfo)
    requires
        connected(nodes),
        sound_connections(node.connections@),
    ensures
        connected(nodes.push(node)),
{
    let after = nodes.push(node);
    assert forall|k: int| 0 <= k < after.len() implies sound_connections(
        #[trigger] after[k].connections@,
    ) by {
        if k < nodes.len() {
            assert(after[k] == nodes[k]);
            assert(sound_connections(nodes[k].connections@));
        }
    }
}

/// Contacts stay connected when the connections of one are replaced by
/// sound ones.
pub proof fn lemma_connected_after(
    before: Seq<NodeInfo>,
    after: Seq<NodeInfo>,
    i: int,
    connections: Seq<Connection>,
)
    requires
        connected(before),
        same_but_connections(before, after, i, connections),
        sound_connections(connections),
    ensures
        connected(after),
{
    assert forall|k: int| 0 <= k < after.len() implies sound_connections(
        #[trigger] after[k].connections@,
    ) by {
        if k != i {
            assert(after[k] == before[k]);
            assert(sound_connections(before[k].connections@));
        }
    }
}

/// The first place at which `value` stands in `list`.
pub fn position_of(list: &Vec<Connection>, value: Connection) -> (r: Option<usize>)
    ensures
        match r {
            Some(p) => first_occurrence(list@, p as int, value),
            None => !list@.contains(value),
        },
{
    let mut p: usize = 0;
    while p < list.len()
        invariant
            0 <= p <= list.len(),
            forall|q: int| 0 <= q < p ==> list@[q] != value,
        decreases list.len() - p,
    {
        if list[p] == value {
            return Some(p);
        }
        p += 1;
    }
    None
}

/// Lists that agree in their names, place by place, agree in what the
/// table's invariant says of them.
pub proof fn lemma_same_names(our: XorName, a: Seq<NodeInfo>, b: Seq<NodeInfo>)
    requires
        a.len() == b.len(),
        forall|j: int| 0 <= j < a.len() ==> #[trigger] a[j].public_id.name == b[j].public_id.name,
    ensures
        distinct_names(a) ==> distinct_names(b),
        has_name(b, our) ==> has_name(a, our),
        forall|c: nat| count_in_bucket(our, a, c) == count_in_bucket(our, b, c),
    decreases a.len(),
{
    if distinct_names(a) {
        assert forall|i: int, j: int| 0 <= i < j < b.len() implies #[trigger] b[i].public_id.name
            != #[trigger] b[j].public_id.name by {
            assert(a[i].public_id.name != a[j].public_id.name);
        }
    }
    if has_name(b, our) {
        let k = choose|k: int| 0 <= k < b.len() && #[trigger] b[k].public_id.name == our;
        assert(a[k].public_id.name == our);
    }
    if a.len() > 0 {
        assert forall|j: int| 0 <= j < a.drop_last().len() implies #[trigger] a.drop_last()[j].public_id.name
            == b.drop_last()[j].public_id.name by {
            assert(a[j].public_id.name == b[j].public_id.name);
        }
        lemma_same_names(our, a.drop_last(), b.drop_last());
        assert(a.last().public_id.name == b.last().public_id.name) by {
            assert(a[a.len() - 1].public_id.name == b[a.len() - 1].public_id.name);
        }
        assert forall|c: nat| count_in_bucket(our, a, c) == count_in_bucket(our, b, c) by {
            assert(count_in_bucket(our, a.drop_last(), c) == count_in_bucket(
                our,
                b.drop_last(),
                c,
            ));
        }
    }
}

/// Taking a contact out keeps the names distinct and brings no name in.
pub proof fn lemma_remove_keeps_wf(our: XorName, nodes: Seq<NodeInfo>, i: int)
    requires
        0 <= i < nodes.len(),
        distinct_names(nodes),
        !has_name(nodes, our),
    ensures
        distinct_names(nodes.remove(i)),
        !has_name(nodes.remove(i), our),
{
    let mid = nodes.remove(i);
    if has_name(mid, our) {
        let k = choose|k: int| 0 <= k < mid.len() && #[trigger] mid[k].public_id.name == our;
        let k0 = if k < i {
            k
        } else {
            k + 1
        };
        assert(nodes[k0].public_id.name == our);
    }
}

/// More than half of `n`, and never less than one.
pub fn quorum_size(n: usize) -> (q: usize)
    ensures
        q == quorum_of(n as nat),
        q >= 1,
        2 * q > n,
        2 * (q - 1) <= n,
{
    n / 2 + 1
}

/// A candidate that is neither the owner nor a contact is turned away by
/// `want_to_add` exactly when no place is free in its distance class and no
/// contact of that class is strictly farther from the owner than it is.
pub proof fn lemma_want_to_add_refuses(table: RoutingTable, candidate: XorName)
    requires
        table.wf(),
        candidate != table.name(),
        !has_name(table.nodes(), candidate),
    ensures
        !table.wants(candidate) <==> table.bucket_len(candidate) >= table.bucket_capacity()
            && forall|i: int| !farther_in_bucket(table.name(), table.nodes(), i, candidate),
{
}

/// What the table takes it wanted, and what it wanted it takes: `add_node`
/// answers `Rejected` exactly for the candidates of which `want_to_add` says
/// no and for those that come without sound connections, and a contact that
/// leaves is the farthest of its distance class.
pub proof fn lemma_add_follows_want(pre: RoutingTable, post: RoutingTable, node: NodeInfo, r: AddResult)
    requires
        pre.wf(),
        after_add_node(pre, post, node, r),
    ensures
        r is Rejected <==> !takes(pre, node),
        r is Rejected ==> post.nodes() == pre.nodes(),
        !(r is Rejected) ==> has_name(post.nodes(), node.public_id.name),
        r matches AddResult::AddedAndEvicted(gone) ==> bucket_index(
            pre.name(),
            gone.public_id.name,
        ) == bucket_index(pre.name(), node.public_id.name) && distance(
            node.public_id.name,
            pre.name(),
        ) < distance(gone.public_id.name, pre.name()) && !has_name(
            post.nodes(),
            gone.public_id.name,
        ),
{
    match r {
        AddResult::Rejected => {},
        AddResult::Added => {
            let n = pre.nodes().len() as int;
            assert(post.nodes()[n].public_id.name == node.public_id.name);
        },
        AddResult::AddedAndEvicted(gone) => {
            let j = choose|j: int|
                farthest_in_bucket(
                    pre.name(),
                    pre.nodes(),
                    j,
                    bucket_index(pre.name(), node.public_id.name),
                ) && pre.nodes()[j] == gone && post.nodes() == pre.nodes().remove(j).push(node);
            let n = post.nodes().len() as int - 1;
            assert(post.nodes()[n].public_id.name == node.public_id.name);
            if has_name(post.nodes(), gone.public_id.name) {
                let k = choose|k: int|
                    0 <= k < post.nodes().len() && #[trigger] post.nodes()[k].public_id.name
                        == gone.public_id.name;
                if k < n {
                    let k0 = if k < j {
                        k
                    } else {
                        k + 1
                    };
                    assert(pre.nodes()[k0].public_id.name == gone.public_id.name);
                }
            }
            if exists|i: int| farther_in_bucket(pre.name(), pre.nodes(), i, node.public_id.name) {
                let i = choose|i: int|
                    farther_in_bucket(pre.name(), pre.nodes(), i, node.public_id.name);
                assert(distance(pre.nodes()[i].public_id.name, pre.name()) <= distance(
                    gone.public_id.name,
                    pre.name(),
                ));
            } else {
                assert(pre.bucket_len(node.public_id.name) < pre.bucket_capacity());
            }
        },
    }
}

/// Two contacts with the same name are the same contact.
pub proof fn lemma_listed_by_name(nodes: Seq<NodeInfo>, a: PublicId, b: PublicId)
    requires
        distinct_names(nodes),
        listed_in(nodes, a),
        listed_in(nodes, b),
        a.name == b.name,
    ensures
        a == b,
{
    let i = choose|i: int| 0 <= i < nodes.len() && nodes[i].public_id == a;
    let j = choose|j: int| 0 <= j < nodes.len() && nodes[j].public_id == b;
    if i != j {
        assert(nodes[i].public_id.name != nodes[j].public_id.name);
    }
}

/// A table has one close group around a target: two lists that both are
/// the close group agree member for member.
pub proof fn lemma_close_group_unique(
    nodes: Seq<NodeInfo>,
    target: XorName,
    k: nat,
    first: Seq<PublicId>,
    second: Seq<PublicId>,
)
    requires
        distinct_names(nodes),
        is_close_group(nodes, target, k, first),
        is_close_group(nodes, target, k, second),
    ensures
        first == second,
{
    assert forall|a: int| 0 <= a < first.len() implies first[a] == second[a] by {
        lemma_close_group_agree(nodes, target, k, first, second, a);
    }
    assert(first =~= second);
}

/// Two close groups of one table around one target agree at every place.
pub proof fn lemma_close_group_agree(
    nodes: Seq<NodeInfo>,
    target: XorName,
    k: nat,
    first: Seq<PublicId>,
    second: Seq<PublicId>,
    a: int,
)
    requires
        distinct_names(nodes),
        is_close_group(nodes, target, k, first),
        is_close_group(nodes, target, k, second),
        0 <= a < first.len(),
    ensures
        first[a] == second[a],
    decreases a,
{
    assert forall|c: int| 0 <= c < a implies first[c] == second[c] by {
        lemma_close_group_agree(nodes, target, k, first, second, c);
    }
    let x = first[a];
    let y = second[a];
    if x != y {
        assert(listed_in(nodes, x));
        assert(listed_in(nodes, y));
        if x.name == y.name {
            lemma_listed_by_name(nodes, x, y);
        }
        crate::xor_name::lemma_distance_injective(x.name, y.name, target);
        assert forall|c: int| 0 <= c < a implies second[c] != x && first[c] != y by {
            assert(distance(first[c].name, target) < distance(first[a].name, target));
            assert(distance(second[c].name, target) < distance(second[a].name, target));
        }
        lemma_not_behind(nodes, target, second, a, x);
        lemma_not_behind(nodes, target, first, a, y);
    }
}

/// The member at place `a` of a close group is at most as far from the
/// target as any contact that is none of the members before that place.
pub proof fn lemma_not_behind(
    nodes: Seq<NodeInfo>,
    target: XorName,
    group: Seq<PublicId>,
    a: int,
    x: PublicId,
)
    requires
        0 <= a < group.len(),
        listed_in(nodes, x),
        ascending(group, target),
        forall|c: int| 0 <= c < a ==> group[c] != x,
        forall|j: int| 0 <= j < nodes.len() ==> covered_by(group, target, #[trigger] nodes[j].public_id),
    ensures
        distance(group[a].name, target) <= distance(x.name, target),
{
    let j = choose|j: int| 0 <= j < nodes.len() && nodes[j].public_id == x;
    assert(covered_by(group, target, nodes[j].public_id));
    if exists|c: int| 0 <= c < group.len() && group[c] == x {
        let c = choose|c: int| 0 <= c < group.len() && group[c] == x;
        if c > a {
            assert(distance(group[a].name, target) < distance(group[c].name, target));
        }
    } else {
        assert(distance(group[a].name, target) < distance(x.name, target));
    }
}

} // verus!
