//! The peers that a file can be sent to.
use vstd::prelude::*;

use crate::ask;
use crate::ask::Step;
use crate::error::Error;
use crate::node::Node;
use crate::runtime::Runtime;
use crate::text;
use crate::text::Comparison;

verus! {

/// Whether a file can be sent to `peer` from a node of `user_id`: the peer advertises a reachable
/// peerAPI, and either belongs to the same user or is explicitly granted as a target.
pub open spec fn is_target(peer: Node, user_id: i64) -> bool {
    peer.peerapi && (peer.user_id == user_id || peer.file_sharing_target)
}

/// How the names of two nodes compare.
pub open spec fn compare_names(a: Node, b: Node) -> Comparison {
    text::compare_text(a.spec_name()@, b.spec_name()@)
}

/// A sorted list with one more node: behind the nodes whose name is not greater.
pub open spec fn insert_by_name(kept: Seq<Node>, node: Node) -> Seq<Node>
    decreases kept.len(),
{
    if kept.len() == 0 || !(compare_names(kept.last(), node) is After) {
        kept.push(node)
    } else {
        insert_by_name(kept.drop_last(), node).push(kept.last())
    }
}

/// The targets among `peers`, sorted by name; of two targets with one name, the one that comes
/// first stays first.
pub open spec fn targets(peers: Seq<Node>, user_id: i64) -> Seq<Node>
    decreases peers.len(),
{
    if peers.len() == 0 {
        seq![]
    } else {
        let before = targets(peers.drop_last(), user_id);
        if is_target(peers.last(), user_id) {
            insert_by_name(before, peers.last())
        } else {
            before
        }
    }
}

proof fn lemma_insert_at(kept: Seq<Node>, node: Node, at: int)
    requires
        0 <= at <= kept.len(),
        at > 0 ==> !(compare_names(kept[at - 1], node) is After),
        forall|k: int| at <= k < kept.len() ==> compare_names(#[trigger] kept[k], node) is After,
    ensures
        insert_by_name(kept, node) == kept.insert(at, node),
    decreases kept.len(),
{
    if at == kept.len() {
        assert(kept.insert(at, node) =~= kept.push(node));
    } else {
        assert(compare_names(kept[kept.len() - 1], node) is After);
        lemma_insert_at(kept.drop_last(), node, at);
        assert(kept.insert(at, node) =~= kept.drop_last().insert(at, node).push(kept.last()));
    }
}

/// The targets among `peers` for a node of `user_id`, sorted by name.
pub fn build_file_targets(peers: Vec<Node>, user_id: i64) -> (r: Vec<Node>)
    ensures
        r@ == targets(peers@, user_id),
{
    let ghost all = peers@;
    let mut kept: Vec<Node> = Vec::new();
    assert(all.take(0) =~= seq![]);
    for peer in it: peers.into_iter()
        invariant
            it.seq() == all,
            kept@ == targets(all.take(it.index()), user_id),
    {
        assert(all.take(it.index() + 1).drop_last() =~= all.take(it.index()));
        if peer.peerapi && (peer.user_id == user_id || peer.file_sharing_target) {
            let mut at: usize = kept.len();
            while at > 0 && text::compare_str(
                kept[at - 1].name().as_str(),
                peer.name().as_str(),
            ) == Comparison::After
                invariant
                    0 <= at <= kept.len(),
                    forall|k: int|
                        at <= k < kept.len() ==> compare_names(#[trigger] kept@[k], peer) is After,
                decreases at,
            {
                at -= 1;
            }
            proof {
                lemma_insert_at(kept@, peer, at as int);
            }
            kept.insert(at, peer);
        }
    }
    assert(all.take(all.len() as int) =~= all);
    kept
}

/// A request for the targets that asks the control runner for this node.
#[derive(Debug, PartialEq, Eq)]
pub struct AsksSelf;

/// A request for the targets that asks the peer tracker for all peers.
#[derive(Debug, PartialEq, Eq)]
pub struct AsksPeers {
    /// The user that owns this node.
    pub user_id: i64,
}

impl AsksSelf {
    /// Goes on with this node: there are no targets before the first netmap, and none for a node
    /// without the file-sharing capability. `tracker` tells whether the peer tracker is still
    /// there.
    pub fn reply<E>(self, reply: Result<Option<Node>, E>, tracker: bool) -> (r: Result<
        Step<AsksPeers, Vec<Node>>,
        Error<E>,
    >)
        ensures
            match ask::asked(reply) {
                Err(e) => r == Err::<Step<AsksPeers, Vec<Node>>, Error<E>>(e),
                Ok(node) => if node matches Some(n) && n.can_share_files {
                    match ask::reachable::<E>(tracker) {
                        Err(e) => r == Err::<Step<AsksPeers, Vec<Node>>, Error<E>>(e),
                        Ok(_) => r == Ok::<Step<AsksPeers, Vec<Node>>, Error<E>>(
                            Step::Ask(AsksPeers { user_id: node->Some_0.user_id }),
                        ),
                    }
                } else {
                    r matches Ok(Step::Done(none)) && none@ == Seq::<Node>::empty()
                },
            },
    {
        match ask::answer(reply) {
            Err(e) => Err(e),
            Ok(None) => Ok(Step::Done(Vec::new())),
            Ok(Some(node)) => {
                if !node.can_share_files {
                    return Ok(Step::Done(Vec::new()));
                }
                match ask::reach(tracker) {
                    Err(e) => Err(e),
                    Ok(_) => Ok(Step::Ask(AsksPeers { user_id: node.user_id })),
                }
            },
        }
    }
}

impl AsksPeers {
    /// Ends with the targets among all peers.
    pub fn reply<E>(self, reply: Result<Vec<Node>, E>) -> (r: Result<Vec<Node>, Error<E>>)
        ensures
            match ask::asked(reply) {
                Err(e) => r == Err::<Vec<Node>, Error<E>>(e),
                Ok(peers) => r matches Ok(found) && found@ == targets(peers@, self.user_id),
            },
    {
        match ask::answer(reply) {
            Err(e) => Err(e),
            Ok(peers) => Ok(build_file_targets(peers, self.user_id)),
        }
    }
}

impl<S> Runtime<S> {
    /// List the tailnet peers this node can send a file *to*.
    ///
    /// The whole list is gated on this node holding the file-sharing capability: absent that, an
    /// empty list. Targets are listed regardless of current online state. Results are sorted by the
    /// peer's name.
    pub fn file_targets(&self) -> (r: AsksSelf)
        ensures
            r == AsksSelf,
    {
        AsksSelf
    }
}

/// Whether the names of `nodes` do not decrease.
pub open spec fn sorted_by_name(nodes: Seq<Node>) -> bool {
    forall|i: int, j: int|
        0 <= i < j < nodes.len() ==> !(compare_names(#[trigger] nodes[i], #[trigger] nodes[j])
            is After)
}

/// Where `insert_by_name` puts a node.
proof fn lemma_insert_position(kept: Seq<Node>, node: Node) -> (at: int)
    requires
        sorted_by_name(kept),
    ensures
        0 <= at <= kept.len(),
        insert_by_name(kept, node) == kept.insert(at, node),
        forall|k: int| at <= k < kept.len() ==> compare_names(#[trigger] kept[k], node) is After,
        forall|k: int| 0 <= k < at ==> !(compare_names(#[trigger] kept[k], node) is After),
    decreases kept.len(),
{
    if kept.len() == 0 || !(compare_names(kept.last(), node) is After) {
        let at = kept.len() as int;
        assert forall|k: int| 0 <= k < at implies !(compare_names(#[trigger] kept[k], node)
            is After) by {
            if k < at - 1 {
                lemma_not_after_transitive(kept[k], kept[at - 1], node);
            }
        }
        assert(kept.insert(at, node) =~= kept.push(node));
        at
    } else {
        let rest = kept.drop_last();
        assert(sorted_by_name(rest));
        let at = lemma_insert_position(rest, node);
        assert forall|k: int| at <= k < kept.len() implies compare_names(#[trigger] kept[k], node)
            is After by {
            if k < rest.len() {
                assert(rest[k] == kept[k]);
            }
        }
        assert forall|k: int| 0 <= k < at implies !(compare_names(#[trigger] kept[k], node)
            is After) by {
            assert(rest[k] == kept[k]);
        }
        assert(kept.insert(at, node) =~= rest.insert(at, node).push(kept.last()));
        at
    }
}

proof fn lemma_not_after_transitive(a: Node, b: Node, c: Node)
    requires
        !(compare_names(a, b) is After),
        !(compare_names(b, c) is After),
    ensures
        !(compare_names(a, c) is After),
{
    let (x, y, z) = (a.spec_name()@, b.spec_name()@, c.spec_name()@);
    text::lemma_compare_same(x, y);
    text::lemma_compare_same(y, z);
    if text::compare_text(x, y) is Before && text::compare_text(y, z) is Before {
        text::lemma_compare_transitive(x, y, z);
    }
}

/// The list holds every target among the peers as often as it occurs there, and nothing else; it is
/// sorted by name.
pub proof fn law_file_targets(peers: Seq<Node>, user_id: i64)
    ensures
        targets(peers, user_id).to_multiset() == peers.filter(
            |p: Node| is_target(p, user_id),
        ).to_multiset(),
        sorted_by_name(targets(peers, user_id)),
    decreases peers.len(),
{
    reveal(Seq::filter);
    let rule = |p: Node| is_target(p, user_id);
    let all = targets(peers, user_id);
    if peers.len() == 0 {
        assert(all =~= peers.filter(rule));
    } else {
        let rest = peers.drop_last();
        let last = peers.last();
        let before = targets(rest, user_id);
        law_file_targets(rest, user_id);
        if is_target(last, user_id) {
            let at = lemma_insert_position(before, last);
            vstd::seq_lib::to_multiset_insert(before, at, last);
            vstd::seq_lib::to_multiset_build(rest.filter(rule), last);
            assert forall|i: int, j: int| 0 <= i < j < all.len() implies !(compare_names(
                #[trigger] all[i],
                #[trigger] all[j],
            ) is After) by {
                let p = if i < at { i } else { i - 1 };
                let q = if j < at { j } else { j - 1 };
                if i == at {
                    assert(compare_names(before[q], last) is After);
                    text::lemma_compare_swap(before[q].spec_name()@, last.spec_name()@);
                } else if j == at {
                    assert(!(compare_names(before[p], last) is After));
                } else {
                    assert(!(compare_names(before[p], before[q]) is After));
                }
            }
        }
    }
}

/// A peer is listed if and only if it is a target.
pub proof fn law_file_targets_are_the_eligible_peers(peers: Seq<Node>, user_id: i64, peer: Node)
    ensures
        targets(peers, user_id).contains(peer) <==> peers.contains(peer) && is_target(
            peer,
            user_id,
        ),
{
    broadcast use vstd::seq_lib::group_filter_ensures;

    law_file_targets(peers, user_id);
    let rule = |p: Node| is_target(p, user_id);
    let found = peers.filter(rule);
    vstd::seq_lib::to_multiset_contains(targets(peers, user_id), peer);
    vstd::seq_lib::to_multiset_contains(found, peer);
    if peers.contains(peer) && is_target(peer, user_id) {
        let i = choose|i: int| 0 <= i < peers.len() && peers[i] == peer;
        assert(rule(peers[i]));
        assert(found.contains(peers[i]));
    }
    if found.contains(peer) {
        peers.lemma_filter_contains_rev(rule, peer);
        let k = choose|k: int| 0 <= k < found.len() && found[k] == peer;
        assert(rule(found[k]));
    }
}

/// Whom a file can be sent to, by the peer's own fields: it advertises a peerAPI, and belongs to the
/// same user or is granted as a target. Whether it is online, and everything else, does not matter:
/// two peers that agree on these fields are listed alike.
pub proof fn law_who_is_a_target(peers: Seq<Node>, user_id: i64, peer: Node, other: Node)
    ensures
        targets(peers, user_id).contains(peer) <==> peers.contains(peer) && peer.peerapi && (
        peer.user_id == user_id || peer.file_sharing_target),
        peers.contains(peer) && peers.contains(other) && peer.peerapi == other.peerapi
            && peer.user_id == other.user_id && peer.file_sharing_target
            == other.file_sharing_target ==> (targets(peers, user_id).contains(peer) <==> targets(
            peers,
            user_id,
        ).contains(other)),
{
    law_file_targets_are_the_eligible_peers(peers, user_id, peer);
    law_file_targets_are_the_eligible_peers(peers, user_id, other);
}

/// The list is sorted by name: of two targets, the one that comes first has no name behind the
/// other's, a name being the MagicDNS name, or the host name without one.
pub proof fn law_targets_are_sorted(peers: Seq<Node>, user_id: i64, i: int, j: int)
    requires
        0 <= i < j < targets(peers, user_id).len(),
    ensures
        ({
            let (a, b) = (targets(peers, user_id)[i], targets(peers, user_id)[j]);
            let (x, y) = (
                match a.fqdn {
                    Some(fqdn) => fqdn@,
                    None => a.hostname@,
                },
                match b.fqdn {
                    Some(fqdn) => fqdn@,
                    None => b.hostname@,
                },
            );
            forall|k: int| !text::comes_first_at(y, x, k)
        }),
{
    law_file_targets(peers, user_id);
    let (a, b) = (targets(peers, user_id)[i], targets(peers, user_id)[j]);
    text::law_dictionary_order(a.spec_name()@, b.spec_name()@);
    text::law_dictionary_order(b.spec_name()@, a.spec_name()@);
}

/// The targets of one name are the peers of that name to which a file can be sent, as often as they
/// occur and in the order in which they came.
pub proof fn law_targets_of_one_name(peers: Seq<Node>, user_id: i64, name: Seq<char>)
    ensures
        targets(peers, user_id).filter(|n: Node| n.spec_name()@ == name) == peers.filter(
            |n: Node|
                n.peerapi && (n.user_id == user_id || n.file_sharing_target) && n.spec_name()@
                    == name,
        ),
    decreases peers.len(),
{
    reveal(Seq::filter);
    let named = |n: Node| n.spec_name()@ == name;
    let wanted = |n: Node|
        n.peerapi && (n.user_id == user_id || n.file_sharing_target) && n.spec_name()@ == name;
    if peers.len() == 0 {
        assert(targets(peers, user_id).filter(named) =~= peers.filter(wanted));
    } else {
        let rest = peers.drop_last();
        law_targets_of_one_name(rest, user_id, name);
        if is_target(peers.last(), user_id) {
            lemma_insert_keeps_a_name(targets(rest, user_id), peers.last(), name);
        }
    }
}

proof fn lemma_insert_keeps_a_name(kept: Seq<Node>, node: Node, name: Seq<char>)
    ensures
        ({
            let named = |n: Node| n.spec_name()@ == name;
            insert_by_name(kept, node).filter(named) == (if node.spec_name()@ == name {
                kept.filter(named).push(node)
            } else {
                kept.filter(named)
            })
        }),
    decreases kept.len(),
{
    reveal(Seq::filter);
    let named = |n: Node| n.spec_name()@ == name;
    if kept.len() == 0 || !(compare_names(kept.last(), node) is After) {
        assert(kept.push(node).drop_last() =~= kept);
    } else {
        let rest = kept.drop_last();
        lemma_insert_keeps_a_name(rest, node, name);
        let longer = insert_by_name(rest, node).push(kept.last());
        assert(longer.drop_last() =~= insert_by_name(rest, node));
        text::lemma_compare_same(kept.last().spec_name()@, node.spec_name()@);
    }
}

} // verus!
