//! Suggesting an exit node.
//!
//! The choice among the candidates is made elsewhere, by latency and by chance. Here stand the
//! candidates that it is made from, and what is remembered of it.
use vstd::prelude::*;

use crate::ask;
use crate::error::{Error, ErrorKind};
use crate::net::{IpNet, Ipv4Net, Ipv6Net};
use crate::node;
use crate::node::Node;
use crate::runtime::Runtime;

verus! {

/// A peer as the choice of an exit node sees it.
#[derive(Debug, PartialEq, Eq)]
pub struct ExitNodeCandidate {
    /// The stable id.
    pub stable_id: String,
    /// The name a user knows the peer by.
    pub name: String,
    /// The home relay region.
    pub derp_region: Option<u32>,
    /// Whether the peer is online, where control says so.
    pub online: Option<bool>,
    /// Whether the peer offers a default route.
    pub advertises_exit_route: bool,
    /// Whether the peer holds the suggest-exit-node attribute.
    pub has_suggest_cap: bool,
}

/// A suggested exit node.
#[derive(Debug, PartialEq, Eq)]
pub struct ExitNodeSuggestion {
    /// The stable id.
    pub stable_id: String,
    /// The name a user knows the node by.
    pub name: String,
}

/// Why no exit node could be suggested.
#[derive(Debug, Clone, Copy, PartialEq, Eq, Structural)]
pub enum SuggestExitNodeError {
    /// There is no measurement of the relays yet; try again later.
    NoPreferredDerp,
}

/// A peer as the choice of an exit node sees it; `suggest_attr` is the suggest-exit-node attribute.
pub open spec fn candidate(peer: Node, suggest_attr: Seq<char>) -> ExitNodeCandidate {
    ExitNodeCandidate {
        stable_id: peer.stable_id,
        name: peer.spec_name(),
        derp_region: peer.derp_region,
        online: peer.online,
        advertises_exit_route: node::has_default_route(peer.accepted_routes@),
        has_suggest_cap: node::holds_attr(peer.attrs@, suggest_attr),
    }
}

/// The peers as the choice of an exit node sees them.
pub open spec fn candidates_of(peers: Seq<Node>, suggest_attr: Seq<char>) -> Seq<
    ExitNodeCandidate,
> {
    peers.map_values(|p: Node| candidate(p, suggest_attr))
}

/// The peers as the choice of an exit node sees them. Every peer is passed on: which of them are
/// eligible is part of the choice.
pub fn candidates(peers: &Vec<Node>, suggest_attr: &str) -> (r: Vec<ExitNodeCandidate>)
    ensures
        r@ == candidates_of(peers@, suggest_attr@),
{
    let mut found: Vec<ExitNodeCandidate> = Vec::new();
    let mut i: usize = 0;
    while i < peers.len()
        invariant
            0 <= i <= peers.len(),
            found@ =~= candidates_of(peers@, suggest_attr@).take(i as int),
        decreases peers.len() - i,
    {
        let peer = &peers[i];
        found.push(
            ExitNodeCandidate {
                stable_id: peer.stable_id.clone(),
                name: peer.name().clone(),
                derp_region: peer.derp_region,
                online: peer.online,
                advertises_exit_route: peer.advertises_exit_route(),
                has_suggest_cap: peer.has_node_attr(suggest_attr),
            },
        );
        i += 1;
    }
    assert(found@ =~= candidates_of(peers@, suggest_attr@));
    found
}

/// What is remembered of a choice: the suggested node, nothing if no peer was eligible, and what
/// was remembered before if no choice could be made.
pub open spec fn sticky_after(
    prev: Option<String>,
    outcome: Result<Option<ExitNodeSuggestion>, SuggestExitNodeError>,
) -> Option<String> {
    match outcome {
        Ok(Some(suggestion)) => Some(suggestion.stable_id),
        Ok(None) => None,
        Err(_) => prev,
    }
}

/// What to remember of a choice. A suggestion is remembered, an empty result clears the memory (a
/// peer that dropped out of candidacy stops being preferred), and only an error leaves it alone.
pub fn next_sticky(
    prev: Option<String>,
    outcome: &Result<Option<ExitNodeSuggestion>, SuggestExitNodeError>,
) -> (r: Option<String>)
    ensures
        r == sticky_after(prev, *outcome),
{
    match outcome {
        Ok(Some(suggestion)) => Some(suggestion.stable_id.clone()),
        Ok(None) => None,
        Err(_) => prev,
    }
}

/// A request for a suggestion that asks the control runner for the latest measurement.
#[derive(Debug, PartialEq, Eq)]
pub struct AsksNetcheck;

/// A request for a suggestion that asks the peer tracker for all peers.
#[derive(Debug, PartialEq, Eq)]
pub struct AsksPeers<R> {
    /// The latest measurement.
    pub report: R,
}

/// A request for a suggestion that wants the choice to be made.
#[derive(Debug)]
pub struct Chooses<R> {
    /// The latest measurement.
    pub report: R,
    /// The candidates.
    pub candidates: Vec<ExitNodeCandidate>,
    /// The stable id of the exit node that was suggested last.
    pub prev: Option<String>,
}

impl AsksNetcheck {
    /// How the request goes on with the measurement.
    pub open spec fn after<R, E>(self, reply: Result<R, E>, tracker: bool) -> Result<
        AsksPeers<R>,
        Error<E>,
    > {
        match ask::asked(reply) {
            Err(e) => Err(e),
            Ok(report) => match ask::reachable::<E>(tracker) {
                Err(e) => Err(e),
                Ok(_) => Ok(AsksPeers { report }),
            },
        }
    }

    /// Goes on with the measurement. `tracker` tells whether the peer tracker is still there.
    pub fn reply<R, E>(self, reply: Result<R, E>, tracker: bool) -> (r: Result<
        AsksPeers<R>,
        Error<E>,
    >)
        ensures
            r == self.after(reply, tracker),
    {
        match ask::answer(reply) {
            Err(e) => Err(e),
            Ok(report) => match ask::reach(tracker) {
                Err(e) => Err(e),
                Ok(_) => Ok(AsksPeers { report }),
            },
        }
    }
}

impl<R> AsksPeers<R> {
    /// Goes on with the peers, and with what the runtime remembers. `suggest_attr` is the
    /// suggest-exit-node attribute.
    pub fn reply<S, E>(
        self,
        runtime: &Runtime<S>,
        suggest_attr: &str,
        reply: Result<Vec<Node>, E>,
    ) -> (r: Result<Chooses<R>, Error<E>>)
        ensures
            match ask::asked(reply) {
                Err(e) => r == Err::<Chooses<R>, Error<E>>(e),
                Ok(peers) => {
                    &&& r matches Ok(next)
                    &&& next.report == self.report
                    &&& next.candidates@ == candidates_of(peers@, suggest_attr@)
                    &&& next.prev == runtime.prev_suggestion
                },
            },
    {
        match ask::answer(reply) {
            Err(e) => Err(e),
            Ok(peers) => Ok(
                Chooses {
                    report: self.report,
                    candidates: candidates(&peers, suggest_attr),
                    prev: runtime.prev_suggestion.clone(),
                },
            ),
        }
    }
}

impl<R> Chooses<R> {
    /// Ends with the choice, of which the runtime takes note.
    pub fn reply<S>(
        self,
        runtime: &mut Runtime<S>,
        outcome: Result<Option<ExitNodeSuggestion>, SuggestExitNodeError>,
    ) -> (r: Result<Option<ExitNodeSuggestion>, SuggestExitNodeError>)
        ensures
            r == outcome,
            *final(runtime) == (Runtime {
                prev_suggestion: sticky_after(self.prev, outcome),
                ..*old(runtime)
            }),
    {
        runtime.prev_suggestion = next_sticky(self.prev, &outcome);
        outcome
    }
}

impl<S> Runtime<S> {
    /// Suggest a reasonably good exit node to use, from the current netmap and the latest
    /// measurement of the relays. The suggestion is remembered, so that the next one can stick to
    /// it.
    pub fn suggest_exit_node(&self) -> (r: AsksNetcheck)
        ensures
            r == AsksNetcheck,
    {
        AsksNetcheck
    }
}

/// What is remembered is exactly the last choice that could be made: a suggestion sets it, an empty
/// result clears it, and a choice that could not be made changes nothing, before or after.
pub proof fn law_stickiness_follows_the_last_choice(
    prev: Option<String>,
    first: Result<Option<ExitNodeSuggestion>, SuggestExitNodeError>,
    second: Result<Option<ExitNodeSuggestion>, SuggestExitNodeError>,
)
    ensures
        second is Ok ==> sticky_after(sticky_after(prev, first), second) == sticky_after(
            None,
            second,
        ),
        second is Err ==> sticky_after(sticky_after(prev, first), second) == sticky_after(
            prev,
            first,
        ),
        first == Ok::<Option<ExitNodeSuggestion>, SuggestExitNodeError>(None) ==> sticky_after(
            prev,
            first,
        ) is None,
{
}

/// Every peer is a candidate, in order, with its own id, name, region and online state; it offers an
/// exit exactly if one of its accepted routes, of either family, has a prefix of length zero, and
/// may be suggested exactly if it holds the attribute.
pub proof fn law_candidates(peers: Seq<Node>, suggest_attr: Seq<char>, i: int)
    requires
        0 <= i < peers.len(),
    ensures
        ({
            let all = candidates_of(peers, suggest_attr);
            let (peer, c) = (peers[i], all[i]);
            &&& all.len() == peers.len()
            &&& c.stable_id == peer.stable_id
            &&& peer.fqdn matches Some(fqdn) ==> c.name == fqdn
            &&& peer.fqdn is None ==> c.name == peer.hostname
            &&& c.derp_region == peer.derp_region
            &&& c.online == peer.online
            &&& c.advertises_exit_route <==> (exists|k: int|
                #![trigger peer.accepted_routes@[k]]
                0 <= k < peer.accepted_routes@.len() && (match peer.accepted_routes@[k] {
                    IpNet::V4(net) => net.prefix_len == 0,
                    IpNet::V6(net) => net.prefix_len == 0,
                }))
            &&& peer.accepted_routes@.contains(IpNet::V4(Ipv4Net { addr: 0, prefix_len: 0 }))
                ==> c.advertises_exit_route
            &&& c.has_suggest_cap <==> (exists|k: int|
                #![trigger peer.attrs@[k]]
                0 <= k < peer.attrs@.len() && peer.attrs@[k]@ == suggest_attr)
        }),
{
    node::law_default_routes(
        peers[i].accepted_routes@,
        seq![],
        Ipv4Net { addr: 0, prefix_len: 0 },
        Ipv6Net { addr: 0, prefix_len: 0 },
    );
}

/// Without peers there are no candidates.
pub proof fn law_no_peers_no_candidates(suggest_attr: Seq<char>)
    ensures
        candidates_of(seq![], suggest_attr).len() == 0,
{
}

/// What is remembered is the id of the suggestion itself.
pub proof fn law_a_suggestion_is_remembered_by_its_id(
    prev: Option<String>,
    suggestion: ExitNodeSuggestion,
    e: SuggestExitNodeError,
)
    ensures
        sticky_after(prev, Ok(Some(suggestion))) == Some(suggestion.stable_id),
        sticky_after(prev, Ok(None)) is None,
        sticky_after(prev, Err(e)) == prev,
{
}

/// A request for a suggestion goes on with the measurement as it came, unless the request failed or
/// the peer tracker is gone.
pub proof fn law_suggestion_goes_on<R, E>(asks: AsksNetcheck, report: R, e: E, tracker: bool)
    ensures
        asks.after::<R, E>(Ok(report), true) == Ok::<AsksPeers<R>, Error<E>>(AsksPeers { report }),
        asks.after::<R, E>(Ok(report), false) == Err::<AsksPeers<R>, Error<E>>(
            Error::Runtime(ErrorKind::ActorGone),
        ),
        asks.after::<R, E>(Err(e), tracker) == Err::<AsksPeers<R>, Error<E>>(Error::Ask(e)),
{
}

} // verus!
