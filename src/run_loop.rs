use vstd::prelude::*;

use crate::behaviour::{KMBehaviourEvent, MdnsEvent, FloodsubEvent, KademliaEvent, Topic};
use crate::peer::PeerId;

verus! {

/// The phases of the network task.
#[derive(Debug, Clone, Copy, PartialEq, Eq, Structural)]
pub enum LoopState {
    /// Identity, transport and protocols are being set up.
    Starting,
    /// Reacting to timer ticks, send requests and network events.
    Running,
    /// The shutdown signal was seen; the loop leaves its select.
    Draining,
    /// The task has returned.
    Stopped,
}

/// What the swarm reports: an event of the composite behaviour, or a change
/// of a connection.
#[derive(Debug)]
pub enum SwarmEvent {
    Behaviour(KMBehaviourEvent),
    ConnectionEstablished { peer: PeerId },
    ConnectionClosed { peer: PeerId },
    /// Listener and dial bookkeeping that the node only observes.
    Other,
}

/// The sources that the run loop races.
#[derive(Debug)]
pub enum LoopEvent {
    /// The periodic announcement timer fired.
    Tick,
    /// The HTTP side asked for a message to be sent.
    SendRequest { topic: Topic, content: String },
    /// The swarm produced an event.
    Network(SwarmEvent),
    /// The process asked the task to stop.
    Shutdown,
}

/// What the run loop asks of the swarm in reaction to an event.
#[derive(Debug)]
pub enum LoopAction {
    /// Publish a presence announcement.
    BroadcastDiscovery,
    /// Publish an application message.
    SendMessage { topic: Topic, content: String },
    /// Dial a newly seen peer; a failure is logged, not retried.
    Dial(PeerId),
    /// Hand a received payload to the behaviour's message handler.
    HandleMessage { data: Vec<u8>, source: PeerId },
    /// Leave the loop.
    Stop,
}

/// The identifiers of the peers of a discovery announcement, in order.
pub open spec fn announced_peers(ps: Seq<(PeerId, String)>) -> Seq<Seq<char>> {
    ps.map_values(|p: (PeerId, String)| p.0@)
}

/// The peers that an event brings to the node's notice: those announced by
/// local discovery, in order, or the peer whose route was updated.
pub open spec fn dial_candidates(e: LoopEvent) -> Seq<Seq<char>> {
    match e {
        LoopEvent::Network(
            SwarmEvent::Behaviour(KMBehaviourEvent::Mdns(MdnsEvent::Discovered(ps))),
        ) => announced_peers(ps@),
        LoopEvent::Network(
            SwarmEvent::Behaviour(KMBehaviourEvent::Kademlia(KademliaEvent::RoutingUpdated { peer })),
        ) => seq![peer@],
        _ => Seq::empty(),
    }
}

/// Takes `cands` in order against the set `seen`: each candidate not yet
/// seen is added and dialled; one already seen is passed over. Gives the new
/// set and the peers dialled.
pub open spec fn take_new_peers(seen: Seq<Seq<char>>, cands: Seq<Seq<char>>) -> (
    Seq<Seq<char>>,
    Seq<Seq<char>>,
)
    decreases cands.len(),
{
    if cands.len() == 0 {
        (seen, Seq::empty())
    } else {
        let prev = take_new_peers(seen, cands.drop_last());
        if prev.0.contains(cands.last()) {
            prev
        } else {
            (prev.0.push(cands.last()), prev.1.push(cands.last()))
        }
    }
}

/// Whether `actions` are exactly dials of `peers`, in order.
pub open spec fn dials_exactly(actions: Seq<LoopAction>, peers: Seq<Seq<char>>) -> bool {
    &&& actions.len() == peers.len()
    &&& forall|i: int| 0 <= i < peers.len() ==> (#[trigger] actions[i] matches LoopAction::Dial(p)
        && p@ == peers[i])
}

/// How the loop reacts to `e` in state `s` with discovered set `seen`,
/// leaving state `s2`, set `seen2` and asking for `actions`.
pub open spec fn reaction(
    s: LoopState,
    seen: Seq<Seq<char>>,
    e: LoopEvent,
    s2: LoopState,
    seen2: Seq<Seq<char>>,
    actions: Seq<LoopAction>,
) -> bool {
    if s != LoopState::Running {
        s2 == s && seen2 == seen && actions.len() == 0
    } else {
        match e {
            LoopEvent::Tick => {
                &&& s2 == LoopState::Running
                &&& seen2 == seen
                &&& actions.len() == 1
                &&& actions[0] is BroadcastDiscovery
            },
            LoopEvent::SendRequest { topic, content } => {
                &&& s2 == LoopState::Running
                &&& seen2 == seen
                &&& actions.len() == 1
                &&& (actions[0] matches LoopAction::SendMessage { topic: t, content: c } && t@
                    == topic@ && c@ == content@)
            },
            LoopEvent::Shutdown => {
                &&& s2 == LoopState::Draining
                &&& seen2 == seen
                &&& actions.len() == 1
                &&& actions[0] is Stop
            },
            LoopEvent::Network(ev) => {
                &&& s2 == LoopState::Running
                &&& seen2 == take_new_peers(seen, dial_candidates(e)).0
                &&& match ev {
                    SwarmEvent::Behaviour(
                        KMBehaviourEvent::Floodsub(FloodsubEvent::Message { data, source }),
                    ) => {
                        &&& actions.len() == 1
                        &&& (actions[0] matches LoopAction::HandleMessage { data: d, source: p }
                            && d@ == data@ && p@ == source@)
                    },
                    _ => dials_exactly(actions, take_new_peers(seen, dial_candidates(e)).1),
                }
            },
        }
    }
}

/// The peers dialled over a run of events that starts with the set `seen`,
/// and the set it ends with.
pub open spec fn run_dials(seen: Seq<Seq<char>>, evs: Seq<LoopEvent>) -> (
    Seq<Seq<char>>,
    Seq<Seq<char>>,
)
    decreases evs.len(),
{
    if evs.len() == 0 {
        (seen, Seq::empty())
    } else {
        let prev = run_dials(seen, evs.drop_last());
        let last = take_new_peers(prev.0, dial_candidates(evs.last()));
        (last.0, prev.1 + last.1)
    }
}

proof fn lemma_push_no_duplicates(s: Seq<Seq<char>>, x: Seq<char>)
    requires
        s.no_duplicates(),
        !s.contains(x),
    ensures
        s.push(x).no_duplicates(),
{
    let t = s.push(x);
    assert forall|i: int, j: int| 0 <= i < t.len() && 0 <= j < t.len() && i != j implies t[i]
        != t[j] by {
        if i < s.len() && j < s.len() {
            assert(t[i] == s[i] && t[j] == s[j]);
        } else if i < s.len() {
            assert(t[i] == s[i]);
        } else if j < s.len() {
            assert(t[j] == s[j]);
        }
    }
}

proof fn lemma_take_new_peers(seen: Seq<Seq<char>>, cands: Seq<Seq<char>>)
    requires
        seen.no_duplicates(),
    ensures
        take_new_peers(seen, cands).0 == seen + take_new_peers(seen, cands).1,
        take_new_peers(seen, cands).0.no_duplicates(),
    decreases cands.len(),
{
    if cands.len() > 0 {
        lemma_take_new_peers(seen, cands.drop_last());
        let prev = take_new_peers(seen, cands.drop_last());
        if !prev.0.contains(cands.last()) {
            lemma_push_no_duplicates(prev.0, cands.last());
            assert(seen + prev.1.push(cands.last()) =~= (seen + prev.1).push(cands.last()));
        }
    } else {
        assert(seen + Seq::<Seq<char>>::empty() =~= seen);
    }
}

proof fn lemma_run_dials(seen: Seq<Seq<char>>, evs: Seq<LoopEvent>)
    requires
        seen.no_duplicates(),
    ensures
        run_dials(seen, evs).0 == seen + run_dials(seen, evs).1,
        run_dials(seen, evs).0.no_duplicates(),
    decreases evs.len(),
{
    if evs.len() > 0 {
        lemma_run_dials(seen, evs.drop_last());
        let prev = run_dials(seen, evs.drop_last());
        lemma_take_new_peers(prev.0, dial_candidates(evs.last()));
        let last = take_new_peers(prev.0, dial_candidates(evs.last()));
        assert(seen + (prev.1 + last.1) =~= (seen + prev.1) + last.1);
    } else {
        assert(seen + Seq::<Seq<char>>::empty() =~= seen);
    }
}

/// Over any run of events, however often a peer is announced or routed to,
/// the node dials it at most once, and never a peer it had already seen:
/// the peers dialled are distinct and none was in the starting set, which
/// ends as the starting set followed by them.
pub proof fn lemma_dial_at_most_once(seen: Seq<Seq<char>>, evs: Seq<LoopEvent>)
    requires
        seen.no_duplicates(),
    ensures
        run_dials(seen, evs).1.no_duplicates(),
        forall|i: int|
            0 <= i < run_dials(seen, evs).1.len() ==> !seen.contains(
                #[trigger] run_dials(seen, evs).1[i],
            ),
        run_dials(seen, evs).0 == seen + run_dials(seen, evs).1,
{
    lemma_run_dials(seen, evs);
    let d = run_dials(seen, evs).1;
    let all = seen + d;
    let n = seen.len() as int;
    assert forall|i: int, j: int| 0 <= i < d.len() && 0 <= j < d.len() && i != j implies d[i]
        != d[j] by {
        assert(all[n + i] == d[i] && all[n + j] == d[j]);
    }
    assert forall|i: int| 0 <= i < d.len() implies !seen.contains(#[trigger] d[i]) by {
        if seen.contains(d[i]) {
            let k = choose|k: int| 0 <= k < seen.len() && seen[k] == d[i];
            assert(all[k] == seen[k] && all[n + i] == d[i]);
        }
    }
}

/// The peers already dialled or routed to during this process's life, each
/// once. It is never persisted.
#[derive(Debug)]
pub struct DiscoveredPeerSet {
    peers: Vec<PeerId>,
}

impl View for DiscoveredPeerSet {
    type V = Seq<Seq<char>>;

    closed spec fn view(&self) -> Seq<Seq<char>> {
        self.peers@.map_values(|p: PeerId| p@)
    }
}

impl DiscoveredPeerSet {
    /// The empty set.
    pub fn new() -> (r: DiscoveredPeerSet)
        ensures
            r@ == Seq::<Seq<char>>::empty(),
    {
        let r = DiscoveredPeerSet { peers: Vec::new() };
        assert(r@ =~= Seq::<Seq<char>>::empty());
        r
    }

    /// Whether `peer` is in the set.
    pub fn contains(&self, peer: &PeerId) -> (r: bool)
        ensures
            r == self@.contains(peer@),
    {
        let mut i: usize = 0;
        while i < self.peers.len()
            invariant
                0 <= i <= self.peers@.len(),
                forall|j: int| 0 <= j < i ==> self@[j] != peer@,
            decreases self.peers@.len() - i,
        {
            if self.peers[i].same_as(peer) {
                assert(self@[i as int] == peer@);
                return true;
            }
            i = i + 1;
        }
        false
    }

    /// Adds `peer`; `true` when it was not in the set before.
    pub fn insert(&mut self, peer: &PeerId) -> (r: bool)
        ensures
            r == !old(self)@.contains(peer@),
            final(self)@ == if r {
                old(self)@.push(peer@)
            } else {
                old(self)@
            },
    {
        if self.contains(peer) {
            false
        } else {
            self.peers.push(peer.clone());
            assert(self@ =~= old(self)@.push(peer@));
            true
        }
    }

    /// The number of peers in the set.
    pub fn len(&self) -> (r: usize)
        ensures
            r == self@.len(),
    {
        self.peers.len()
    }
}

fn one_action(a: LoopAction) -> (r: Vec<LoopAction>)
    ensures
        r@ == seq![a],
{
    let mut r: Vec<LoopAction> = Vec::new();
    r.push(a);
    assert(r@ =~= seq![a]);
    r
}

/// The decisions of the network task: its phase and the peers it has seen.
#[derive(Debug)]
pub struct RunLoop {
    state: LoopState,
    discovered: DiscoveredPeerSet,
}

impl RunLoop {
    /// The phase of the task.
    pub closed spec fn phase(&self) -> LoopState {
        self.state
    }

    /// The peers seen so far.
    pub closed spec fn seen(&self) -> Seq<Seq<char>> {
        self.discovered@
    }

    /// A task that is starting and has seen no peer.
    pub fn new() -> (r: RunLoop)
        ensures
            r.phase() == LoopState::Starting,
            r.seen() == Seq::<Seq<char>>::empty(),
    {
        RunLoop { state: LoopState::Starting, discovered: DiscoveredPeerSet::new() }
    }

    /// The phase of the task.
    pub fn state(&self) -> (r: LoopState)
        ensures
            r == self.phase(),
    {
        self.state
    }

    /// The peers seen so far.
    pub fn discovered(&self) -> (r: &DiscoveredPeerSet)
        ensures
            r@ == self.seen(),
    {
        &self.discovered
    }

    /// Ends start-up: the task runs once its listen address is bound, and
    /// stops when binding failed. In any other phase nothing changes.
    pub fn started(&mut self, listening: bool)
        ensures
            final(self).seen() == old(self).seen(),
            final(self).phase() == if old(self).phase() != LoopState::Starting {
                old(self).phase()
            } else if listening {
                LoopState::Running
            } else {
                LoopState::Stopped
            },
    {
        if self.state == LoopState::Starting {
            self.state = if listening {
                LoopState::Running
            } else {
                LoopState::Stopped
            };
        }
    }

    /// Ends draining: the task returns. In any other phase nothing changes.
    pub fn finish(&mut self)
        ensures
            final(self).seen() == old(self).seen(),
            final(self).phase() == if old(self).phase() == LoopState::Draining {
                LoopState::Stopped
            } else {
                old(self).phase()
            },
    {
        if self.state == LoopState::Draining {
            self.state = LoopState::Stopped;
        }
    }

    /// Dials, in order, each of `ps` not seen before, adding it to the set.
    fn dial_new_peers(&mut self, ps: &Vec<(PeerId, String)>) -> (r: Vec<LoopAction>)
        ensures
            final(self).phase() == old(self).phase(),
            final(self).seen() == take_new_peers(old(self).seen(), announced_peers(ps@)).0,
            dials_exactly(r@, take_new_peers(old(self).seen(), announced_peers(ps@)).1),
    {
        let ghost cands = announced_peers(ps@);
        let mut actions: Vec<LoopAction> = Vec::new();
        let mut i: usize = 0;
        proof {
            assert(cands.take(0) =~= Seq::<Seq<char>>::empty());
        }
        while i < ps.len()
            invariant
                0 <= i <= ps@.len(),
                cands == announced_peers(ps@),
                self.phase() == old(self).phase(),
                self.seen() == take_new_peers(old(self).seen(), cands.take(i as int)).0,
                dials_exactly(actions@, take_new_peers(old(self).seen(), cands.take(i as int)).1),
            decreases ps@.len() - i,
        {
            let peer = &ps[i].0;
            proof {
                assert(cands.take(i + 1).drop_last() =~= cands.take(i as int));
                assert(cands.take(i + 1).last() == peer@);
            }
            if self.discovered.insert(peer) {
                actions.push(LoopAction::Dial(peer.clone()));
            }
            i = i + 1;
        }
        proof {
            assert(cands.take(ps@.len() as int) =~= cands);
        }
        actions
    }

    /// Reacts to one event. While running: a tick asks for a presence
    /// announcement; a send request for that message; the shutdown signal
    /// moves the task to draining; a discovery announcement or a routing
    /// update dials each of its peers not seen before, once; a received
    /// message goes to the handler; everything else is only logged. In any
    /// other phase an event changes nothing.
    pub fn step(&mut self, event: LoopEvent) -> (r: Vec<LoopAction>)
        ensures
            reaction(old(self).phase(), old(self).seen(), event, final(self).phase(), final(self).seen(), r@),
    {
        let ghost e = event;
        if self.state != LoopState::Running {
            return Vec::new();
        }
        match event {
            LoopEvent::Tick => one_action(LoopAction::BroadcastDiscovery),
            LoopEvent::SendRequest { topic, content } => {
                one_action(LoopAction::SendMessage { topic, content })
            },
            LoopEvent::Shutdown => {
                self.state = LoopState::Draining;
                one_action(LoopAction::Stop)
            },
            LoopEvent::Network(ev) => match ev {
                SwarmEvent::Behaviour(KMBehaviourEvent::Mdns(MdnsEvent::Discovered(ps))) => {
                    proof {
                        assert(dial_candidates(e) == announced_peers(ps@));
                    }
                    self.dial_new_peers(&ps)
                },
                SwarmEvent::Behaviour(KMBehaviourEvent::Kademlia(KademliaEvent::RoutingUpdated { peer })) => {
                    proof {
                        let c = dial_candidates(e);
                        assert(c.drop_last() =~= Seq::<Seq<char>>::empty());
                        assert(c.last() == peer@);
                        let none = take_new_peers(self.seen(), Seq::<Seq<char>>::empty());
                        assert(none.1 =~= Seq::<Seq<char>>::empty());
                    }
                    let mut actions: Vec<LoopAction> = Vec::new();
                    if self.discovered.insert(&peer) {
                        actions.push(LoopAction::Dial(peer));
                    }
                    actions
                },
                SwarmEvent::Behaviour(KMBehaviourEvent::Floodsub(FloodsubEvent::Message { data, source })) => {
                    proof {
                        assert(dial_candidates(e).len() == 0);
                    }
                    one_action(LoopAction::HandleMessage { data, source })
                },
                _ => {
                    proof {
                        assert(dial_candidates(e).len() == 0);
                    }
                    Vec::new()
                },
            },
        }
    }
}

} // verus!
