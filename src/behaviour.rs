use vstd::prelude::*;

use crate::message::{
    current_timestamp, kind_of, MessageKind, NetworkMessage, DISCOVERY_CONTENT, DISCOVERY_TYPE,
    GENERIC_TYPE,
};
use crate::peer::PeerId;

verus! {

/// The topic on which presence announcements are published.
pub const DISCOVERY_TOPIC: &'static str = "discovery";

/// A named channel of the gossip namespace.
#[derive(Debug)]
pub struct Topic {
    name: String,
}

impl View for Topic {
    type V = Seq<char>;

    closed spec fn view(&self) -> Seq<char> {
        self.name@
    }
}

impl Clone for Topic {
    fn clone(&self) -> (r: Topic)
        ensures
            r@ == self@,
    {
        Topic { name: self.name.clone() }
    }
}

impl Topic {
    /// The topic of the given name.
    pub fn new(name: &str) -> (r: Topic)
        ensures
            r@ == name@,
    {
        Topic { name: name.to_owned() }
    }

    /// The topic's name.
    pub fn name(&self) -> (r: &str)
        ensures
            r@ == self@,
    {
        self.name.as_str()
    }
}

/// Events of local-network discovery (mDNS): peers that appeared or whose
/// announcement lapsed, each with the address it was seen at.
#[derive(Debug)]
pub enum MdnsEvent {
    Discovered(Vec<(PeerId, String)>),
    Expired(Vec<(PeerId, String)>),
}

/// Events of the routing table (the Kademlia DHT).
#[derive(Debug)]
pub enum KademliaEvent {
    /// A peer's route was learned or refreshed.
    RoutingUpdated { peer: PeerId },
    UnroutablePeer { peer: PeerId },
    RoutablePeer { peer: PeerId, address: String },
    PendingRoutablePeer { peer: PeerId, address: String },
    /// Query progress and other events that the node does not act on.
    Other,
}

/// Events of the liveness probe (ping).
#[derive(Debug)]
pub enum PingEvent {
    Success { peer: PeerId, rtt_millis: u64 },
    Failure { peer: PeerId },
}

/// Events of topic-based gossip (floodsub).
#[derive(Debug)]
pub enum FloodsubEvent {
    /// A message arrived, published by `source`.
    Message { data: Vec<u8>, source: PeerId },
    Subscribed { peer: PeerId, topic: Topic },
    Unsubscribed { peer: PeerId, topic: Topic },
}

/// The one event type of the composite behaviour: an event of one of its
/// four protocols.
#[derive(Debug)]
pub enum KMBehaviourEvent {
    Mdns(MdnsEvent),
    Kademlia(KademliaEvent),
    Ping(PingEvent),
    Floodsub(FloodsubEvent),
}

impl From<MdnsEvent> for KMBehaviourEvent {
    fn from(e: MdnsEvent) -> (r: KMBehaviourEvent) {
        KMBehaviourEvent::Mdns(e)
    }
}

impl vstd::std_specs::convert::FromSpecImpl<MdnsEvent> for KMBehaviourEvent {
    open spec fn obeys_from_spec() -> bool {
        true
    }

    open spec fn from_spec(e: MdnsEvent) -> KMBehaviourEvent {
        KMBehaviourEvent::Mdns(e)
    }
}

impl From<KademliaEvent> for KMBehaviourEvent {
    fn from(e: KademliaEvent) -> (r: KMBehaviourEvent) {
        KMBehaviourEvent::Kademlia(e)
    }
}

impl vstd::std_specs::convert::FromSpecImpl<KademliaEvent> for KMBehaviourEvent {
    open spec fn obeys_from_spec() -> bool {
        true
    }

    open spec fn from_spec(e: KademliaEvent) -> KMBehaviourEvent {
        KMBehaviourEvent::Kademlia(e)
    }
}

impl From<PingEvent> for KMBehaviourEvent {
    fn from(e: PingEvent) -> (r: KMBehaviourEvent) {
        KMBehaviourEvent::Ping(e)
    }
}

impl vstd::std_specs::convert::FromSpecImpl<PingEvent> for KMBehaviourEvent {
    open spec fn obeys_from_spec() -> bool {
        true
    }

    open spec fn from_spec(e: PingEvent) -> KMBehaviourEvent {
        KMBehaviourEvent::Ping(e)
    }
}

impl From<FloodsubEvent> for KMBehaviourEvent {
    fn from(e: FloodsubEvent) -> (r: KMBehaviourEvent) {
        KMBehaviourEvent::Floodsub(e)
    }
}

impl vstd::std_specs::convert::FromSpecImpl<FloodsubEvent> for KMBehaviourEvent {
    open spec fn obeys_from_spec() -> bool {
        true
    }

    open spec fn from_spec(e: FloodsubEvent) -> KMBehaviourEvent {
        KMBehaviourEvent::Floodsub(e)
    }
}

/// A message that the node hands to gossip for publication.
#[derive(Debug)]
pub struct Publication {
    pub topic: Topic,
    pub message: NetworkMessage,
}

/// Why a received message was not dispatched.
#[derive(Debug, Clone)]
pub enum HandleError {
    /// The payload is not a message envelope.
    Decode(String),
}

/// What handling a received message came to.
#[derive(Debug, Clone)]
pub enum Dispatch {
    /// The node's own message, echoed back; dropped unread.
    IgnoredSelf,
    /// An application message; its content is logged and forwarded.
    Generic { content: String },
    /// A presence announcement from the source peer; logged.
    Discovery { from: PeerId },
    /// A message of a type this node does not know; logged and ignored.
    Unknown { message_type: String },
}

impl Dispatch {
    /// The line logged for this outcome.
    pub fn log_line(&self) -> (r: String)
        ensures
            self matches Dispatch::Generic { content } ==> r@ == "Generic message content: "@
                + content@,
            self matches Dispatch::Discovery { from } ==> r@ == "Discovery message from peer: "@
                + from@,
            self matches Dispatch::Unknown { message_type } ==> r@ == "Unknown message type: "@
                + message_type@,
            self is IgnoredSelf ==> r@ == "Ignoring self-sent message"@,
    {
        match self {
            Dispatch::IgnoredSelf => "Ignoring self-sent message".to_owned(),
            Dispatch::Generic { content } => {
                let mut line = "Generic message content: ".to_owned();
                line.append(content.as_str());
                line
            },
            Dispatch::Discovery { from } => {
                let mut line = "Discovery message from peer: ".to_owned();
                line.append(from.as_str());
                line
            },
            Dispatch::Unknown { message_type } => {
                let mut line = "Unknown message type: ".to_owned();
                line.append(message_type.as_str());
                line
            },
        }
    }
}

/// The composite network behaviour of a node, as far as its decisions go:
/// the local peer identifier and the gossip topics it subscribed to. The
/// four protocols themselves run outside and report through
/// [`KMBehaviourEvent`].
#[derive(Debug)]
pub struct KMBehaviour {
    local_peer: PeerId,
    subscriptions: Vec<Topic>,
}

/// The names of some topics, in order.
pub open spec fn topic_names(ts: Seq<Topic>) -> Seq<Seq<char>> {
    ts.map_values(|t: Topic| t@)
}

impl KMBehaviour {
    /// The local peer identifier.
    pub closed spec fn local(&self) -> Seq<char> {
        self.local_peer@
    }

    /// The names of the subscribed topics, each once.
    pub closed spec fn subscribed(&self) -> Seq<Seq<char>> {
        topic_names(self.subscriptions@)
    }

    /// Well-formed: each topic is subscribed once.
    pub open spec fn wf(&self) -> bool {
        self.subscribed().no_duplicates()
    }

    /// A behaviour for the node `local_peer`, subscribed to nothing.
    pub fn new(local_peer: PeerId) -> (r: KMBehaviour)
        ensures
            r.wf(),
            r.local() == local_peer@,
            r.subscribed() == Seq::<Seq<char>>::empty(),
    {
        let r = KMBehaviour { local_peer, subscriptions: Vec::new() };
        assert(r.subscribed() =~= Seq::<Seq<char>>::empty());
        r
    }

    /// The local peer identifier.
    pub fn local_peer_id(&self) -> (r: &PeerId)
        ensures
            r@ == self.local(),
    {
        &self.local_peer
    }

    /// The subscribed topics, each once, in the order subscribed.
    pub fn subscriptions(&self) -> (r: &Vec<Topic>)
        ensures
            topic_names(r@) == self.subscribed(),
    {
        &self.subscriptions
    }

    /// Subscribes to `topic`; `true` when it was not subscribed before.
    pub fn subscribe(&mut self, topic: Topic) -> (r: bool)
        requires
            old(self).wf(),
        ensures
            r == !old(self).subscribed().contains(topic@),
            final(self).subscribed() == if r {
                old(self).subscribed().push(topic@)
            } else {
                old(self).subscribed()
            },
            final(self).wf(),
            final(self).local() == old(self).local(),
    {
        let mut i: usize = 0;
        while i < self.subscriptions.len()
            invariant
                0 <= i <= self.subscriptions@.len(),
                self.subscribed() == old(self).subscribed(),
                self.subscribed().no_duplicates(),
                self.local() == old(self).local(),
                forall|j: int| 0 <= j < i ==> self.subscriptions@[j]@ != topic@,
            decreases self.subscriptions@.len() - i,
        {
            if crate::same_text(self.subscriptions[i].name(), topic.name()) {
                assert(self.subscribed()[i as int] == topic@);
                return false;
            }
            i = i + 1;
        }
        proof {
            assert forall|j: int| 0 <= j < self.subscribed().len() implies self.subscribed()[j]
                != topic@ by {
                assert(self.subscribed()[j] == self.subscriptions@[j]@);
            }
        }
        self.subscriptions.push(topic);
        proof {
            assert(self.subscribed() =~= old(self).subscribed().push(topic@));
        }
        true
    }

    /// Subscribes to each of the named topics; the subscriptions become the
    /// earlier ones followed by each new name once, in order.
    pub fn init_subscriptions(&mut self, topics: Vec<&str>)
        requires
            old(self).wf(),
        ensures
            final(self).wf(),
            final(self).local() == old(self).local(),
            forall|t: Seq<char>| #[trigger]
                final(self).subscribed().contains(t) <==> (old(self).subscribed().contains(t)
                    || exists|i: int| 0 <= i < topics@.len() && topics@[i]@ == t),
    {
        let mut k: usize = 0;
        while k < topics.len()
            invariant
                0 <= k <= topics@.len(),
                self.wf(),
                self.local() == old(self).local(),
                forall|t: Seq<char>| #[trigger]
                    self.subscribed().contains(t) <==> (old(self).subscribed().contains(t)
                        || exists|i: int| 0 <= i < k && topics@[i]@ == t),
            decreases topics@.len() - k,
        {
            let name: &str = topics[k];
            let ghost prev = self.subscribed();
            let added = self.subscribe(Topic::new(name));
            proof {
                assert forall|t: Seq<char>| #[trigger]
                    self.subscribed().contains(t) <==> (prev.contains(t) || t == name@) by {
                    if added {
                        assert(self.subscribed() == prev.push(name@));
                        if t == name@ {
                            assert(self.subscribed()[prev.len() as int] == t);
                        }
                        if self.subscribed().contains(t) && t != name@ {
                            let j = choose|j: int| 0 <= j < self.subscribed().len() && self.subscribed()[j] == t;
                            assert(prev[j] == t);
                        }
                        if prev.contains(t) {
                            let j = choose|j: int| 0 <= j < prev.len() && prev[j] == t;
                            assert(self.subscribed()[j] == t);
                        }
                    }
                }
                assert forall|t: Seq<char>| #[trigger]
                    self.subscribed().contains(t) <==> (old(self).subscribed().contains(t)
                        || exists|i: int| 0 <= i < k + 1 && topics@[i]@ == t) by {
                    if t == name@ {
                        assert(topics@[k as int]@ == t);
                    }
                    if exists|i: int| 0 <= i < k + 1 && topics@[i]@ == t {
                        let i = choose|i: int| 0 <= i < k + 1 && topics@[i]@ == t;
                        if i < k {
                            assert(exists|i2: int| 0 <= i2 < k && topics@[i2]@ == t);
                        }
                    }
                }
            }
            k = k + 1;
        }
    }

    /// The application message that carries `content`, stamped `timestamp`,
    /// for publication on `topic`.
    pub fn message_at(&self, topic: Topic, content: String, timestamp: u64) -> (r: Publication)
        ensures
            r.topic@ == topic@,
            r.message.message_type@ == GENERIC_TYPE@,
            r.message.content@ == content@,
            r.message.timestamp == timestamp,
            r.message.sender@ == self.local(),
    {
        Publication { topic, message: NetworkMessage::generic(content, timestamp, &self.local_peer) }
    }

    /// The application message that carries `content` for publication on
    /// `topic`, stamped with the current time. Publishing to a topic that no
    /// peer follows is no error.
    pub fn send_message(&self, topic: Topic, content: String) -> (r: Publication)
        ensures
            r.topic@ == topic@,
            r.message.message_type@ == GENERIC_TYPE@,
            r.message.content@ == content@,
            r.message.sender@ == self.local(),
    {
        let now = current_timestamp();
        self.message_at(topic, content, now)
    }

    /// The presence announcement stamped `timestamp`, for the discovery
    /// topic.
    pub fn discovery_at(&self, timestamp: u64) -> (r: Publication)
        ensures
            r.topic@ == DISCOVERY_TOPIC@,
            r.message.message_type@ == DISCOVERY_TYPE@,
            r.message.content@ == DISCOVERY_CONTENT@,
            r.message.timestamp == timestamp,
            r.message.sender@ == self.local(),
    {
        Publication {
            topic: Topic::new(DISCOVERY_TOPIC),
            message: NetworkMessage::discovery(timestamp, &self.local_peer),
        }
    }

    /// The presence announcement, stamped with the current time.
    pub fn broadcast_discovery(&self) -> (r: Publication)
        ensures
            r.topic@ == DISCOVERY_TOPIC@,
            r.message.message_type@ == DISCOVERY_TYPE@,
            r.message.content@ == DISCOVERY_CONTENT@,
            r.message.sender@ == self.local(),
    {
        let now = current_timestamp();
        self.discovery_at(now)
    }

    /// Handles a message received from `source`, given what decoding its
    /// payload gave. The node's own messages are dropped before anything
    /// else; other messages are dispatched by type, an unknown type being
    /// no error.
    pub fn handle_message(&self, decoded: Result<NetworkMessage, HandleError>, source: &PeerId) -> (r:
        Result<Dispatch, HandleError>)
        ensures
            source@ == self.local() ==> r matches Ok(Dispatch::IgnoredSelf),
            source@ != self.local() ==> match decoded {
                Err(e) => r == Err::<Dispatch, HandleError>(e),
                Ok(m) => match kind_of(m.message_type@) {
                    MessageKind::Generic => r matches Ok(Dispatch::Generic { content }) && content@
                        == m.content@,
                    MessageKind::Discovery => r matches Ok(Dispatch::Discovery { from }) && from@
                        == source@,
                    MessageKind::Unknown => r matches Ok(Dispatch::Unknown { message_type })
                        && message_type@ == m.message_type@,
                },
            },
    {
        if source.same_as(&self.local_peer) {
            return Ok(Dispatch::IgnoredSelf);
        }
        match decoded {
            Err(e) => Err(e),
            Ok(m) => match m.kind() {
                MessageKind::Generic => Ok(Dispatch::Generic { content: m.content }),
                MessageKind::Discovery => Ok(Dispatch::Discovery { from: source.clone() }),
                MessageKind::Unknown => Ok(Dispatch::Unknown { message_type: m.message_type }),
            },
        }
    }
}

} // verus!
