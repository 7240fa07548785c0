use warehouse_node::behaviour::{
    KMBehaviourEvent, Dispatch, MdnsEvent, FloodsubEvent, HandleError, PingEvent,
    KMBehaviour, KademliaEvent, Topic, DISCOVERY_TOPIC,
};
use warehouse_node::identity::NodeIdentity;
use warehouse_node::message::{MessageKind, NetworkMessage, DISCOVERY_CONTENT};
use warehouse_node::peer::PeerId;
use warehouse_node::run_loop::{LoopAction, LoopEvent, LoopState, RunLoop, SwarmEvent};

fn fresh_peer() -> PeerId {
    NodeIdentity::generate().peer_id().clone()
}

fn message(kind: &str, content: &str, sender: &PeerId) -> NetworkMessage {
    NetworkMessage {
        message_type: kind.to_string(),
        content: content.to_string(),
        timestamp: 1_700_000_000,
        sender: sender.as_str().to_string(),
    }
}

fn running_loop() -> RunLoop {
    let mut l = RunLoop::new();
    l.started(true);
    l
}

fn discovered(peers: &[PeerId]) -> LoopEvent {
    let list = peers.iter().map(|p| (p.clone(), "/ip4/192.168.1.7/tcp/4001".to_string())).collect();
    LoopEvent::Network(SwarmEvent::Behaviour(KMBehaviourEvent::from(MdnsEvent::Discovered(list))))
}

fn routing_updated(peer: &PeerId) -> LoopEvent {
    LoopEvent::Network(SwarmEvent::Behaviour(KMBehaviourEvent::from(KademliaEvent::RoutingUpdated {
        peer: peer.clone(),
    })))
}

fn dialled(actions: &[LoopAction]) -> Vec<PeerId> {
    actions
        .iter()
        .filter_map(|a| match a {
            LoopAction::Dial(p) => Some(p.clone()),
            _ => None,
        })
        .collect()
}

#[test]
fn message_kinds_follow_the_type_tag() {
    let p = fresh_peer();
    assert_eq!(message("generic", "x", &p).kind(), MessageKind::Generic);
    assert_eq!(message("discovery", "x", &p).kind(), MessageKind::Discovery);
    assert_eq!(message("Generic", "x", &p).kind(), MessageKind::Unknown);
    assert_eq!(message("", "x", &p).kind(), MessageKind::Unknown);
}

#[test]
fn own_messages_are_dropped_before_dispatch() {
    let me = fresh_peer();
    let node = KMBehaviour::new(me.clone());
    let r = node.handle_message(Ok(message("generic", "hi", &me)), &me);
    assert!(matches!(r, Ok(Dispatch::IgnoredSelf)));
    let r = node.handle_message(Err(HandleError::Decode("bad".to_string())), &me);
    assert!(matches!(r, Ok(Dispatch::IgnoredSelf)));
    assert_eq!(Dispatch::IgnoredSelf.log_line(), "Ignoring self-sent message");
}

#[test]
fn unknown_message_type_is_tolerated() {
    let me = fresh_peer();
    let other = fresh_peer();
    let node = KMBehaviour::new(me);
    let r = node.handle_message(Ok(message("inventory-sync", "{}", &other)), &other).unwrap();
    match &r {
        Dispatch::Unknown { message_type } => assert_eq!(message_type, "inventory-sync"),
        d => panic!("unexpected dispatch {:?}", d),
    }
    assert_eq!(r.log_line(), "Unknown message type: inventory-sync");
}

#[test]
fn discovery_message_names_its_source() {
    let me = fresh_peer();
    let other = fresh_peer();
    let node = KMBehaviour::new(me);
    let r = node.handle_message(Ok(message("discovery", "Node discovery broadcast", &other)), &other).unwrap();
    match &r {
        Dispatch::Discovery { from } => assert_eq!(from, &other),
        d => panic!("unexpected dispatch {:?}", d),
    }
    assert_eq!(r.log_line(), format!("Discovery message from peer: {}", other.as_str()));
}

#[test]
fn undecodable_payload_from_another_peer_is_an_error() {
    let node = KMBehaviour::new(fresh_peer());
    let other = fresh_peer();
    let r = node.handle_message(Err(HandleError::Decode("eof".to_string())), &other);
    assert!(matches!(r, Err(HandleError::Decode(ref s)) if s == "eof"));
}

#[test]
fn sent_message_is_generic_from_the_local_peer() {
    let me = fresh_peer();
    let node = KMBehaviour::new(me.clone());
    let p = node.message_at(Topic::new("dev"), "hello".to_string(), 42);
    assert_eq!(p.topic.name(), "dev");
    assert_eq!(p.message.message_type, "generic");
    assert_eq!(p.message.content, "hello");
    assert_eq!(p.message.timestamp, 42);
    assert_eq!(p.message.sender, me.as_str());
    let now = node.send_message(Topic::new("dev"), "again".to_string());
    assert_eq!(now.message.content, "again");
    assert!(now.message.timestamp > 1_600_000_000);
}

#[test]
fn discovery_broadcast_uses_the_discovery_topic() {
    let me = fresh_peer();
    let node = KMBehaviour::new(me.clone());
    let p = node.discovery_at(7);
    assert_eq!(p.topic.name(), DISCOVERY_TOPIC);
    assert_eq!(p.message.message_type, "discovery");
    assert_eq!(p.message.content, DISCOVERY_CONTENT);
    assert_eq!(p.message.content, "Node discovery broadcast");
    assert_eq!(p.message.timestamp, 7);
    assert_eq!(p.message.sender, me.as_str());
    assert_eq!(node.broadcast_discovery().topic.name(), "discovery");
}

#[test]
fn subscriptions_are_kept_once_each() {
    let mut node = KMBehaviour::new(fresh_peer());
    node.init_subscriptions(vec!["dev", "discovery", "dev"]);
    let names: Vec<&str> = node.subscriptions().iter().map(|t| t.name()).collect();
    assert_eq!(names, vec!["dev", "discovery"]);
    assert!(!node.subscribe(Topic::new("discovery")));
    assert!(node.subscribe(Topic::new("example_topic")));
    assert_eq!(node.subscriptions().len(), 3);
}

#[test]
fn end_to_end_hello_from_seed_to_joining_node() {
    let a = fresh_peer();
    let b = fresh_peer();
    let node_a = KMBehaviour::new(a.clone());
    let node_b = KMBehaviour::new(b.clone());
    let mut loop_a = running_loop();
    // B joined through A; A learns of B and dials it once
    let acts = loop_a.step(routing_updated(&b));
    assert_eq!(dialled(&acts), vec![b.clone()]);
    let publication = node_a.send_message(Topic::new("dev"), "hello".to_string());
    assert_eq!(publication.message.sender, a.as_str());
    let mut loop_b = running_loop();
    let received = FloodsubEvent::Message { data: b"payload".to_vec(), source: a.clone() };
    let acts = loop_b.step(LoopEvent::Network(SwarmEvent::Behaviour(KMBehaviourEvent::from(received))));
    match acts.as_slice() {
        [LoopAction::HandleMessage { data, source }] => {
            assert_eq!(data, b"payload");
            assert_eq!(source, &a);
        }
        other => panic!("unexpected actions {:?}", other),
    }
    let dispatch = node_b.handle_message(Ok(publication.message.clone()), &a).unwrap();
    assert_eq!(dispatch.log_line(), "Generic message content: hello");
}

#[test]
fn repeated_announcements_dial_each_peer_once() {
    let p = fresh_peer();
    let q = fresh_peer();
    let mut l = running_loop();
    let mut all = Vec::new();
    all.extend(l.step(discovered(&[p.clone(), p.clone(), q.clone()])));
    all.extend(l.step(routing_updated(&p)));
    all.extend(l.step(discovered(&[q.clone(), p.clone()])));
    all.extend(l.step(routing_updated(&q)));
    assert_eq!(dialled(&all), vec![p.clone(), q.clone()]);
    assert_eq!(l.discovered().len(), 2);
    assert!(l.discovered().contains(&p));
}

#[test]
fn routing_update_of_new_peer_dials_it() {
    let p = fresh_peer();
    let mut l = running_loop();
    assert_eq!(dialled(&l.step(routing_updated(&p))), vec![p.clone()]);
    assert!(l.step(routing_updated(&p)).is_empty());
}

#[test]
fn observed_events_ask_for_nothing() {
    let p = fresh_peer();
    let mut l = running_loop();
    let expired = MdnsEvent::Expired(vec![(p.clone(), "/ip4/1.2.3.4/tcp/1".to_string())]);
    assert!(l.step(LoopEvent::Network(SwarmEvent::Behaviour(KMBehaviourEvent::from(expired)))).is_empty());
    let ping = PingEvent::Success { peer: p.clone(), rtt_millis: 3 };
    assert!(l.step(LoopEvent::Network(SwarmEvent::Behaviour(KMBehaviourEvent::from(ping)))).is_empty());
    assert!(l.step(LoopEvent::Network(SwarmEvent::ConnectionEstablished { peer: p.clone() })).is_empty());
    assert!(l.step(LoopEvent::Network(SwarmEvent::ConnectionClosed { peer: p.clone() })).is_empty());
    assert!(l.step(LoopEvent::Network(SwarmEvent::Behaviour(KMBehaviourEvent::from(KademliaEvent::Other)))).is_empty());
    assert_eq!(l.discovered().len(), 0);
    assert_eq!(l.state(), LoopState::Running);
}

#[test]
fn tick_and_send_request_become_publications() {
    let mut l = running_loop();
    assert!(matches!(l.step(LoopEvent::Tick).as_slice(), [LoopAction::BroadcastDiscovery]));
    let acts = l.step(LoopEvent::SendRequest { topic: Topic::new("dev"), content: "m".to_string() });
    match acts.as_slice() {
        [LoopAction::SendMessage { topic, content }] => {
            assert_eq!(topic.name(), "dev");
            assert_eq!(content, "m");
        }
        other => panic!("unexpected actions {:?}", other),
    }
}

#[test]
fn shutdown_drains_then_stops() {
    let p = fresh_peer();
    let mut l = running_loop();
    assert!(matches!(l.step(LoopEvent::Shutdown).as_slice(), [LoopAction::Stop]));
    assert_eq!(l.state(), LoopState::Draining);
    // a network event that raced the signal changes nothing
    assert!(l.step(discovered(&[p.clone()])).is_empty());
    assert!(l.step(LoopEvent::Tick).is_empty());
    l.finish();
    assert_eq!(l.state(), LoopState::Stopped);
    assert_eq!(l.discovered().len(), 0);
}

#[test]
fn failed_bind_stops_at_start() {
    let mut l = RunLoop::new();
    assert_eq!(l.state(), LoopState::Starting);
    assert!(l.step(LoopEvent::Tick).is_empty());
    l.started(false);
    assert_eq!(l.state(), LoopState::Stopped);
    l.started(true);
    assert_eq!(l.state(), LoopState::Stopped);
}
