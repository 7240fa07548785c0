use vstd::prelude::*;

use crate::peer::PeerId;

verus! {

/// The type tag of an application message.
pub const GENERIC_TYPE: &'static str = "generic";

/// The type tag of a presence announcement.
pub const DISCOVERY_TYPE: &'static str = "discovery";

/// The content of a presence announcement.
pub const DISCOVERY_CONTENT: &'static str = "Node discovery broadcast";

/// Relies on `std::time::SystemTime::now` and `duration_since(UNIX_EPOCH)`:
/// the whole seconds since the epoch, `None` for a clock set before it.
#[verifier::external_body]
fn unix_time_secs() -> (r: Option<u64>) {
    match std::time::SystemTime::now().duration_since(std::time::UNIX_EPOCH) {
        Ok(d) => Some(d.as_secs()),
        Err(_) => None,
    }
}

/// Seconds since the epoch by the system clock; a clock set before the epoch
/// reads as zero.
pub fn current_timestamp() -> (r: u64) {
    match unix_time_secs() {
        Some(t) => t,
        None => 0,
    }
}

/// The envelope of every message exchanged between nodes.
#[derive(Debug, Clone)]
pub struct NetworkMessage {
    pub message_type: String,
    pub content: String,
    pub timestamp: u64,
    pub sender: String,
}

/// How a message is dispatched, by its type tag.
#[derive(Debug, Clone, Copy, PartialEq, Eq, Structural)]
pub enum MessageKind {
    Generic,
    Discovery,
    Unknown,
}

/// The kind that a type tag names; any tag but the two known ones is
/// tolerated as unknown.
pub open spec fn kind_of(message_type: Seq<char>) -> MessageKind {
    if message_type == GENERIC_TYPE@ {
        MessageKind::Generic
    } else if message_type == DISCOVERY_TYPE@ {
        MessageKind::Discovery
    } else {
        MessageKind::Unknown
    }
}

impl NetworkMessage {
    /// An application message from `sender`, stamped `timestamp`.
    pub fn generic(content: String, timestamp: u64, sender: &PeerId) -> (r: NetworkMessage)
        ensures
            r.message_type@ == GENERIC_TYPE@,
            r.content@ == content@,
            r.timestamp == timestamp,
            r.sender@ == sender@,
    {
        NetworkMessage {
            message_type: GENERIC_TYPE.to_owned(),
            content,
            timestamp,
            sender: sender.as_str().to_owned(),
        }
    }

    /// A presence announcement from `sender`, stamped `timestamp`.
    pub fn discovery(timestamp: u64, sender: &PeerId) -> (r: NetworkMessage)
        ensures
            r.message_type@ == DISCOVERY_TYPE@,
            r.content@ == DISCOVERY_CONTENT@,
            r.timestamp == timestamp,
            r.sender@ == sender@,
    {
        NetworkMessage {
            message_type: DISCOVERY_TYPE.to_owned(),
            content: DISCOVERY_CONTENT.to_owned(),
            timestamp,
            sender: sender.as_str().to_owned(),
        }
    }

    /// The kind of the message, by its type tag.
    pub fn kind(&self) -> (r: MessageKind)
        ensures
            r == kind_of(self.message_type@),
    {
        if crate::same_text(self.message_type.as_str(), GENERIC_TYPE) {
            MessageKind::Generic
        } else if crate::same_text(self.message_type.as_str(), DISCOVERY_TYPE) {
            MessageKind::Discovery
        } else {
            MessageKind::Unknown
        }
    }
}

} // verus!
