//! A warehouse node's peer-to-peer core: persistent node identity, the
//! message envelope, the composite network behaviour's decisions, bootstrap
//! resolution, the run loop's state machine and the process lifecycle, with
//! the small access-token rules of the HTTP side.
use vstd::prelude::*;

pub mod auth;
pub mod behaviour;
pub mod bootstrap;
pub mod identity;
pub mod lifecycle;
pub mod message;
pub mod peer;
pub mod run_loop;

verus! {

/// Whether two texts are equal, character for character.
pub(crate) fn same_text(a: &str, b: &str) -> (r: bool)
    ensures
        r == (a@ == b@),
{
    a.to_owned() == b.to_owned()
}

} // verus!
