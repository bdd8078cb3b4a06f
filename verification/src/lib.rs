//! Core of a game-launcher client: the session model issued by the server,
//! the two-state login/character workflow, the classification of transport
//! outcomes into user-visible error messages, and the assembly of the
//! configuration handed to the external game runtime.
//!
//! Network transfer, JSON framing and the graphical shell live outside this
//! crate; they hand plain values in and take plain values back.

pub mod controller;
pub mod launch;
pub mod session;
pub mod transport;

use vstd::prelude::*;

verus! {

/// The ids of the characters in a sequence, in order.
pub open spec fn character_ids(s: Seq<session::Character>) -> Seq<u32> {
    s.map_values(|c: session::Character| c.id)
}

} // verus!
