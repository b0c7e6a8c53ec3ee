//! A verified narrative dialogue engine.
//!
//! The engine drives branching conversations: scene and line progression,
//! player choices with explicit successors, synthesized ephemeral player
//! lines, timed auto-advance, camera framing cues, declarative side-effect
//! triggers, and an append-only transcript. Every transition is specified by
//! a spec function and the executable code is proved to match it; the laws
//! the engine obeys stand as proof functions in `props`.
//!
//! Durations are whole milliseconds and world coordinates fixed-point
//! milli-units, so the verified core works on plain integers; a surrounding
//! application converts at its edges and owns everything the core only
//! instructs: rendering, input, clocks and actual motion.

pub mod engine;
pub mod events;
pub mod props;
pub mod script;
pub mod triggers;
pub mod world;

use vstd::prelude::*;

verus! {

/// The speaker name used for lines synthesized from a player's choice.
pub open spec fn player_name_spec() -> Seq<char> {
    "Joe Swanson"@
}

pub fn player_name() -> (r: String)
    ensures
        r@ == player_name_spec(),
{
    "Joe Swanson".to_string()
}

} // verus!
