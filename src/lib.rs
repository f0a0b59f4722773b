//! Resolution of a game's entity graph out of an image of its address space,
//! and the decisions that rest on it.

use vstd::prelude::*;

pub mod bomb;
pub mod entity;
pub mod memory;
pub mod offsets;
pub mod settings;
pub mod targeting;
pub mod text;
pub mod weapon;

verus! {

use crate::bomb::{bomb_planted_spec, bomb_position_spec, bomb_spec};
use crate::entity::{
    ControllerState, PawnState, handle_target, resolve_controller, resolve_pawn,
    weapon_name_address,
};
use crate::memory::{MemView, trace_from, trace_spec};
use crate::offsets::{PAWN_CLIPPING_WEAPON, WEAPON_NAME_HOP_1, WEAPON_NAME_HOP_2};
use crate::targeting::crosshair_target;

/// A pointer chain from the null address reaches the null address, whatever
/// the offsets.
pub proof fn lemma_trace_from_null(m: MemView, offsets: Seq<u64>, i: int)
    requires
        0 <= i,
    ensures
        trace_from(m, 0, offsets, i) == 0,
{
}

/// Every resolver, given the null address, resolves nothing: no controller,
/// no pawn, no entity behind a handle, no weapon name, no bomb, no crosshair
/// target.
pub proof fn lemma_null_address_absent(
    m: MemView,
    controller: ControllerState,
    pawn: PawnState,
    entity_list: u64,
    h: u64,
    offsets: Seq<u64>,
)
    ensures
        resolve_controller(m, 0, entity_list, controller) is None,
        resolve_pawn(m, 0, pawn) is None,
        handle_target(m, 0, h) == 0,
        weapon_name_address(m, 0) == 0,
        trace_spec(m, 0, offsets) == 0,
        bomb_spec(m, 0) is None,
        !bomb_planted_spec(m, 0),
        bomb_position_spec(m, 0) is None,
        crosshair_target(m, 0, entity_list) is None,
{
    lemma_trace_from_null(m, offsets, 0);
    lemma_trace_from_null(
        m,
        seq![PAWN_CLIPPING_WEAPON, WEAPON_NAME_HOP_1, WEAPON_NAME_HOP_2, 0u64],
        0,
    );
}

} // verus!
