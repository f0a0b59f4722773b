//! Decisions on other players: whether one is visible, whether one is under
//! the crosshair.

use vstd::prelude::*;
use crate::entity::{Entity, PlayerPawn, resolve_pawn};
use crate::memory::{
    MemView, RemoteMemory, read_offset_i32_spec, read_offset_u32_spec, read_offset_u64_spec,
    read_u64_spec, trace_from,
};
use crate::offsets::{
    ENTITY_LIST_PAGES, ENTITY_LIST_PAGE_STRIDE, ENTITY_LIST_SLOT_STRIDE, ENTITY_TEAM_NUM,
    PAWN_ID_ENT_INDEX,
};

verus! {

/// Whether a candidate is visible: the local player's bit is set in the
/// candidate's spotted mask, or the candidate's bit in the local player's.
pub open spec fn visible_spec(
    spotted_by_mask: u64,
    local_spotted_by_mask: u64,
    local_index: u64,
    index: u64,
) -> bool {
    spotted_by_mask & (1u64 << local_index) != 0 || local_spotted_by_mask & (1u64 << index) != 0
}

/// Whether the candidate with controller index `i` and spotted mask
/// `b_spotted_by_mask` is visible to the local player with controller index
/// `local_player_controller_index` and spotted mask `local_b_spotted_by_mask`.
pub fn is_enemy_visible(
    b_spotted_by_mask: u64,
    local_b_spotted_by_mask: u64,
    local_player_controller_index: u64,
    i: u64,
) -> (r: bool)
    requires
        local_player_controller_index < 64,
        i < 64,
    ensures
        r == visible_spec(b_spotted_by_mask, local_b_spotted_by_mask, local_player_controller_index, i),
{
    b_spotted_by_mask & (1u64 << local_player_controller_index) != 0 || local_b_spotted_by_mask & (1u64
        << i) != 0
}

/// Setting either bit that the visibility test reads, the other mask held
/// fixed, never turns a visible candidate into an invisible one; and a
/// candidate with that bit set is visible.
pub proof fn lemma_visibility_monotonic(
    spotted_by_mask: u64,
    local_spotted_by_mask: u64,
    local_index: u64,
    index: u64,
)
    requires
        local_index < 64,
        index < 64,
    ensures
        visible_spec(spotted_by_mask, local_spotted_by_mask, local_index, index) ==> visible_spec(
            spotted_by_mask | (1u64 << local_index),
            local_spotted_by_mask,
            local_index,
            index,
        ),
        visible_spec(spotted_by_mask, local_spotted_by_mask, local_index, index) ==> visible_spec(
            spotted_by_mask,
            local_spotted_by_mask | (1u64 << index),
            local_index,
            index,
        ),
        visible_spec(spotted_by_mask | (1u64 << local_index), local_spotted_by_mask, local_index, index),
        visible_spec(spotted_by_mask, local_spotted_by_mask | (1u64 << index), local_index, index),
{
    let m = spotted_by_mask;
    let l = local_spotted_by_mask;
    let a = local_index;
    let b = index;
    assert((m | (1u64 << a)) & (1u64 << a) != 0) by (bit_vector)
        requires
            a < 64,
    ;
    assert((l | (1u64 << b)) & (1u64 << b) != 0) by (bit_vector)
        requires
            b < 64,
    ;
}

/// The address of the pawn under the local player's crosshair: the crosshair
/// index `h` read from the local pawn selects page `(h & 0x7FFF) >> 9` of the
/// entity list whose head address is stored at `entity_list`, and slot
/// `h & 0x1FF` within it. Absent where a hop fails or the page is null.
pub open spec fn crosshair_target(m: MemView, local_pawn: u64, entity_list: u64) -> Option<u64> {
    match read_offset_u32_spec(m, local_pawn, PAWN_ID_ENT_INDEX) {
        None => None,
        Some(h) => {
            let entry = match read_u64_spec(m, entity_list) {
                Some(head) => read_offset_u64_spec(
                    m,
                    head,
                    (ENTITY_LIST_PAGES + ENTITY_LIST_PAGE_STRIDE * ((h & 0x7FFF) >> 9u32)) as u64,
                ),
                None => None,
            };
            if entry is None || entry->Some_0 == 0 {
                None
            } else {
                read_offset_u64_spec(m, entry->Some_0, (ENTITY_LIST_SLOT_STRIDE * (h & 0x1FF)) as u64)
            }
        },
    }
}

/// The pawn under the local player's crosshair, as `(found, allowed)`:
/// `found` where the crosshair index resolves to a pawn that hydrates in full,
/// `allowed` where that pawn has health left and, with `exclude_team`, is on
/// another team than `local_team`.
pub open spec fn crosshair_spec(
    m: MemView,
    local_pawn: u64,
    local_team: i32,
    entity_list: u64,
    exclude_team: bool,
) -> (bool, bool) {
    match crosshair_target(m, local_pawn, entity_list) {
        None => (false, false),
        Some(pawn) => match resolve_pawn(m, pawn, PlayerPawn::default_state()) {
            None => (false, false),
            Some(p) => if !exclude_team {
                (true, p.health > 0)
            } else {
                match read_offset_i32_spec(m, pawn, ENTITY_TEAM_NUM) {
                    None => (false, false),
                    Some(team) => (true, team != local_team && p.health > 0),
                }
            },
        },
    }
}

/// Resolves the address of the pawn under the local player's crosshair.
pub fn crosshair_pawn_address(mem: &RemoteMemory, local_pawn: u64, entity_list: u64) -> (r: Option<
    u64,
>)
    ensures
        r == crosshair_target(mem@, local_pawn, entity_list),
{
    let handle = match mem.read_offset_u32(local_pawn, PAWN_ID_ENT_INDEX) {
        Some(h) => h,
        None => {
            return None;
        },
    };
    let page = ((handle & 0x7FFF) >> 9) as u64;
    assert(((handle & 0x7FFF) >> 9u32) <= 63) by (bit_vector);
    let first: u64 = ENTITY_LIST_PAGES + ENTITY_LIST_PAGE_STRIDE * page;
    let hops = vec![0u64, first, 0u64];
    assert(hops@ =~= seq![0u64, first, 0u64]);
    let list_entry = mem.trace(entity_list, hops.as_slice());
    proof {
        let offs = seq![0u64, first, 0u64];
        if let Some(head) = read_offset_u64_spec(mem@, entity_list, 0) {
            assert(entity_list as int + 0 == entity_list as int);
            assert(read_u64_spec(mem@, entity_list) == Some(head));
            assert(trace_from(mem@, entity_list, offs, 0) == trace_from(mem@, head, offs, 1));
            if let Some(e) = read_offset_u64_spec(mem@, head, first) {
                assert(trace_from(mem@, head, offs, 1) == trace_from(mem@, e, offs, 2));
            }
        } else {
            assert(read_u64_spec(mem@, entity_list) is None);
        }
    }
    if list_entry == 0 {
        return None;
    }
    let slot = (handle & 0x1FF) as u64;
    mem.read_offset_u64(list_entry, ENTITY_LIST_SLOT_STRIDE * slot)
}

/// Resolves the pawn under the local player's crosshair through the entity
/// list at `game_address_entity_list` and decides whether it may be shot.
pub fn is_enemy_at_crosshair(
    mem: &RemoteMemory,
    local_entity_pawn_address: u64,
    local_entity_pawn_team_id: i32,
    game_address_entity_list: u64,
    exclude_team: bool,
) -> (r: (bool, bool))
    ensures
        r == crosshair_spec(
            mem@,
            local_entity_pawn_address,
            local_entity_pawn_team_id,
            game_address_entity_list,
            exclude_team,
        ),
{
    let pawn_address = match crosshair_pawn_address(
        mem,
        local_entity_pawn_address,
        game_address_entity_list,
    ) {
        Some(v) => v,
        None => {
            return (false, false);
        },
    };
    let mut entity = Entity::default();
    if !entity.update_pawn(mem, pawn_address) {
        return (false, false);
    }
    if !exclude_team {
        return (true, entity.pawn.health > 0);
    }
    match mem.read_offset_i32(pawn_address, ENTITY_TEAM_NUM) {
        Some(team) => (true, team != local_entity_pawn_team_id && entity.pawn.health > 0),
        None => (false, false),
    }
}

} // verus!
