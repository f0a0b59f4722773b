//! The planted bomb: where it is, whether it is planted, and at which site.

use vstd::prelude::*;
use crate::memory::{
    RemoteMemory, Vec3Bits, MemView, read_bool_spec, read_offset_u32_spec, read_offset_u64_spec,
    read_offset_vec3_spec, read_u64_spec,
};
use crate::offsets::{ENTITY_GAME_SCENE_NODE, PLANTED_C4_BOMB_SITE, SCENE_NODE_ABS_ORIGIN};

verus! {

/// The planted bomb's address: two chained pointer reads from `bomb_address`.
pub open spec fn bomb_spec(m: MemView, bomb_address: u64) -> Option<u64> {
    match read_u64_spec(m, bomb_address) {
        Some(p) => read_u64_spec(m, p),
        None => None,
    }
}

/// Whether the bomb is planted: the flag 8 bytes before `bomb_address`; false
/// where it cannot be read.
pub open spec fn bomb_planted_spec(m: MemView, bomb_address: u64) -> bool {
    bomb_address >= 8 && read_bool_spec(m, (bomb_address - 8) as u64) == Some(true)
}

/// The name of a bomb site index: one is site B, every other index site A.
pub open spec fn site_name(site: u32) -> Seq<char> {
    if site == 1 {
        "B"@
    } else {
        "A"@
    }
}

/// The planted bomb's position, one hop through its scene node.
pub open spec fn bomb_position_spec(m: MemView, planted_bomb: u64) -> Option<Vec3Bits> {
    match read_offset_u64_spec(m, planted_bomb, ENTITY_GAME_SCENE_NODE) {
        Some(node) => read_offset_vec3_spec(m, node, SCENE_NODE_ABS_ORIGIN),
        None => None,
    }
}

/// Reads the planted bomb's address; absent where a read fails.
pub fn get_bomb(mem: &RemoteMemory, bomb_address: u64) -> (r: Option<u64>)
    ensures
        r == bomb_spec(mem@, bomb_address),
        bomb_address == 0 ==> r is None,
{
    let carrier = match mem.read_u64(bomb_address) {
        Some(v) => v,
        None => {
            return None;
        },
    };
    mem.read_u64(carrier)
}

/// Whether the bomb is planted.
pub fn get_bomb_planted(mem: &RemoteMemory, bomb_address: u64) -> (r: bool)
    ensures
        r == bomb_planted_spec(mem@, bomb_address),
        bomb_address == 0 ==> !r,
{
    if bomb_address < 8 {
        return false;
    }
    match mem.read_bool(bomb_address - 8) {
        Some(v) => v,
        None => false,
    }
}

/// The name of the site with index `site`.
pub fn bomb_site_name(site: u32) -> (r: String)
    ensures
        r@ == site_name(site),
{
    if site == 1 {
        String::from_str("B")
    } else {
        String::from_str("A")
    }
}

/// Reads the site at which the bomb at `planted_bomb` stands.
pub fn get_bomb_site(mem: &RemoteMemory, planted_bomb: u64) -> (r: Option<String>)
    ensures
        match read_offset_u32_spec(mem@, planted_bomb, PLANTED_C4_BOMB_SITE) {
            Some(site) => r matches Some(s) && s@ == site_name(site),
            None => r is None,
        },
        planted_bomb == 0 ==> r is None,
{
    match mem.read_offset_u32(planted_bomb, PLANTED_C4_BOMB_SITE) {
        Some(site) => Some(bomb_site_name(site)),
        None => None,
    }
}

/// Reads the position of the bomb at `planted_bomb`.
pub fn get_bomb_position(mem: &RemoteMemory, planted_bomb: u64) -> (r: Option<Vec3Bits>)
    ensures
        r == bomb_position_spec(mem@, planted_bomb),
        planted_bomb == 0 ==> r is None,
{
    let node = match mem.read_offset_u64(planted_bomb, ENTITY_GAME_SCENE_NODE) {
        Some(v) => v,
        None => {
            return None;
        },
    };
    mem.read_offset_vec3(node, SCENE_NODE_ABS_ORIGIN)
}

} // verus!
