//! Field offsets of the supported game build, in bytes from the start of the
//! object that holds the field.

use vstd::prelude::*;

verus! {

/// Base entity: health (`i32`).
pub const ENTITY_HEALTH: u64 = 0x32C;

/// Base entity: team number (`i32`).
pub const ENTITY_TEAM_NUM: u64 = 0x3BF;

/// Base entity: address of the scene node.
pub const ENTITY_GAME_SCENE_NODE: u64 = 0x310;

/// Base entity: status flag bits (`i32`).
pub const ENTITY_FLAGS: u64 = 0x3C8;

/// Player controller: name buffer.
pub const CONTROLLER_PLAYER_NAME: u64 = 0x640;

/// Length of the controller's name buffer.
pub const PLAYER_NAME_LEN: usize = 260;

/// Player controller: handle of the pawn.
pub const CONTROLLER_PLAYER_PAWN: u64 = 0x7EC;

/// Player controller: whether the pawn is alive (`i32`).
pub const CONTROLLER_PAWN_IS_ALIVE: u64 = 0x7F4;

/// Pawn: address of the camera services.
pub const PAWN_CAMERA_SERVICES: u64 = 0x10E0;

/// Pawn: last position (three `f32`).
pub const PAWN_OLD_ORIGIN: u64 = 0x1224;

/// Pawn: camera position (three `f32`).
pub const PAWN_LAST_CLIP_CAMERA_POS: u64 = 0x1294;

/// Pawn: eye angles (two `f32`, pitch then yaw).
pub const PAWN_EYE_ANGLES: u64 = 0x1518;

/// Pawn: address of the weapon in hand.
pub const PAWN_CLIPPING_WEAPON: u64 = 0x12B0;

/// Pawn: index of the entity under the crosshair (`u32`).
pub const PAWN_ID_ENT_INDEX: u64 = 0x1544;

/// Pawn: spotted state.
pub const PAWN_ENTITY_SPOTTED_STATE: u64 = 0x1638;

/// Spotted state: mask of the players that spotted the pawn (`u64`).
pub const SPOTTED_STATE_SPOTTED_BY_MASK: u64 = 0xC;

/// Pawn: armor (`i32`).
pub const PAWN_ARMOR_VALUE: u64 = 0x1510;

/// Pawn: shots fired in the current burst (`u32`).
pub const PAWN_SHOTS_FIRED: u64 = 0x1420;

/// Pawn: recoil history (an array header).
pub const PAWN_AIM_PUNCH_CACHE: u64 = 0x1740;

/// Scene node: absolute position (three `f32`).
pub const SCENE_NODE_ABS_ORIGIN: u64 = 0xC8;

/// Camera services: field of view (`i32`).
pub const CAMERA_SERVICES_FOV_START: u64 = 0x214;

/// Planted bomb: bomb site index (`u32`).
pub const PLANTED_C4_BOMB_SITE: u64 = 0xE84;

/// Weapon static data: clip capacity (`i32`).
pub const WEAPON_DATA_MAX_CLIP: u64 = 0x1FC;

/// Weapon: rounds in the clip (`i32`).
pub const WEAPON_CLIP: u64 = 0x1570;

/// Weapon: address of its static data.
pub const WEAPON_DATA: u64 = 0x360;

/// Pointer hops from the weapon-in-hand field to the weapon's name.
pub const WEAPON_NAME_HOP_1: u64 = 0x10;

pub const WEAPON_NAME_HOP_2: u64 = 0x20;

/// Length of a weapon name buffer.
pub const WEAPON_NAME_LEN: usize = 40;

/// Entity list: offset of the first page pointer.
pub const ENTITY_LIST_PAGES: u64 = 0x10;

/// Entity list: stride of the page pointers.
pub const ENTITY_LIST_PAGE_STRIDE: u64 = 0x8;

/// Entity list: stride of the slots within a page.
pub const ENTITY_LIST_SLOT_STRIDE: u64 = 0x78;

} // verus!
