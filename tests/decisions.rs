use nvext::entity::{Entity};
use nvext::memory::RemoteMemory;
use nvext::offsets::{
    CAMERA_SERVICES_FOV_START, ENTITY_HEALTH, ENTITY_TEAM_NUM, PAWN_CAMERA_SERVICES,
    PAWN_CLIPPING_WEAPON, PAWN_ID_ENT_INDEX, WEAPON_DATA,
};
use nvext::targeting::{crosshair_pawn_address, is_enemy_at_crosshair, is_enemy_visible};

#[test]
fn visible_when_local_bit_in_candidate_mask() {
    assert!(is_enemy_visible(1 << 5, 0, 5, 9));
    assert!(!is_enemy_visible(1 << 4, 0, 5, 9));
}

#[test]
fn visible_when_candidate_bit_in_local_mask() {
    assert!(is_enemy_visible(0, 1 << 9, 5, 9));
    assert!(!is_enemy_visible(0, 1 << 8, 5, 9));
}

#[test]
fn visibility_is_an_or_of_both_bits() {
    assert!(is_enemy_visible(1 << 5, 1 << 9, 5, 9));
    assert!(!is_enemy_visible(0, 0, 5, 9));
    assert!(is_enemy_visible(1 << 63, 0, 63, 0));
    assert!(is_enemy_visible(0, 1, 63, 0));
}

#[test]
fn setting_a_bit_keeps_visible() {
    for (m, l) in [(0u64, 0u64), (1 << 5, 0), (0, 1 << 9), (u64::MAX, 0)] {
        let before = is_enemy_visible(m, l, 5, 9);
        let after_local = is_enemy_visible(m | (1 << 5), l, 5, 9);
        let after_candidate = is_enemy_visible(m, l | (1 << 9), 5, 9);
        assert!(!before || after_local);
        assert!(!before || after_candidate);
        assert!(after_local && after_candidate);
    }
}

const BASE: u64 = 0x1_0000;
const LOCAL: u64 = 0x1_0000;
const LIST_VAR: u64 = 0x1_1000;
const HEAD: u64 = 0x1_2000;
const PAGE: u64 = 0x1_3000;
const TARGET: u64 = 0x2_0000;
const WEAPON: u64 = 0x3_0000;
const CAMERA: u64 = 0x3_8000;

fn put(bytes: &mut [u8], at: u64, data: &[u8]) {
    let i = (at - BASE) as usize;
    bytes[i..i + data.len()].copy_from_slice(data);
}

/// A local pawn whose crosshair index is page 2, slot 5, naming a target pawn
/// whose every field reads.
fn crosshair_world(health: i32, team: i32) -> RemoteMemory {
    let mut b = vec![0u8; 0x3_0000];
    let handle: u32 = (2 << 9) | 5;
    put(&mut b, LOCAL + PAWN_ID_ENT_INDEX, &handle.to_le_bytes());
    put(&mut b, LIST_VAR, &HEAD.to_le_bytes());
    put(&mut b, HEAD + 0x10 + 8 * 2, &PAGE.to_le_bytes());
    put(&mut b, PAGE + 0x78 * 5, &TARGET.to_le_bytes());
    put(&mut b, TARGET + ENTITY_HEALTH, &health.to_le_bytes());
    put(&mut b, TARGET + ENTITY_TEAM_NUM, &team.to_le_bytes());
    put(&mut b, TARGET + PAWN_CAMERA_SERVICES, &CAMERA.to_le_bytes());
    put(&mut b, CAMERA + CAMERA_SERVICES_FOV_START, &90i32.to_le_bytes());
    // Weapon chain: weapon -> 0x10 -> 0x20 -> name; the name buffer holds "weapon_awp".
    put(&mut b, TARGET + PAWN_CLIPPING_WEAPON, &WEAPON.to_le_bytes());
    put(&mut b, WEAPON + 0x10, &(WEAPON + 0x100).to_le_bytes());
    put(&mut b, WEAPON + 0x100 + 0x20, &(WEAPON + 0x200).to_le_bytes());
    put(&mut b, WEAPON + 0x200, b"weapon_awp");
    put(&mut b, WEAPON + WEAPON_DATA, &(WEAPON + 0x400).to_le_bytes());
    let mut mem = RemoteMemory::new();
    mem.map_region(BASE, b);
    mem
}

#[test]
fn crosshair_resolves_page_and_slot() {
    let mem = crosshair_world(100, 3);
    assert_eq!(crosshair_pawn_address(&mem, LOCAL, LIST_VAR), Some(TARGET));
    assert_eq!(crosshair_pawn_address(&mem, 0, LIST_VAR), None);
    assert_eq!(crosshair_pawn_address(&mem, LOCAL, 0), None);
}

#[test]
fn crosshair_enemy_with_health_may_be_shot() {
    let mem = crosshair_world(100, 3);
    assert_eq!(is_enemy_at_crosshair(&mem, LOCAL, 2, LIST_VAR, true), (true, true));
    assert_eq!(is_enemy_at_crosshair(&mem, LOCAL, 2, LIST_VAR, false), (true, true));
}

#[test]
fn crosshair_teammate_is_excluded() {
    let mem = crosshair_world(100, 2);
    assert_eq!(is_enemy_at_crosshair(&mem, LOCAL, 2, LIST_VAR, true), (true, false));
    assert_eq!(is_enemy_at_crosshair(&mem, LOCAL, 2, LIST_VAR, false), (true, true));
}

#[test]
fn crosshair_dead_target_is_not_allowed() {
    let mem = crosshair_world(0, 3);
    assert_eq!(is_enemy_at_crosshair(&mem, LOCAL, 2, LIST_VAR, false), (true, false));
}

#[test]
fn crosshair_without_target_finds_nothing() {
    let mem = crosshair_world(100, 3);
    assert_eq!(is_enemy_at_crosshair(&mem, 0, 2, LIST_VAR, false), (false, false));
    assert_eq!(is_enemy_at_crosshair(&mem, LOCAL, 2, 0x9_0000, false), (false, false));
    let mut e = Entity::default();
    assert!(e.update_pawn(&mem, TARGET));
    assert_eq!(e.pawn.weapon_name, "AWP");
}

#[test]
fn crosshair_index_bits_above_page_are_masked() {
    let mut mem = crosshair_world(100, 3);
    // Bit 15 set: the page is still 2, not 66.
    let handle: u32 = 0x8000 | (2 << 9) | 5;
    let mut b = vec![0u8; 4];
    b.copy_from_slice(&handle.to_le_bytes());
    let mut fresh = RemoteMemory::new();
    fresh.map_region(LOCAL + PAWN_ID_ENT_INDEX, b);
    for region in mem.regions.drain(..) {
        fresh.regions.push(region);
    }
    mem = fresh;
    assert_eq!(crosshair_pawn_address(&mem, LOCAL, LIST_VAR), Some(TARGET));
    assert_eq!(is_enemy_at_crosshair(&mem, LOCAL, 2, LIST_VAR, false), (true, true));
}
