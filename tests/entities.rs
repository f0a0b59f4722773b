use nvext::entity::{resolve_handle, Entity, Flags, PlayerController, PlayerPawn};
use nvext::memory::RemoteMemory;
use nvext::offsets::{
    CAMERA_SERVICES_FOV_START, CONTROLLER_PAWN_IS_ALIVE, CONTROLLER_PLAYER_NAME,
    CONTROLLER_PLAYER_PAWN, ENTITY_FLAGS, ENTITY_HEALTH, ENTITY_TEAM_NUM, PAWN_AIM_PUNCH_CACHE,
    PAWN_ARMOR_VALUE, PAWN_CAMERA_SERVICES, PAWN_CLIPPING_WEAPON, PAWN_ENTITY_SPOTTED_STATE,
    PAWN_EYE_ANGLES, PAWN_LAST_CLIP_CAMERA_POS, PAWN_OLD_ORIGIN, PAWN_SHOTS_FIRED,
    SPOTTED_STATE_SPOTTED_BY_MASK, WEAPON_CLIP, WEAPON_DATA, WEAPON_DATA_MAX_CLIP,
};
use nvext::weapon::WeaponType;

const BASE: u64 = 0x1_0000;
const SIZE: usize = 0x4_0000;

const ENTITY_LIST: u64 = 0x1_0100;
const LIST_HEAD: u64 = 0x1_1000;
const PAGE: u64 = 0x1_2000;
const CONTROLLER: u64 = 0x2_0000;
const PAWN: u64 = 0x3_0000;
const WEAPON: u64 = 0x4_0000;
const WEAPON_ENTITY: u64 = 0x4_2000;
const WEAPON_STATIC: u64 = 0x4_3000;
const WEAPON_NAME: u64 = 0x4_4000;
const CAMERA: u64 = 0x4_5000;

// Page 1, slot 3.
const HANDLE: u64 = (1 << 9) | 3;

struct Image {
    bytes: Vec<u8>,
}

impl Image {
    fn new() -> Image {
        Image { bytes: vec![0; SIZE] }
    }

    fn put(&mut self, at: u64, data: &[u8]) {
        let i = (at - BASE) as usize;
        self.bytes[i..i + data.len()].copy_from_slice(data);
    }

    fn put_u64(&mut self, at: u64, v: u64) {
        self.put(at, &v.to_le_bytes());
    }

    fn put_i32(&mut self, at: u64, v: i32) {
        self.put(at, &v.to_le_bytes());
    }

    fn put_f32s(&mut self, at: u64, vs: &[f32]) {
        for (k, v) in vs.iter().enumerate() {
            self.put(at + 4 * k as u64, &v.to_bits().to_le_bytes());
        }
    }

    fn memory(&self) -> RemoteMemory {
        let mut mem = RemoteMemory::new();
        mem.map_region(BASE, self.bytes.clone());
        mem
    }
}

fn name_buffer(name: &str, len: usize) -> Vec<u8> {
    let mut b = vec![0u8; len];
    b[..name.len()].copy_from_slice(name.as_bytes());
    b
}

fn world(health: i32, alive: i32) -> Image {
    let mut img = Image::new();
    // Entity list: the list variable holds the head; page pointers from head + 0x10.
    img.put_u64(ENTITY_LIST, LIST_HEAD);
    img.put_u64(LIST_HEAD + 0x10 + 8 * 1, PAGE);
    img.put_u64(PAGE + 0x78 * 3, PAWN);
    // Controller.
    img.put_i32(CONTROLLER + CONTROLLER_PAWN_IS_ALIVE, alive);
    img.put_i32(CONTROLLER + ENTITY_TEAM_NUM, 2);
    img.put(CONTROLLER + CONTROLLER_PLAYER_NAME, &name_buffer("Alice", 260));
    img.put_u64(CONTROLLER + CONTROLLER_PLAYER_PAWN, HANDLE);
    // Pawn.
    img.put_f32s(PAWN + PAWN_LAST_CLIP_CAMERA_POS, &[1.0, 2.0, 64.0]);
    img.put_f32s(PAWN + PAWN_OLD_ORIGIN, &[1.0, 2.0, 0.0]);
    img.put_f32s(PAWN + PAWN_EYE_ANGLES, &[10.0, 90.0]);
    img.put_u64(PAWN + PAWN_CLIPPING_WEAPON, WEAPON);
    img.put_u64(WEAPON + 0x10, WEAPON_ENTITY);
    img.put_u64(WEAPON_ENTITY + 0x20, WEAPON_NAME);
    img.put(WEAPON_NAME, &name_buffer("weapon_ak47", 40));
    img.put_u64(WEAPON + WEAPON_DATA, WEAPON_STATIC);
    img.put_i32(WEAPON_STATIC + WEAPON_DATA_MAX_CLIP, 30);
    img.put_i32(WEAPON + WEAPON_CLIP, 17);
    img.put_i32(PAWN + PAWN_SHOTS_FIRED, 4);
    img.put_u64(PAWN + PAWN_AIM_PUNCH_CACHE, 2);
    img.put_u64(PAWN + PAWN_AIM_PUNCH_CACHE + 8, 0x5000);
    img.put_i32(PAWN + ENTITY_HEALTH, health);
    img.put_i32(PAWN + PAWN_ARMOR_VALUE, 100);
    img.put_u64(PAWN + PAWN_CAMERA_SERVICES, CAMERA);
    img.put_i32(CAMERA + CAMERA_SERVICES_FOV_START, 90);
    img.put_u64(PAWN + PAWN_ENTITY_SPOTTED_STATE + SPOTTED_STATE_SPOTTED_BY_MASK, 0b1010);
    img.put_i32(PAWN + ENTITY_FLAGS, 0b11);
    img
}

#[test]
fn end_to_end_alice_is_alive() {
    let mem = world(80, 1).memory();
    let mut e = Entity::default();
    assert!(e.update_controller(&mem, CONTROLLER, ENTITY_LIST));
    assert_eq!(e.controller.alive_status, 1);
    assert_eq!(e.controller.team_id, 2);
    assert_eq!(e.controller.player_name, "Alice");
    assert_eq!(e.controller.pawn, HANDLE);
    assert_eq!(e.pawn.address, PAWN);
    let pawn = e.pawn.address;
    assert!(e.update_pawn(&mem, pawn));
    assert_eq!(e.pawn.health, 80);
    assert!(e.is_alive());
}

#[test]
fn end_to_end_zero_health_is_not_alive() {
    let mem = world(0, 1).memory();
    let mut e = Entity::default();
    assert!(e.update_controller(&mem, CONTROLLER, ENTITY_LIST));
    assert!(e.update_pawn(&mem, PAWN));
    assert_eq!(e.pawn.health, 0);
    assert!(!e.is_alive());
}

#[test]
fn dead_controller_flag_is_not_alive() {
    let mem = world(80, 0).memory();
    let mut e = Entity::default();
    assert!(e.update_controller(&mem, CONTROLLER, ENTITY_LIST));
    assert!(e.update_pawn(&mem, PAWN));
    assert!(!e.is_alive());
}

#[test]
fn pawn_fields_are_hydrated() {
    let mem = world(80, 1).memory();
    let mut e = Entity::default();
    assert!(e.update_pawn(&mem, PAWN));
    let p = &e.pawn;
    assert_eq!(p.address, PAWN);
    assert_eq!(f32::from_bits(p.camera_pos.z), 64.0);
    assert_eq!(f32::from_bits(p.pos.y), 2.0);
    assert_eq!(f32::from_bits(p.view_angle.y), 90.0);
    assert_eq!(p.weapon_name, "AK-47");
    assert_eq!(p.weapon_type, WeaponType::Rifle);
    assert_eq!(p.weapon_max_ammo, 30);
    assert_eq!(p.weapon_ammo, 17);
    assert_eq!(p.shots_fired, 4);
    assert_eq!(p.aim_punch_cache.count, 2);
    assert_eq!(p.aim_punch_cache.data, 0x5000);
    assert_eq!(p.armor, 100);
    assert_eq!(p.fov, 90);
    assert_eq!(p.spotted_by_mask, 0b1010);
    assert_eq!(p.flags, 0b11);
    assert!(p.has_flag(Flags::InAir));
}

#[test]
fn unknown_weapon_keeps_its_identifier() {
    let mut img = world(80, 1);
    img.put(WEAPON_NAME, &name_buffer("WEAPON_Shiny", 40));
    let mem = img.memory();
    let mut e = Entity::default();
    assert!(e.update_pawn(&mem, PAWN));
    assert_eq!(e.pawn.weapon_name, "shiny");
    assert_eq!(e.pawn.weapon_type, WeaponType::Unclassified);
}

#[test]
fn empty_weapon_name_keeps_previous_weapon() {
    let mut img = world(80, 1);
    img.put(WEAPON_NAME, &name_buffer("", 40));
    let mem = img.memory();
    let mut e = Entity::default();
    e.pawn.weapon_name = "AWP".to_string();
    e.pawn.weapon_type = WeaponType::Sniper;
    assert!(e.update_pawn(&mem, PAWN));
    assert_eq!(e.pawn.weapon_name, "AWP");
    assert_eq!(e.pawn.weapon_type, WeaponType::Sniper);
    assert_eq!(e.pawn.weapon_ammo, 17);
}

#[test]
fn zero_addresses_resolve_to_nothing() {
    let mem = world(80, 1).memory();
    let mut e = Entity::default();
    assert!(!e.update_controller(&mem, 0, ENTITY_LIST));
    assert!(!e.update_pawn(&mem, 0));
    assert_eq!(e.controller.address, 0);
    assert_eq!(e.controller.player_name, "");
    assert_eq!(e.pawn.address, 0);
    assert_eq!(e.pawn.health, 0);
    assert_eq!(resolve_handle(&mem, 0, HANDLE), 0);
}

#[test]
fn failed_pawn_read_leaves_entity_unchanged() {
    let mut img = world(80, 1);
    img.put_u64(PAWN + PAWN_CAMERA_SERVICES, 0);
    let mem = img.memory();
    let mut e = Entity::default();
    assert!(!e.update_pawn(&mem, PAWN));
    assert_eq!(e.pawn.address, 0);
    assert_eq!(e.pawn.health, 0);
    assert_eq!(e.pawn.weapon_name, "");
}

#[test]
fn unmapped_controller_leaves_entity_unchanged() {
    let mem = world(80, 1).memory();
    let mut e = Entity::default();
    assert!(e.update_controller(&mem, CONTROLLER, ENTITY_LIST));
    assert!(!e.update_controller(&mem, 0x9_0000, ENTITY_LIST));
    assert_eq!(e.controller.address, CONTROLLER);
    assert_eq!(e.controller.player_name, "Alice");
    assert_eq!(e.pawn.address, PAWN);
}

#[test]
fn empty_name_keeps_previous_name() {
    let mut img = world(80, 1);
    img.put(CONTROLLER + CONTROLLER_PLAYER_NAME, &name_buffer("", 260));
    let mem = img.memory();
    let mut c = PlayerController::default();
    c.address = CONTROLLER;
    c.player_name = "Bob".to_string();
    assert!(c.get_player_name(&mem));
    assert_eq!(c.player_name, "Bob");
}

#[test]
fn handle_resolution_uses_page_then_slot() {
    let mem = world(80, 1).memory();
    assert_eq!(resolve_handle(&mem, ENTITY_LIST, HANDLE), PAWN);
    // Bits above 0x7FFF do not take part in the page index.
    assert_eq!(resolve_handle(&mem, ENTITY_LIST, HANDLE | 0x8000), PAWN);
    // Slot 4 of page 1 is empty.
    assert_eq!(resolve_handle(&mem, ENTITY_LIST, (1 << 9) | 4), 0);
    // Page 2 is not present.
    assert_eq!(resolve_handle(&mem, ENTITY_LIST, 2 << 9), 0);
}

#[test]
fn changing_slot_bits_keeps_page() {
    let mut img = world(80, 1);
    img.put_u64(PAGE + 0x78 * 7, 0x3_8000);
    let mem = img.memory();
    assert_eq!(resolve_handle(&mem, ENTITY_LIST, (1 << 9) | 7), 0x3_8000);
    assert_eq!(resolve_handle(&mem, ENTITY_LIST, (1 << 9) | 3), PAWN);
}

#[test]
fn pawn_address_of_controller() {
    let mem = world(80, 1).memory();
    let mut c = PlayerController::default();
    c.address = CONTROLLER;
    assert_eq!(c.get_player_pawn_address(&mem, ENTITY_LIST), PAWN);
    assert_eq!(c.pawn, HANDLE);
    c.address = 0;
    assert_eq!(c.get_player_pawn_address(&mem, ENTITY_LIST), 0);
}

#[test]
fn controller_getters_read_fields() {
    let mem = world(80, 1).memory();
    let mut c = PlayerController::default();
    c.address = CONTROLLER;
    assert!(c.get_is_alive(&mem));
    assert!(c.get_team_id(&mem));
    assert_eq!(c.alive_status, 1);
    assert_eq!(c.team_id, 2);
    c.address = 0;
    assert!(!c.get_is_alive(&mem));
    assert!(!c.get_team_id(&mem));
    assert!(!c.get_player_name(&mem));
}

#[test]
fn has_flag_reads_low_bit() {
    let mut p = PlayerPawn::default();
    assert!(!p.has_flag(Flags::InAir));
    p.flags = 0b10;
    assert!(!p.has_flag(Flags::InAir));
    p.flags = 0b1;
    assert!(p.has_flag(Flags::InAir));
    assert_eq!(Flags::InAir.bit(), 1);
}

#[test]
fn unresolved_pawn_handle_fails_controller() {
    // Slot 4 of page 1 is empty: the handle names no pawn.
    let mut img = world(80, 1);
    img.put_u64(CONTROLLER + CONTROLLER_PLAYER_PAWN, (1 << 9) | 4);
    let mem = img.memory();
    let mut e = Entity::default();
    assert!(!e.update_controller(&mem, CONTROLLER, ENTITY_LIST));
    assert_eq!(e.controller.address, 0);
    assert_eq!(e.controller.player_name, "");
    assert_eq!(e.pawn.address, 0);
    // Without an entity list nothing resolves either.
    assert!(!e.update_controller(&mem, CONTROLLER, 0));
    assert_eq!(e.controller.team_id, 0);
}
