//! Player controllers and pawns, hydrated field by field from remote memory.

use vstd::prelude::*;
use crate::memory::{
    CUtlVector, MemView, RemoteMemory, Vec2Bits, Vec3Bits,
    read_offset_bytes_spec, read_offset_i32_spec, read_offset_u32_spec, read_offset_u64_spec,
    read_offset_utl_vector_spec, read_offset_vec2_spec, read_offset_vec3_spec, read_spec,
    read_u64_spec, trace_spec,
};
use crate::offsets::{
    CAMERA_SERVICES_FOV_START, CONTROLLER_PAWN_IS_ALIVE, CONTROLLER_PLAYER_NAME,
    CONTROLLER_PLAYER_PAWN, ENTITY_FLAGS, ENTITY_HEALTH, ENTITY_LIST_PAGES, ENTITY_LIST_PAGE_STRIDE,
    ENTITY_LIST_SLOT_STRIDE, ENTITY_TEAM_NUM, PAWN_AIM_PUNCH_CACHE, PAWN_ARMOR_VALUE,
    PAWN_CAMERA_SERVICES, PAWN_CLIPPING_WEAPON, PAWN_ENTITY_SPOTTED_STATE, PAWN_EYE_ANGLES,
    PAWN_LAST_CLIP_CAMERA_POS, PAWN_OLD_ORIGIN, PAWN_SHOTS_FIRED, PLAYER_NAME_LEN,
    SPOTTED_STATE_SPOTTED_BY_MASK, WEAPON_CLIP, WEAPON_DATA, WEAPON_DATA_MAX_CLIP,
    WEAPON_NAME_HOP_1, WEAPON_NAME_HOP_2, WEAPON_NAME_LEN,
};
use crate::text::{buffer_to_string, decode_weapon_id, lossy_utf8_of, until_nul, weapon_id_of};
use crate::weapon::{
    WeaponType, parse_weapon_name, parse_weapon_type, weapon_category, weapon_display,
};

verus! {

/// The page of the entity list that a handle selects.
pub open spec fn page_index(h: u64) -> u64 {
    (h & 0x7FFF) >> 9
}

/// The slot within its page that a handle selects.
pub open spec fn slot_index(h: u64) -> u64 {
    h & 0x1FF
}

/// The address of the page that handle `h` selects, read from the list at `list_head`.
pub open spec fn page_address(m: MemView, list_head: u64, h: u64) -> Option<u64> {
    read_offset_u64_spec(
        m,
        list_head,
        (ENTITY_LIST_PAGES + ENTITY_LIST_PAGE_STRIDE * page_index(h)) as u64,
    )
}

/// The entity address that handle `h` selects within the page at `page`.
pub open spec fn slot_address(m: MemView, page: u64, h: u64) -> Option<u64> {
    read_offset_u64_spec(m, page, (ENTITY_LIST_SLOT_STRIDE * slot_index(h)) as u64)
}

/// The entity that handle `h` names, through the list whose head address is
/// stored at `entity_list`; the null address where any hop fails.
pub open spec fn handle_target(m: MemView, entity_list: u64, h: u64) -> u64 {
    match read_u64_spec(m, entity_list) {
        Some(head) => match page_address(m, head, h) {
            Some(page) => match slot_address(m, page, h) {
                Some(p) => p,
                None => 0,
            },
            None => 0,
        },
        None => 0,
    }
}

/// The page that a handle selects does not depend on its low nine bits, the
/// slot index.
pub proof fn lemma_page_ignores_slot_bits(m: MemView, list_head: u64, h1: u64, h2: u64)
    requires
        h1 >> 9u64 == h2 >> 9u64,
    ensures
        page_index(h1) == page_index(h2),
        page_address(m, list_head, h1) == page_address(m, list_head, h2),
{
    assert((h1 & 0x7FFF) >> 9u64 == (h2 & 0x7FFF) >> 9u64) by (bit_vector)
        requires
            h1 >> 9u64 == h2 >> 9u64,
    ;
}

fn page_offset(h: u64) -> (r: u64)
    ensures
        r == ENTITY_LIST_PAGES + ENTITY_LIST_PAGE_STRIDE * page_index(h),
{
    let page = (h & 0x7FFF) >> 9;
    assert(((h & 0x7FFF) >> 9u64) <= 63) by (bit_vector);
    ENTITY_LIST_PAGES + ENTITY_LIST_PAGE_STRIDE * page
}

fn slot_offset(h: u64) -> (r: u64)
    ensures
        r == ENTITY_LIST_SLOT_STRIDE * slot_index(h),
{
    let slot = h & 0x1FF;
    assert((h & 0x1FF) <= 511) by (bit_vector);
    ENTITY_LIST_SLOT_STRIDE * slot
}

/// Resolves handle `h` to an entity address through the entity list whose
/// head address is stored at `entity_list`; the null address where any hop fails.
pub fn resolve_handle(mem: &RemoteMemory, entity_list: u64, h: u64) -> (r: u64)
    ensures
        r == handle_target(mem@, entity_list, h),
{
    let head = match mem.read_u64(entity_list) {
        Some(v) => v,
        None => {
            return 0;
        },
    };
    let page = match mem.read_offset_u64(head, page_offset(h)) {
        Some(v) => v,
        None => {
            return 0;
        },
    };
    match mem.read_offset_u64(page, slot_offset(h)) {
        Some(v) => v,
        None => 0,
    }
}

/// The identity half of a player.
pub struct PlayerController {
    pub address: u64,
    pub alive_status: i32,
    pub pawn: u64,
    pub team_id: i32,
    pub player_name: String,
}

/// The model of a controller: its fields, the name as text.
pub struct ControllerState {
    pub address: u64,
    pub alive_status: i32,
    pub pawn: u64,
    pub team_id: i32,
    pub player_name: Seq<char>,
}

impl View for PlayerController {
    type V = ControllerState;

    open spec fn view(&self) -> ControllerState {
        ControllerState {
            address: self.address,
            alive_status: self.alive_status,
            pawn: self.pawn,
            team_id: self.team_id,
            player_name: self.player_name@,
        }
    }
}

impl Default for PlayerController {
    fn default() -> (r: Self)
        ensures
            r@ == PlayerController::default_state(),
    {
        PlayerController {
            address: 0,
            alive_status: 0,
            pawn: 0,
            team_id: 0,
            player_name: String::new(),
        }
    }
}

/// The name that a controller holds after reading its name buffer `buffer`:
/// the decoded text, or the name held before where that text is empty.
pub open spec fn kept_name(previous: Seq<char>, buffer: Seq<u8>) -> Seq<char> {
    if lossy_utf8_of(until_nul(buffer)).len() == 0 {
        previous
    } else {
        lossy_utf8_of(until_nul(buffer))
    }
}

/// The pawn address that the controller at `address` names; the null address
/// where any hop fails.
pub open spec fn controller_pawn_address(m: MemView, address: u64, entity_list: u64) -> u64 {
    match read_offset_u64_spec(m, address, CONTROLLER_PLAYER_PAWN) {
        Some(h) => handle_target(m, entity_list, h),
        None => 0,
    }
}

impl PlayerController {
    pub fn duplicate(&self) -> (r: PlayerController)
        ensures
            r@ == self@,
    {
        PlayerController {
            address: self.address,
            alive_status: self.alive_status,
            pawn: self.pawn,
            team_id: self.team_id,
            player_name: self.player_name.clone(),
        }
    }

    /// Reads the alive flag; on failure nothing changes.
    pub fn get_is_alive(&mut self, mem: &RemoteMemory) -> (r: bool)
        ensures
            match read_offset_i32_spec(mem@, old(self).address, CONTROLLER_PAWN_IS_ALIVE) {
                Some(v) => r && final(self)@ == (ControllerState { alive_status: v, ..old(self)@ }),
                None => !r && final(self)@ == old(self)@,
            },
    {
        match mem.read_offset_i32(self.address, CONTROLLER_PAWN_IS_ALIVE) {
            Some(v) => {
                self.alive_status = v;
                true
            },
            None => false,
        }
    }

    /// Reads the team number; on failure nothing changes.
    pub fn get_team_id(&mut self, mem: &RemoteMemory) -> (r: bool)
        ensures
            match read_offset_i32_spec(mem@, old(self).address, ENTITY_TEAM_NUM) {
                Some(v) => r && final(self)@ == (ControllerState { team_id: v, ..old(self)@ }),
                None => !r && final(self)@ == old(self)@,
            },
    {
        match mem.read_offset_i32(self.address, ENTITY_TEAM_NUM) {
            Some(v) => {
                self.team_id = v;
                true
            },
            None => false,
        }
    }

    /// Reads the name buffer. An empty decoded name keeps the name held before.
    pub fn get_player_name(&mut self, mem: &RemoteMemory) -> (r: bool)
        ensures
            match read_offset_bytes_spec(
                mem@,
                old(self).address,
                CONTROLLER_PLAYER_NAME,
                PLAYER_NAME_LEN as nat,
            ) {
                Some(b) => r && final(self)@ == (ControllerState {
                    player_name: kept_name(old(self)@.player_name, b),
                    ..old(self)@
                }),
                None => !r && final(self)@ == old(self)@,
            },
    {
        let buffer = match mem.read_offset(self.address, CONTROLLER_PLAYER_NAME, PLAYER_NAME_LEN) {
            Some(b) => b,
            None => {
                return false;
            },
        };
        let name = buffer_to_string(buffer.as_slice());
        if !name.as_str().is_empty() {
            self.player_name = name;
        }
        true
    }

    /// Reads the pawn handle into `pawn` and resolves it through the entity
    /// list whose head address is stored at `entity_list`. Returns the pawn's
    /// address, the null address where any hop fails.
    pub fn get_player_pawn_address(&mut self, mem: &RemoteMemory, entity_list: u64) -> (r: u64)
        ensures
            r == controller_pawn_address(mem@, old(self).address, entity_list),
            match read_offset_u64_spec(mem@, old(self).address, CONTROLLER_PLAYER_PAWN) {
                Some(h) => final(self)@ == (ControllerState { pawn: h, ..old(self)@ }),
                None => final(self)@ == old(self)@,
            },
    {
        match mem.read_offset_u64(self.address, CONTROLLER_PLAYER_PAWN) {
            Some(h) => {
                self.pawn = h;
                resolve_handle(mem, entity_list, h)
            },
            None => 0,
        }
    }
}

/// The physical half of a player. Angles and positions are raw `f32` bit patterns.
pub struct PlayerPawn {
    pub address: u64,
    pub view_angle: Vec2Bits,
    pub pos: Vec3Bits,
    pub camera_pos: Vec3Bits,
    pub weapon_name: String,
    pub weapon_type: WeaponType,
    pub weapon_max_ammo: i32,
    pub weapon_ammo: i32,
    pub shots_fired: u32,
    pub aim_punch_cache: CUtlVector,
    pub health: i32,
    pub armor: i32,
    pub fov: i32,
    pub spotted_by_mask: u64,
    pub flags: i32,
}

/// The model of a pawn: its fields, the weapon name as text.
pub struct PawnState {
    pub address: u64,
    pub view_angle: Vec2Bits,
    pub pos: Vec3Bits,
    pub camera_pos: Vec3Bits,
    pub weapon_name: Seq<char>,
    pub weapon_type: WeaponType,
    pub weapon_max_ammo: i32,
    pub weapon_ammo: i32,
    pub shots_fired: u32,
    pub aim_punch_cache: CUtlVector,
    pub health: i32,
    pub armor: i32,
    pub fov: i32,
    pub spotted_by_mask: u64,
    pub flags: i32,
}

impl View for PlayerPawn {
    type V = PawnState;

    open spec fn view(&self) -> PawnState {
        PawnState {
            address: self.address,
            view_angle: self.view_angle,
            pos: self.pos,
            camera_pos: self.camera_pos,
            weapon_name: self.weapon_name@,
            weapon_type: self.weapon_type,
            weapon_max_ammo: self.weapon_max_ammo,
            weapon_ammo: self.weapon_ammo,
            shots_fired: self.shots_fired,
            aim_punch_cache: self.aim_punch_cache,
            health: self.health,
            armor: self.armor,
            fov: self.fov,
            spotted_by_mask: self.spotted_by_mask,
            flags: self.flags,
        }
    }
}

impl Default for PlayerPawn {
    fn default() -> (r: Self)
        ensures
            r@ == PlayerPawn::default_state(),
    {
        PlayerPawn {
            address: 0,
            view_angle: Vec2Bits { x: 0, y: 0 },
            pos: Vec3Bits { x: 0, y: 0, z: 0 },
            camera_pos: Vec3Bits { x: 0, y: 0, z: 0 },
            weapon_name: String::new(),
            weapon_type: WeaponType::Unclassified,
            weapon_max_ammo: 0,
            weapon_ammo: 0,
            shots_fired: 0,
            aim_punch_cache: CUtlVector { count: 0, data: 0 },
            health: 0,
            armor: 0,
            fov: 0,
            spotted_by_mask: 0,
            flags: 0,
        }
    }
}

/// A status flag of a pawn.
#[derive(Clone, Copy, PartialEq, Eq, Structural, Debug)]
pub enum Flags {
    InAir,
}

/// The bit that stands for a flag in a pawn's flag bits.
pub open spec fn flag_bit(flag: Flags) -> i32 {
    match flag {
        Flags::InAir => 1,
    }
}

impl Flags {
    pub fn bit(&self) -> (r: i32)
        ensures
            r == flag_bit(*self),
    {
        match self {
            Flags::InAir => 1,
        }
    }
}

/// What a pawn's weapon fields become after one read.
pub struct WeaponState {
    pub name: Seq<char>,
    pub kind: WeaponType,
    pub max_ammo: i32,
    pub ammo: i32,
}

/// The address of the name of the weapon that the pawn at `pawn` holds: three
/// hops, the first through its weapon-in-hand field. The null address where a
/// hop fails.
pub open spec fn weapon_name_address(m: MemView, pawn: u64) -> u64 {
    trace_spec(m, pawn, seq![PAWN_CLIPPING_WEAPON, WEAPON_NAME_HOP_1, WEAPON_NAME_HOP_2, 0u64])
}

/// The weapon fields read for the pawn at `pawn`, given the name and category
/// held before: an empty identifier keeps them. The clip capacity comes from
/// the weapon's static data, one hop further.
pub open spec fn weapon_spec(m: MemView, pawn: u64, name: Seq<char>, kind: WeaponType) -> Option<
    WeaponState,
> {
    let na = weapon_name_address(m, pawn);
    let buffer = read_spec(m, na, WEAPON_NAME_LEN as nat);
    let weapon = read_offset_u64_spec(m, pawn, PAWN_CLIPPING_WEAPON);
    if na == 0 || buffer is None || weapon is None {
        None
    } else {
        let id = weapon_id_of(buffer->Some_0);
        let data = read_offset_u64_spec(m, weapon->Some_0, WEAPON_DATA);
        if data is None {
            None
        } else {
            let max_ammo = read_offset_i32_spec(m, data->Some_0, WEAPON_DATA_MAX_CLIP);
            let ammo = read_offset_i32_spec(m, weapon->Some_0, WEAPON_CLIP);
            if max_ammo is None || ammo is None {
                None
            } else {
                Some(
                    WeaponState {
                        name: if id.len() == 0 {
                            name
                        } else {
                            weapon_display(id)
                        },
                        kind: if id.len() == 0 {
                            kind
                        } else {
                            weapon_category(id)
                        },
                        max_ammo: max_ammo->Some_0,
                        ammo: ammo->Some_0,
                    },
                )
            }
        }
    }
}

/// The field of view of the pawn at `pawn`, one hop through its camera services.
pub open spec fn fov_spec(m: MemView, pawn: u64) -> Option<i32> {
    match read_offset_u64_spec(m, pawn, PAWN_CAMERA_SERVICES) {
        Some(cs) => read_offset_i32_spec(m, cs, CAMERA_SERVICES_FOV_START),
        None => None,
    }
}

pub open spec fn spotted_spec(m: MemView, pawn: u64) -> Option<u64> {
    read_offset_u64_spec(
        m,
        pawn,
        (PAWN_ENTITY_SPOTTED_STATE + SPOTTED_STATE_SPOTTED_BY_MASK) as u64,
    )
}

/// The pawn at `address` as read from `m`, given the pawn held before (whose
/// weapon name and category an empty weapon identifier keeps). Absent for the
/// null address and where any read fails.
pub open spec fn resolve_pawn(m: MemView, address: u64, prev: PawnState) -> Option<PawnState> {
    let camera_pos = read_offset_vec3_spec(m, address, PAWN_LAST_CLIP_CAMERA_POS);
    let pos = read_offset_vec3_spec(m, address, PAWN_OLD_ORIGIN);
    let view_angle = read_offset_vec2_spec(m, address, PAWN_EYE_ANGLES);
    let weapon = weapon_spec(m, address, prev.weapon_name, prev.weapon_type);
    let shots_fired = read_offset_u32_spec(m, address, PAWN_SHOTS_FIRED);
    let punch = read_offset_utl_vector_spec(m, address, PAWN_AIM_PUNCH_CACHE);
    let health = read_offset_i32_spec(m, address, ENTITY_HEALTH);
    let armor = read_offset_i32_spec(m, address, PAWN_ARMOR_VALUE);
    let fov = fov_spec(m, address);
    let spotted = spotted_spec(m, address);
    let flags = read_offset_i32_spec(m, address, ENTITY_FLAGS);
    if address != 0 && camera_pos is Some && pos is Some && view_angle is Some && weapon is Some
        && shots_fired is Some && punch is Some && health is Some && armor is Some && fov is Some
        && spotted is Some && flags is Some {
        Some(
            PawnState {
                address,
                view_angle: view_angle->Some_0,
                pos: pos->Some_0,
                camera_pos: camera_pos->Some_0,
                weapon_name: weapon->Some_0.name,
                weapon_type: weapon->Some_0.kind,
                weapon_max_ammo: weapon->Some_0.max_ammo,
                weapon_ammo: weapon->Some_0.ammo,
                shots_fired: shots_fired->Some_0,
                aim_punch_cache: punch->Some_0,
                health: health->Some_0,
                armor: armor->Some_0,
                fov: fov->Some_0,
                spotted_by_mask: spotted->Some_0,
                flags: flags->Some_0,
            },
        )
    } else {
        None
    }
}

impl PlayerPawn {
    pub fn duplicate(&self) -> (r: PlayerPawn)
        ensures
            r@ == self@,
    {
        PlayerPawn {
            address: self.address,
            view_angle: self.view_angle,
            pos: self.pos,
            camera_pos: self.camera_pos,
            weapon_name: self.weapon_name.clone(),
            weapon_type: self.weapon_type,
            weapon_max_ammo: self.weapon_max_ammo,
            weapon_ammo: self.weapon_ammo,
            shots_fired: self.shots_fired,
            aim_punch_cache: self.aim_punch_cache,
            health: self.health,
            armor: self.armor,
            fov: self.fov,
            spotted_by_mask: self.spotted_by_mask,
            flags: self.flags,
        }
    }

    /// Reads the eye angles; on failure nothing changes.
    pub fn get_view_angle(&mut self, mem: &RemoteMemory) -> (r: bool)
        ensures
            match read_offset_vec2_spec(mem@, old(self).address, PAWN_EYE_ANGLES) {
                Some(v) => r && final(self)@ == (PawnState { view_angle: v, ..old(self)@ }),
                None => !r && final(self)@ == old(self)@,
            },
    {
        match mem.read_offset_vec2(self.address, PAWN_EYE_ANGLES) {
            Some(v) => {
                self.view_angle = v;
                true
            },
            None => false,
        }
    }

    /// Reads the camera position; on failure nothing changes.
    pub fn get_camera_pos(&mut self, mem: &RemoteMemory) -> (r: bool)
        ensures
            match read_offset_vec3_spec(mem@, old(self).address, PAWN_LAST_CLIP_CAMERA_POS) {
                Some(v) => r && final(self)@ == (PawnState { camera_pos: v, ..old(self)@ }),
                None => !r && final(self)@ == old(self)@,
            },
    {
        match mem.read_offset_vec3(self.address, PAWN_LAST_CLIP_CAMERA_POS) {
            Some(v) => {
                self.camera_pos = v;
                true
            },
            None => false,
        }
    }

    /// Reads the mask of the players that spotted this pawn; on failure nothing changes.
    pub fn get_spotted(&mut self, mem: &RemoteMemory) -> (r: bool)
        ensures
            match spotted_spec(mem@, old(self).address) {
                Some(v) => r && final(self)@ == (PawnState { spotted_by_mask: v, ..old(self)@ }),
                None => !r && final(self)@ == old(self)@,
            },
    {
        match mem.read_offset_u64(
            self.address,
            PAWN_ENTITY_SPOTTED_STATE + SPOTTED_STATE_SPOTTED_BY_MASK,
        ) {
            Some(v) => {
                self.spotted_by_mask = v;
                true
            },
            None => false,
        }
    }

    /// Reads the weapon in hand: its name, through a chain of pointers, mapped
    /// to a display name and a category (an empty name keeps both), then the
    /// rounds in its clip and its clip capacity. On failure nothing changes.
    pub fn get_weapon(&mut self, mem: &RemoteMemory) -> (r: bool)
        ensures
            match weapon_spec(mem@, old(self).address, old(self)@.weapon_name, old(self).weapon_type) {
                Some(w) => r && final(self)@ == (PawnState {
                    weapon_name: w.name,
                    weapon_type: w.kind,
                    weapon_max_ammo: w.max_ammo,
                    weapon_ammo: w.ammo,
                    ..old(self)@
                }),
                None => !r && final(self)@ == old(self)@,
            },
    {
        let hops = vec![PAWN_CLIPPING_WEAPON, WEAPON_NAME_HOP_1, WEAPON_NAME_HOP_2, 0u64];
        assert(hops@ =~= seq![PAWN_CLIPPING_WEAPON, WEAPON_NAME_HOP_1, WEAPON_NAME_HOP_2, 0u64]);
        let name_address = mem.trace(self.address, hops.as_slice());
        if name_address == 0 {
            return false;
        }
        let buffer = match mem.read(name_address, WEAPON_NAME_LEN) {
            Some(b) => b,
            None => {
                return false;
            },
        };
        let id = decode_weapon_id(buffer.as_slice());
        let weapon = match mem.read_offset_u64(self.address, PAWN_CLIPPING_WEAPON) {
            Some(v) => v,
            None => {
                return false;
            },
        };
        let data = match mem.read_offset_u64(weapon, WEAPON_DATA) {
            Some(v) => v,
            None => {
                return false;
            },
        };
        let max_ammo = match mem.read_offset_i32(data, WEAPON_DATA_MAX_CLIP) {
            Some(v) => v,
            None => {
                return false;
            },
        };
        let ammo = match mem.read_offset_i32(weapon, WEAPON_CLIP) {
            Some(v) => v,
            None => {
                return false;
            },
        };
        if !id.as_str().is_empty() {
            self.weapon_type = parse_weapon_type(id.as_str());
            self.weapon_name = parse_weapon_name(id);
        }
        self.weapon_max_ammo = max_ammo;
        self.weapon_ammo = ammo;
        true
    }

    /// Reads the shots fired in the current burst; on failure nothing changes.
    pub fn get_shots_fired(&mut self, mem: &RemoteMemory) -> (r: bool)
        ensures
            match read_offset_u32_spec(mem@, old(self).address, PAWN_SHOTS_FIRED) {
                Some(v) => r && final(self)@ == (PawnState { shots_fired: v, ..old(self)@ }),
                None => !r && final(self)@ == old(self)@,
            },
    {
        match mem.read_offset_u32(self.address, PAWN_SHOTS_FIRED) {
            Some(v) => {
                self.shots_fired = v;
                true
            },
            None => false,
        }
    }

    /// Reads the recoil history header; on failure nothing changes.
    pub fn get_aim_punch_cache(&mut self, mem: &RemoteMemory) -> (r: bool)
        ensures
            match read_offset_utl_vector_spec(mem@, old(self).address, PAWN_AIM_PUNCH_CACHE) {
                Some(v) => r && final(self)@ == (PawnState { aim_punch_cache: v, ..old(self)@ }),
                None => !r && final(self)@ == old(self)@,
            },
    {
        match mem.read_offset_utl_vector(self.address, PAWN_AIM_PUNCH_CACHE) {
            Some(v) => {
                self.aim_punch_cache = v;
                true
            },
            None => false,
        }
    }

    /// Reads the position; on failure nothing changes.
    pub fn get_pos(&mut self, mem: &RemoteMemory) -> (r: bool)
        ensures
            match read_offset_vec3_spec(mem@, old(self).address, PAWN_OLD_ORIGIN) {
                Some(v) => r && final(self)@ == (PawnState { pos: v, ..old(self)@ }),
                None => !r && final(self)@ == old(self)@,
            },
    {
        match mem.read_offset_vec3(self.address, PAWN_OLD_ORIGIN) {
            Some(v) => {
                self.pos = v;
                true
            },
            None => false,
        }
    }

    /// Reads the health; on failure nothing changes.
    pub fn get_health(&mut self, mem: &RemoteMemory) -> (r: bool)
        ensures
            match read_offset_i32_spec(mem@, old(self).address, ENTITY_HEALTH) {
                Some(v) => r && final(self)@ == (PawnState { health: v, ..old(self)@ }),
                None => !r && final(self)@ == old(self)@,
            },
    {
        match mem.read_offset_i32(self.address, ENTITY_HEALTH) {
            Some(v) => {
                self.health = v;
                true
            },
            None => false,
        }
    }

    /// Reads the armor; on failure nothing changes.
    pub fn get_armor(&mut self, mem: &RemoteMemory) -> (r: bool)
        ensures
            match read_offset_i32_spec(mem@, old(self).address, PAWN_ARMOR_VALUE) {
                Some(v) => r && final(self)@ == (PawnState { armor: v, ..old(self)@ }),
                None => !r && final(self)@ == old(self)@,
            },
    {
        match mem.read_offset_i32(self.address, PAWN_ARMOR_VALUE) {
            Some(v) => {
                self.armor = v;
                true
            },
            None => false,
        }
    }

    /// Reads the field of view through the camera services; on failure nothing changes.
    pub fn get_fov(&mut self, mem: &RemoteMemory) -> (r: bool)
        ensures
            match fov_spec(mem@, old(self).address) {
                Some(v) => r && final(self)@ == (PawnState { fov: v, ..old(self)@ }),
                None => !r && final(self)@ == old(self)@,
            },
    {
        let camera_services = match mem.read_offset_u64(self.address, PAWN_CAMERA_SERVICES) {
            Some(v) => v,
            None => {
                return false;
            },
        };
        match mem.read_offset_i32(camera_services, CAMERA_SERVICES_FOV_START) {
            Some(v) => {
                self.fov = v;
                true
            },
            None => false,
        }
    }

    /// Reads the status flag bits; on failure nothing changes.
    pub fn get_f_flags(&mut self, mem: &RemoteMemory) -> (r: bool)
        ensures
            match read_offset_i32_spec(mem@, old(self).address, ENTITY_FLAGS) {
                Some(v) => r && final(self)@ == (PawnState { flags: v, ..old(self)@ }),
                None => !r && final(self)@ == old(self)@,
            },
    {
        match mem.read_offset_i32(self.address, ENTITY_FLAGS) {
            Some(v) => {
                self.flags = v;
                true
            },
            None => false,
        }
    }

    /// Whether `flag`'s bit is set in the flag bits.
    pub fn has_flag(&self, flag: Flags) -> (r: bool)
        ensures
            r == (self.flags & flag_bit(flag) != 0),
    {
        self.flags & flag.bit() != 0
    }
}

/// The controller at `address` as read from `m`, given the controller held
/// before (whose name an empty name buffer keeps). Absent for the null
/// address, where the alive flag, the team, the name or the pawn handle cannot
/// be read, and where the handle does not resolve to a pawn through the entity
/// list at `entity_list`.
pub open spec fn resolve_controller(
    m: MemView,
    address: u64,
    entity_list: u64,
    prev: ControllerState,
) -> Option<ControllerState> {
    let alive = read_offset_i32_spec(m, address, CONTROLLER_PAWN_IS_ALIVE);
    let team = read_offset_i32_spec(m, address, ENTITY_TEAM_NUM);
    let name = read_offset_bytes_spec(m, address, CONTROLLER_PLAYER_NAME, PLAYER_NAME_LEN as nat);
    let handle = read_offset_u64_spec(m, address, CONTROLLER_PLAYER_PAWN);
    if address != 0 && alive is Some && team is Some && name is Some && handle is Some
        && controller_pawn_address(m, address, entity_list) != 0 {
        Some(
            ControllerState {
                address,
                alive_status: alive->Some_0,
                team_id: team->Some_0,
                player_name: kept_name(prev.player_name, name->Some_0),
                pawn: handle->Some_0,
            },
        )
    } else {
        None
    }
}

/// A player: its controller and its pawn.
pub struct Entity {
    pub controller: PlayerController,
    pub pawn: PlayerPawn,
}

/// Whether a player with these halves is alive: the controller's alive flag is
/// one and the pawn has health left.
pub open spec fn alive_spec(c: ControllerState, p: PawnState) -> bool {
    c.alive_status == 1 && p.health > 0
}

impl Default for Entity {
    fn default() -> (r: Self)
        ensures
            r.controller@ == PlayerController::default_state(),
            r.pawn@ == PlayerPawn::default_state(),
    {
        Entity { controller: PlayerController::default(), pawn: PlayerPawn::default() }
    }
}

impl PlayerController {
    pub open spec fn default_state() -> ControllerState {
        ControllerState {
            address: 0,
            alive_status: 0,
            pawn: 0,
            team_id: 0,
            player_name: Seq::empty(),
        }
    }
}

impl PlayerPawn {
    pub open spec fn default_state() -> PawnState {
        PawnState {
            address: 0,
            view_angle: Vec2Bits { x: 0, y: 0 },
            pos: Vec3Bits { x: 0, y: 0, z: 0 },
            camera_pos: Vec3Bits { x: 0, y: 0, z: 0 },
            weapon_name: Seq::empty(),
            weapon_type: WeaponType::Unclassified,
            weapon_max_ammo: 0,
            weapon_ammo: 0,
            shots_fired: 0,
            aim_punch_cache: CUtlVector { count: 0, data: 0 },
            health: 0,
            armor: 0,
            fov: 0,
            spotted_by_mask: 0,
            flags: 0,
        }
    }
}

impl Entity {
    /// Hydrates the controller at `address` and resolves its pawn's address
    /// through the entity list whose head address is stored at `entity_list`.
    /// All or nothing: where any read fails or the pawn handle does not
    /// resolve, it returns `false` and the entity is as it was.
    pub fn update_controller(&mut self, mem: &RemoteMemory, address: u64, entity_list: u64) -> (r:
        bool)
        ensures
            match resolve_controller(mem@, address, entity_list, old(self).controller@) {
                Some(c) => {
                    &&& r
                    &&& final(self).controller@ == c
                    &&& final(self).pawn@ == (PawnState {
                        address: controller_pawn_address(mem@, address, entity_list),
                        ..old(self).pawn@
                    })
                },
                None => !r && final(self).controller@ == old(self).controller@ && final(self).pawn@
                    == old(self).pawn@,
            },
    {
        if address == 0 {
            return false;
        }
        let mut c = self.controller.duplicate();
        c.address = address;
        if !c.get_is_alive(mem) {
            return false;
        }
        if !c.get_team_id(mem) {
            return false;
        }
        if !c.get_player_name(mem) {
            return false;
        }
        let pawn_address = c.get_player_pawn_address(mem, entity_list);
        if pawn_address == 0 {
            return false;
        }
        self.controller = c;
        self.pawn.address = pawn_address;
        true
    }

    /// Hydrates the pawn at `address`, field by field. All or nothing: where
    /// it returns `false`, the entity is as it was. The skeleton is not read
    /// here: a caller that needs it runs the bone step after a `true` result,
    /// and treats the pawn as unresolved where that step fails.
    pub fn update_pawn(&mut self, mem: &RemoteMemory, address: u64) -> (r: bool)
        ensures
            final(self).controller@ == old(self).controller@,
            match resolve_pawn(mem@, address, old(self).pawn@) {
                Some(p) => r && final(self).pawn@ == p,
                None => !r && final(self).pawn@ == old(self).pawn@,
            },
    {
        if address == 0 {
            return false;
        }
        let mut p = self.pawn.duplicate();
        p.address = address;
        if !p.get_camera_pos(mem) {
            return false;
        }
        if !p.get_pos(mem) {
            return false;
        }
        if !p.get_view_angle(mem) {
            return false;
        }
        if !p.get_weapon(mem) {
            return false;
        }
        if !p.get_shots_fired(mem) {
            return false;
        }
        if !p.get_aim_punch_cache(mem) {
            return false;
        }
        if !p.get_health(mem) {
            return false;
        }
        if !p.get_armor(mem) {
            return false;
        }
        if !p.get_fov(mem) {
            return false;
        }
        if !p.get_spotted(mem) {
            return false;
        }
        if !p.get_f_flags(mem) {
            return false;
        }
        self.pawn = p;
        true
    }

    /// Whether the player is alive: alive flag one and health left.
    pub fn is_alive(&self) -> (r: bool)
        ensures
            r == alive_spec(self.controller@, self.pawn@),
    {
        self.controller.alive_status == 1 && self.pawn.health > 0
    }
}

} // verus!
