use nvext::bomb::{bomb_site_name, get_bomb, get_bomb_planted, get_bomb_position, get_bomb_site};
use nvext::memory::RemoteMemory;
use nvext::offsets::{ENTITY_GAME_SCENE_NODE, PLANTED_C4_BOMB_SITE, SCENE_NODE_ABS_ORIGIN};

const BASE: u64 = 0x1000;

fn image(writes: &[(u64, Vec<u8>)]) -> RemoteMemory {
    let mut bytes = vec![0u8; 0x4000];
    for (at, data) in writes {
        let i = (*at - BASE) as usize;
        bytes[i..i + data.len()].copy_from_slice(data);
    }
    let mut mem = RemoteMemory::new();
    mem.map_region(BASE, bytes);
    mem
}

#[test]
fn bomb_is_two_pointer_reads() {
    let mem = image(&[
        (0x1100, 0x1200u64.to_le_bytes().to_vec()),
        (0x1200, 0x2000u64.to_le_bytes().to_vec()),
    ]);
    assert_eq!(get_bomb(&mem, 0x1100), Some(0x2000));
    assert_eq!(get_bomb(&mem, 0), None);
    assert_eq!(get_bomb(&mem, 0x9000), None);
}

#[test]
fn bomb_not_planted_reads_zero_pointer() {
    let mem = image(&[(0x1100, 0x1200u64.to_le_bytes().to_vec())]);
    assert_eq!(get_bomb(&mem, 0x1100), Some(0));
    // The first pointer is null: the second read fails.
    assert_eq!(get_bomb(&mem, 0x1300), None);
}

#[test]
fn planted_flag_is_eight_bytes_before() {
    let mem = image(&[(0x1100 - 8, vec![1])]);
    assert!(get_bomb_planted(&mem, 0x1100));
    assert!(!get_bomb_planted(&mem, 0x1200));
    assert!(!get_bomb_planted(&mem, 0));
    assert!(!get_bomb_planted(&mem, 7));
    assert!(!get_bomb_planted(&mem, 0x9000));
}

#[test]
fn bomb_site_one_is_b() {
    assert_eq!(bomb_site_name(1), "B");
}

#[test]
fn bomb_site_other_indices_are_a() {
    assert_eq!(bomb_site_name(0), "A");
    assert_eq!(bomb_site_name(2), "A");
    assert_eq!(bomb_site_name(-1i32 as u32), "A");
    assert_eq!(bomb_site_name(u32::MAX), "A");
}

#[test]
fn bomb_site_is_read_at_its_offset() {
    let planted = 0x1100;
    let mem = image(&[(planted + PLANTED_C4_BOMB_SITE, 1u32.to_le_bytes().to_vec())]);
    assert_eq!(get_bomb_site(&mem, planted), Some("B".to_string()));
    let mem = image(&[(planted + PLANTED_C4_BOMB_SITE, 0u32.to_le_bytes().to_vec())]);
    assert_eq!(get_bomb_site(&mem, planted), Some("A".to_string()));
    assert_eq!(get_bomb_site(&mem, 0), None);
    assert_eq!(get_bomb_site(&mem, 0x9000), None);
}

#[test]
fn bomb_position_through_scene_node() {
    let planted = 0x1100;
    let node = 0x3000;
    let mut pos = Vec::new();
    for v in [100.0f32, -50.0, 8.5] {
        pos.extend_from_slice(&v.to_bits().to_le_bytes());
    }
    let mem = image(&[
        (planted + ENTITY_GAME_SCENE_NODE, (node as u64).to_le_bytes().to_vec()),
        (node + SCENE_NODE_ABS_ORIGIN, pos),
    ]);
    let p = get_bomb_position(&mem, planted).unwrap();
    assert_eq!(f32::from_bits(p.x), 100.0);
    assert_eq!(f32::from_bits(p.y), -50.0);
    assert_eq!(f32::from_bits(p.z), 8.5);
    assert_eq!(get_bomb_position(&mem, 0), None);
    // A null scene node fails closed.
    assert_eq!(get_bomb_position(&mem, 0x1200), None);
}
