use proext::entity::{
    block_pointer_offset_of, entry_offset_of, is_enemy_visible, punch_address, CUtlVector, Entity,
    Flags, PawnLookup, PawnReads, PlayerController, PlayerPawn,
};
use proext::memory::{trace_address, ReadStep};
use std::collections::HashMap;

fn controller() -> PlayerController {
    PlayerController {
        address: 0x5000,
        alive_status: 0,
        pawn: 0,
        team_id: 0,
        health: 0,
        player_name: "None".to_string(),
    }
}

fn pawn() -> PlayerPawn {
    PlayerPawn {
        address: 0x9000,
        weapon_name: "None".to_string(),
        health: 0,
        armor: 0,
        fov: 0,
        spotted_by_mask: 0,
        flags: 0,
    }
}

#[test]
fn handle_offsets() {
    // handle 0x0603: block (0x603 & 0x7FFF) >> 9 = 3, entry 0x603 & 0x1FF = 3
    assert_eq!(block_pointer_offset_of(0x603), 0x10 + 8 * 3);
    assert_eq!(entry_offset_of(0x603), 0x78 * 3);
    assert_eq!(block_pointer_offset_of(0xFFFF_FFFF), 0x10 + 8 * 63);
    assert_eq!(entry_offset_of(0xFFFF_FFFF), 0x78 * 511);
}

#[test]
fn controller_getters_store_reads() {
    let mut c = controller();
    assert!(c.get_is_alive(Some(1)));
    assert!(c.get_team_id(Some(3)));
    assert!(c.get_health(Some(77)));
    assert_eq!((c.alive_status, c.team_id, c.health), (1, 3, 77));
    assert!(!c.get_health(None));
    assert_eq!(c.health, 77);
}

#[test]
fn player_name_keeps_old_on_empty() {
    let mut c = controller();
    let mut buf = [0u8; 16];
    buf[..5].copy_from_slice(b"alice");
    assert!(c.get_player_name(Some(&buf)));
    assert_eq!(c.player_name, "alice");
    let empty = [0u8; 16];
    assert!(c.get_player_name(Some(&empty)));
    assert_eq!(c.player_name, "alice");
    assert!(!c.get_player_name(None));
    assert_eq!(c.player_name, "alice");
}

#[test]
fn pawn_lookup_follows_handle() {
    let handle_offset = 0x60;
    let entity_list = 0x100;
    let handle: u64 = 0x203; // block 1, entry 3
    let mut mem = HashMap::new();
    mem.insert(0x5000 + handle_offset, handle);
    mem.insert(entity_list, 0x7000);
    mem.insert(0x7000 + 0x10 + 8 * 1, 0x8000);
    mem.insert(0x8000 + 0x78 * 3, 0xABCD);
    let mut c = controller();
    let mut lookup = PawnLookup::new(handle_offset, entity_list);
    let mut reply = None;
    let mut reads = 0;
    let pawn = loop {
        match c.get_player_pawn_address(&mut lookup, reply) {
            ReadStep::Done(p) => break p,
            ReadStep::Read(a) => {
                reads += 1;
                reply = mem.get(&a).copied();
            }
        }
    };
    assert_eq!(pawn, 0xABCD);
    assert_eq!(reads, 4);
    assert_eq!(c.pawn, handle);
}

#[test]
fn pawn_lookup_failure_gives_zero() {
    let mut c = controller();
    let mut lookup = PawnLookup::new(0x60, 0x100);
    assert_eq!(c.get_player_pawn_address(&mut lookup, None), ReadStep::Read(0x5060));
    assert_eq!(c.get_player_pawn_address(&mut lookup, None), ReadStep::Done(0));
}

#[test]
fn pawn_lookup_null_controller_gives_zero() {
    let mut c = controller();
    c.address = 0;
    let mut lookup = PawnLookup::new(0x60, 0x100);
    assert_eq!(c.get_player_pawn_address(&mut lookup, None), ReadStep::Done(0));
}

#[test]
fn pawn_getters_and_flags() {
    let mut p = pawn();
    assert!(p.get_health(Some(50)));
    assert!(p.get_armor(Some(100)));
    assert!(p.get_spotted(Some(0b101)));
    assert!(p.get_f_flags(Some(1)));
    assert!(p.has_flag(Flags::InAir));
    assert!(p.get_f_flags(Some(0x100)));
    assert!(!p.has_flag(Flags::InAir));
    assert_eq!((p.health, p.armor, p.spotted_by_mask), (50, 100, 0b101));
}

#[test]
fn pawn_fov_needs_camera_services() {
    let mut p = pawn();
    assert_eq!(PlayerPawn::fov_address(0x2000, 0x288), Some(0x2288));
    assert!(!p.get_fov(Some(0), 0x288, Some(90)));
    assert!(!p.get_fov(None, 0x288, Some(90)));
    assert_eq!(p.fov, 0);
    assert!(p.get_fov(Some(0x2000), 0x288, Some(90)));
    assert_eq!(p.fov, 90);
}

#[test]
fn entity_alive_needs_status_and_health() {
    let mut e = Entity { controller: controller(), pawn: pawn() };
    assert!(!e.is_alive());
    e.controller.alive_status = 1;
    assert!(!e.is_alive());
    e.pawn.health = 1;
    assert!(e.is_alive());
}

#[test]
fn enemy_visibility_bits() {
    assert!(is_enemy_visible(1 << 5, 0, 5, 9));
    assert!(is_enemy_visible(0, 1 << 9, 5, 9));
    assert!(!is_enemy_visible(1 << 4, 1 << 8, 5, 9));
    assert!(is_enemy_visible(1 << 63, 0, 63, 0));
}

#[test]
fn update_controller_sequence() {
    let mut e = Entity { controller: controller(), pawn: pawn() };
    let mut name = [0u8; 8];
    name[..3].copy_from_slice(b"bob");
    assert!(!e.update_controller(0, Some(1), Some(2), Some(&name)));
    assert_eq!(e.controller.address, 0x5000);
    assert!(!e.update_controller(0x6000, Some(1), None, Some(&name)));
    assert_eq!((e.controller.address, e.controller.alive_status, e.controller.team_id), (0x6000, 1, 0));
    assert!(e.update_controller(0x7000, Some(1), Some(2), Some(&name)));
    assert_eq!((e.controller.address, e.controller.team_id), (0x7000, 2));
    assert_eq!(e.controller.player_name, "bob");
}

#[test]
fn weapon_name_from_trace() {
    let mut p = pawn();
    let mut mem = HashMap::new();
    mem.insert(0x9000 + 0x1308, 0xA000u64);
    mem.insert(0xA010, 0xB000u64);
    mem.insert(0xB020, 0xC000u64);
    let mut trace = p.weapon_name_trace(0x1308);
    let mut reply = None;
    let address = loop {
        match trace_address(&mut trace, reply) {
            ReadStep::Done(a) => break a,
            ReadStep::Read(a) => reply = mem.get(&a).copied(),
        }
    };
    assert_eq!(address, 0xC000);
    let mut buf = [0u8; 40];
    buf[..12].copy_from_slice(b"weapon_ak47\0");
    assert!(p.get_weapon_name(address, Some(&buf)));
    assert_eq!(p.weapon_name, "AK-47");
    let mut upper = [0u8; 40];
    upper[..14].copy_from_slice(b"WEAPON_M4A1_SI");
    assert!(p.get_weapon_name(address, Some(&upper)));
    assert_eq!(p.weapon_name, "");
    // an empty name is never replaced
    assert!(p.get_weapon_name(address, Some(&buf)));
    assert_eq!(p.weapon_name, "");
    p.weapon_name = "x".to_string();
    assert!(!p.get_weapon_name(0, Some(&buf)));
    assert!(!p.get_weapon_name(address, None));
    assert_eq!(p.weapon_name, "x");
    let mut deagle = [0u8; 40];
    deagle[..14].copy_from_slice(b"weapon_deagle\0");
    assert!(p.get_weapon_name(address, Some(&deagle)));
    assert_eq!(p.weapon_name, "Desert Eagle");
}

#[test]
fn punch_cache_last_entry() {
    let cache = CUtlVector { count: 3, data: 0x1000 };
    assert_eq!(punch_address(&cache), Some(0x1000 + 2 * 12));
    assert_eq!(punch_address(&CUtlVector { count: 0, data: 0x1000 }), None);
    assert_eq!(punch_address(&CUtlVector { count: 0x10000, data: 0x1000 }), None);
    assert_eq!(punch_address(&CUtlVector { count: 0xFFFF, data: 0 }), Some(0xFFFE * 12));
}

fn full_reads() -> PawnReads {
    let mut name = vec![0u8; 40];
    name[..4].copy_from_slice(b"awp\0");
    PawnReads {
        positions: true,
        weapon_name_address: 0xC000,
        weapon_name: Some(name),
        health: Some(90),
        armor: Some(50),
        camera_services: Some(0x2000),
        fov_offset: 0x288,
        fov: Some(90),
        spotted_by_mask: Some(6),
        flags: Some(1),
        bones: true,
    }
}

#[test]
fn update_pawn_reads_in_order() {
    let mut e = Entity { controller: controller(), pawn: pawn() };
    assert!(e.update_pawn(0x9100, &full_reads()));
    assert_eq!(e.pawn.address, 0x9100);
    assert_eq!(e.pawn.weapon_name, "AWP");
    assert_eq!((e.pawn.health, e.pawn.armor, e.pawn.fov, e.pawn.spotted_by_mask, e.pawn.flags), (90, 50, 90, 6, 1));

    let mut e = Entity { controller: controller(), pawn: pawn() };
    let reads = PawnReads { armor: None, ..full_reads() };
    assert!(!e.update_pawn(0x9100, &reads));
    assert_eq!(e.pawn.health, 90);
    assert_eq!((e.pawn.armor, e.pawn.fov), (0, 0));

    let mut e = Entity { controller: controller(), pawn: pawn() };
    assert!(!e.update_pawn(0, &full_reads()));
    assert_eq!(e.pawn.address, 0x9000);
    let reads = PawnReads { bones: false, ..full_reads() };
    assert!(!e.update_pawn(0x9100, &reads));
    assert_eq!(e.pawn.flags, 1);
}

#[test]
fn update_pawn_address_sets_pawn() {
    let handle_offset = 0x60;
    let entity_list = 0x100;
    let mut mem = HashMap::new();
    mem.insert(0x5000 + handle_offset, 0x203u64);
    mem.insert(entity_list, 0x7000);
    mem.insert(0x7000 + 0x10 + 8, 0x8000);
    mem.insert(0x8000 + 0x78 * 3, 0xABCD);
    let mut e = Entity { controller: controller(), pawn: pawn() };
    let mut lookup = PawnLookup::new(handle_offset, entity_list);
    let mut reply = None;
    loop {
        match e.update_pawn_address(&mut lookup, reply) {
            ReadStep::Done(p) => {
                assert_eq!(p, 0xABCD);
                break;
            }
            ReadStep::Read(a) => {
                assert_eq!(e.pawn.address, 0x9000);
                reply = mem.get(&a).copied();
            }
        }
    }
    assert_eq!(e.pawn.address, 0xABCD);
    assert_eq!(e.controller.pawn, 0x203);
    assert_eq!(e.controller.player_name, "None");
}

#[test]
fn update_pawn_leaves_controller() {
    let mut e = Entity { controller: controller(), pawn: pawn() };
    e.controller.health = 42;
    e.controller.pawn = 7;
    assert!(!e.update_pawn(0, &full_reads()));
    assert_eq!((e.controller.health, e.controller.pawn), (42, 7));
    assert!(e.update_pawn(0x9100, &full_reads()));
    assert_eq!((e.controller.health, e.controller.pawn, e.controller.player_name.as_str()), (42, 7, "None"));
}
