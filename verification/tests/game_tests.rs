use proext::game::{
    count_attach_failure, count_init_failure,
    entity_list_entry_address, init_game_address, run_bunny_hop, run_no_flash, set_force_jump,
    update_entity_list_entry, Address, ModuleOffsets, WordWrite, FORCE_JUMP_PRESS,
    FORCE_JUMP_RELEASE,
};
use proext::offsets::{offsets_need_scan, displacement_address, search_offsets, update_offsets, SignatureHits};

fn offsets() -> ModuleOffsets {
    ModuleOffsets {
        entity_list: 0x10,
        matrix: 0x20,
        view_angle: 0x30,
        local_player_controller: 0x40,
        local_player_pawn: 0x50,
        bomb: 0x60,
        force_jump: 0x70,
        global_vars: 0x80,
    }
}

#[test]
fn init_addresses_from_module_base() {
    let mut a = Address::default();
    a.entity_list_entry = 99;
    assert!(init_game_address(&mut a, 0x7000_0000, &offsets()));
    assert_eq!(a.client_dll, 0x7000_0000);
    assert_eq!(a.entity_list, 0x7000_0010);
    assert_eq!(a.matrix, 0x7000_0020);
    assert_eq!(a.view_angle, 0x7000_0030);
    assert_eq!(a.local_controller, 0x7000_0040);
    assert_eq!(a.local_pawn, 0x7000_0050);
    assert_eq!(a.bomb, 0x7000_0060);
    assert_eq!(a.force_jump, 0x7000_0070);
    assert_eq!(a.global_vars, 0x7000_0080);
    assert_eq!(a.entity_list_entry, 99);
}

#[test]
fn init_fails_without_module() {
    let mut a = Address::default();
    assert!(!init_game_address(&mut a, 0, &offsets()));
    assert_eq!(a.entity_list, 0x10);
}

#[test]
fn entity_list_entry_update() {
    let mut a = Address::default();
    assert_eq!(entity_list_entry_address(0x1000), Some(0x1010));
    assert_eq!(entity_list_entry_address(0), None);
    assert!(update_entity_list_entry(&mut a, Some(0x1000), Some(0x4242)));
    assert_eq!(a.entity_list_entry, 0x4242);
    assert!(!update_entity_list_entry(&mut a, Some(0x1000), Some(0)));
    assert_eq!(a.entity_list_entry, 0);
    a.entity_list_entry = 5;
    assert!(!update_entity_list_entry(&mut a, None, Some(9)));
    assert!(!update_entity_list_entry(&mut a, Some(0), Some(9)));
    assert!(!update_entity_list_entry(&mut a, Some(0x1000), None));
    assert_eq!(a.entity_list_entry, 5);
}

#[test]
fn bunny_hop_writes() {
    let mut a = Address::default();
    a.force_jump = 0xF00;
    let w = |value| WordWrite { address: 0xF00, value };
    assert_eq!(run_bunny_hop(&a, true, true), vec![w(65537)]);
    assert_eq!(run_bunny_hop(&a, true, false), vec![w(256), w(65537), w(256)]);
    assert_eq!(run_bunny_hop(&a, false, true), vec![w(256)]);
    assert_eq!(run_bunny_hop(&a, false, false), vec![w(256)]);
    assert_eq!(set_force_jump(&a, 7), w(7));
    assert_eq!((FORCE_JUMP_PRESS, FORCE_JUMP_RELEASE), (65537, 256));
}

#[test]
fn no_flash_address() {
    assert_eq!(run_no_flash(0x1000, 0x135C), 0x235C);
}

#[test]
fn signature_scan_targets() {
    assert_eq!(displacement_address(0x1000), Some(0x1003));
    assert_eq!(displacement_address(0), None);
    assert_eq!(search_offsets(Some(0x1000), Some(0x20)), Some(0x1027));
    assert_eq!(search_offsets(None, Some(0x20)), None);
    assert_eq!(search_offsets(Some(0x1000), None), None);
    assert_eq!(search_offsets(Some(0), Some(0x20)), None);
    assert_eq!(search_offsets(Some(u64::MAX - 7), Some(1)), None);
    assert_eq!(search_offsets(Some(u64::MAX), Some(1)), None);
}

fn hits() -> SignatureHits {
    SignatureHits {
        entity_list: Some(0x7000_1000),
        local_player_controller: Some(0x7000_2000),
        view_matrix: Some(0x7000_3000),
        view_angles: Some(0x7000_4000),
        view_angles_memory: Some(0x7000_0000),
        local_player_pawn: Some(0x7000_5000),
        planted_c4: Some(0x7000_6000),
    }
}

#[test]
fn update_offsets_success() {
    let mut o = offsets();
    assert_eq!(update_offsets(&mut o, 0x7000_0000, &hits()), None);
    assert_eq!(o.entity_list, 0x1000);
    assert_eq!(o.local_player_controller, 0x2000);
    assert_eq!(o.matrix, 0x3000);
    assert_eq!(o.view_angle, 0x5390);
    assert_eq!(o.local_player_pawn, 0x5138);
    assert_eq!(o.bomb, 0x6000);
    assert_eq!(o.force_jump, 0x70);
}

#[test]
fn update_offsets_errors() {
    let mut o = offsets();
    assert_eq!(update_offsets(&mut o, 0, &hits()), Some("ClientDLL".to_string()));
    assert_eq!(o, offsets());
    let cases: [(fn(&mut SignatureHits), &str); 7] = [
        (|h| h.entity_list = None, "EntityList"),
        (|h| h.local_player_controller = None, "LocalPlayerController"),
        (|h| h.view_matrix = None, "ViewMatrix"),
        (|h| h.view_angles = None, "ViewAngles"),
        (|h| h.view_angles_memory = None, "ViewAnglesMemory"),
        (|h| h.local_player_pawn = None, "LocalPlayerPawn"),
        (|h| h.planted_c4 = None, "Bomb"),
    ];
    for (spoil, name) in cases {
        let mut h = hits();
        spoil(&mut h);
        let mut o = offsets();
        assert_eq!(update_offsets(&mut o, 0x7000_0000, &h), Some(name.to_string()));
    }
}

#[test]
fn update_offsets_keeps_earlier_steps() {
    let mut h = hits();
    h.view_matrix = None;
    let mut o = offsets();
    assert_eq!(update_offsets(&mut o, 0x7000_0000, &h), Some("ViewMatrix".to_string()));
    assert_eq!(o.entity_list, 0x1000);
    assert_eq!(o.local_player_controller, 0x2000);
    assert_eq!(o.matrix, 0x20);
}

#[test]
fn attach_failures_count_except_missing_process() {
    let mut failed = 0;
    assert!(!count_attach_failure(&mut failed, "ProcessId", 2));
    assert_eq!(failed, 0);
    assert!(!count_attach_failure(&mut failed, "HProcess", 2));
    assert_eq!(failed, 1);
    assert!(count_attach_failure(&mut failed, "Module", 2));
    assert_eq!(failed, 2);
    let mut tries = 0;
    assert!(!count_init_failure(&mut tries, 3));
    assert!(!count_init_failure(&mut tries, 3));
    assert!(count_init_failure(&mut tries, 3));
}

#[test]
fn module_check_before_scans() {
    assert_eq!(offsets_need_scan(0), Some("ClientDLL".to_string()));
    assert_eq!(offsets_need_scan(0x7000_0000), None);
}
