use proext::activation::{
    slot_elements,
    acting_features, Acting, FrameTargets, capture_hiding, check_entity, entity_slot_offset, esp_elements, feature_toggles, pawn_outcome,
    plan_frame, Activation, ActivationConfig, EntityCheck, EspSwitches, FeatureToggles,
    OverlaySwitches,
};
use proext::bomb::{
    get_bomb, get_bomb_planted, get_bomb_site, planted_flag_address, render_bomb_timer,
    BombTimer, BombTimerText,
};
use proext::cheat_list::{
    render_cheat_list, CheatFeature, CheatListConfig, CheatListLine, FeatureSwitch,
    SettingsSwitch,
};
use proext::crosshair::{crosshair_list_trace, crosshair_pawn_address, crosshair_target, CrosshairOffsets};
use proext::entity::{Entity, PlayerController, PlayerPawn};
use proext::memory::{trace_address, ReadStep};
use proext::spectator::{is_spectating, list_slot_address, SpectatorOffsets, SpectatorReads};

#[test]
fn bomb_reads() {
    assert_eq!(planted_flag_address(0x1008), Some(0x1000));
    assert_eq!(planted_flag_address(7), None);
    assert!(get_bomb_planted(0x1008, Some(true)));
    assert!(!get_bomb_planted(0x1008, Some(false)));
    assert!(!get_bomb_planted(0x1008, None));
    assert!(!get_bomb_planted(4, Some(true)));
    assert_eq!(get_bomb(Some(0x10), Some(0x20)), Some(0x20));
    assert_eq!(get_bomb(None, Some(0x20)), None);
    assert_eq!(get_bomb(Some(0x10), None), None);
}

#[test]
fn bomb_sites() {
    assert_eq!(get_bomb_site(0x1000, 0xE84, Some(1)), Some("B".to_string()));
    assert_eq!(get_bomb_site(0x1000, 0xE84, Some(0)), Some("A".to_string()));
    assert_eq!(get_bomb_site(0x1000, 0xE84, Some(5)), Some("A".to_string()));
    assert_eq!(get_bomb_site(0x1000, 0xE84, None), None);
    assert_eq!(get_bomb_site(0, 0xE84, Some(1)), None);
}

fn text_of(t: BombTimerText) -> String {
    match t {
        BombTimerText::NoInformation => "none".to_string(),
        BombTimerText::Planted { site, seconds } => format!("{} {}", site, seconds),
        BombTimerText::NotPlanted => "off".to_string(),
    }
}

#[test]
fn bomb_timer_counts_down() {
    let mut timer = BombTimer::new();
    let site = || Some("A".to_string());
    assert_eq!(text_of(render_bomb_timer(&mut timer, false, None, false, 0)), "off");
    assert_eq!(text_of(render_bomb_timer(&mut timer, true, site(), false, 1_000_000_000)), "A 40");
    assert_eq!(text_of(render_bomb_timer(&mut timer, true, site(), false, 11_500_000_000)), "A 30");
    assert_eq!(text_of(render_bomb_timer(&mut timer, true, site(), false, 40_999_000_000)), "A 1");
    assert_eq!(text_of(render_bomb_timer(&mut timer, true, site(), false, 41_000_000_000)), "off");
    assert_eq!(text_of(render_bomb_timer(&mut timer, true, site(), true, 2_000_000_000)), "none");
}

#[test]
fn bomb_timer_resets_when_defused() {
    let mut timer = BombTimer::new();
    assert_eq!(timer.update(true, 1_000_000_000), Some(40));
    assert_eq!(timer.update(false, 5_000_000_000), None);
    assert_eq!(timer, BombTimer { is_planted: false, plant_time_ns: None });
    assert_eq!(timer.update(true, 6_000_000_000), Some(40));
    assert_eq!(timer.plant_time_ns, Some(6_000_000_000));
}

#[test]
fn bomb_timer_needs_site() {
    let mut timer = BombTimer::new();
    assert_eq!(text_of(render_bomb_timer(&mut timer, true, None, false, 0)), "off");
    assert!(timer.is_planted);
}

fn switch(enabled: bool, always: bool, key: usize) -> FeatureSwitch {
    FeatureSwitch { enabled, always, key }
}

#[test]
fn cheat_list_lines() {
    let config = CheatListConfig {
        esp: switch(true, false, 3),
        rcs: switch(true, true, 0),
        aimbot: switch(false, false, 1),
        triggerbot: switch(true, false, 2),
        crosshair: switch(true, true, 0),
        radar: switch(false, true, 0),
        settings: SettingsSwitch { enabled: true, bypass_capture: false, exclude_team: true },
    };
    let lines = render_cheat_list(&config, true, false, true, false, true, false, false);
    assert_eq!(
        lines,
        vec![
            CheatListLine::Feature { feature: CheatFeature::Esp, key: Some(3), toggled: true },
            CheatListLine::Feature { feature: CheatFeature::Rcs, key: None, toggled: false },
            CheatListLine::Feature { feature: CheatFeature::Triggerbot, key: Some(2), toggled: true },
            CheatListLine::Feature { feature: CheatFeature::Crosshair, key: None, toggled: false },
            CheatListLine::Settings,
            CheatListLine::ExcludeTeam,
        ]
    );
    let lines = render_cheat_list(&config, false, false, true, false, true, false, false);
    assert_eq!(lines.len(), 4);
    assert_eq!(lines[1], CheatListLine::Feature { feature: CheatFeature::Crosshair, key: None, toggled: false });
}

fn act(enabled: bool, always: bool, only_weapon: bool) -> Activation {
    Activation { enabled, always, only_weapon }
}

#[test]
fn feature_activation() {
    let config = ActivationConfig {
        aimbot: act(true, false, true),
        triggerbot: act(true, true, false),
        rcs: act(true, false, false),
        esp: act(true, true, false),
        crosshair: act(true, true, true),
        radar: act(false, true, false),
    };
    let keys = FeatureToggles { aimbot: true, triggerbot: false, rcs: true, esp: false, crosshair: false, radar: true };
    let r = feature_toggles(&config, false, false, true, &keys);
    assert_eq!(r, FeatureToggles { aimbot: true, triggerbot: true, rcs: true, esp: true, crosshair: true, radar: false });
    let r = feature_toggles(&config, false, true, true, &keys);
    assert!(!r.aimbot && r.triggerbot && !r.crosshair);
    let r = feature_toggles(&config, true, true, true, &keys);
    assert!(!r.aimbot && !r.triggerbot && !r.rcs && r.esp && r.crosshair);
    let r = feature_toggles(&config, false, false, false, &keys);
    assert!(!r.aimbot && !r.triggerbot && !r.rcs && r.esp);
}

#[test]
fn capture_hiding_follows_settings() {
    let mut hidden = false;
    assert_eq!(capture_hiding(&mut hidden, true, true), Some(true));
    assert_eq!(capture_hiding(&mut hidden, true, true), None);
    assert_eq!(capture_hiding(&mut hidden, false, true), Some(false));
    assert_eq!(capture_hiding(&mut hidden, true, false), None);
    assert!(!hidden);
}

#[test]
fn entity_slots() {
    assert_eq!(entity_slot_offset(0), Some(0x78));
    assert_eq!(entity_slot_offset(63), Some(64 * 0x78));
    assert_eq!(entity_slot_offset(u64::MAX), None);
}

fn entity(address: u64, team: i32, alive: i32, health: i32, spotted: u64) -> Entity {
    Entity {
        controller: PlayerController { address, alive_status: alive, pawn: 0, team_id: team, health: 0, player_name: String::new() },
        pawn: PlayerPawn { address: 0, weapon_name: String::new(), health, armor: 0, fov: 0, spotted_by_mask: spotted, flags: 0 },
    }
}

#[test]
fn entity_verdicts() {
    let local = entity(0x100, 2, 1, 100, 0);
    let enemy = entity(0x200, 3, 1, 100, 1 << 4);
    assert_eq!(check_entity(7, 0x100, true, true, &enemy, &local, 4), EntityCheck::LocalPlayer);
    assert_eq!(check_entity(7, 0x200, false, true, &enemy, &local, 4), EntityCheck::Unreadable);
    assert_eq!(check_entity(7, 0x200, true, true, &enemy, &local, 4), EntityCheck::Shown { friendly: false, visible: true });
    assert_eq!(check_entity(7, 0x200, true, true, &enemy, &local, 5), EntityCheck::Shown { friendly: false, visible: false });
    let mate = entity(0x300, 2, 1, 100, 0);
    assert_eq!(check_entity(8, 0x300, true, true, &mate, &local, 4), EntityCheck::ExcludedTeammate);
    assert_eq!(check_entity(8, 0x300, true, false, &mate, &local, 4), EntityCheck::Shown { friendly: true, visible: true });
    let dead = entity(0x400, 3, 1, 0, 0);
    assert_eq!(check_entity(9, 0x400, true, true, &dead, &local, 4), EntityCheck::Dead);
}

#[test]
fn spectator_detection() {
    let offsets = SpectatorOffsets { pawn_handle: 0x60, observer_services: 0x10C0, observer_target: 0x44 };
    let reads = SpectatorReads {
        pawn_handle: Some(0x203),
        pawn: Some(0x9000),
        observer_services: Some(0xA000),
        observer_target: Some(0x105),
        target: Some(0xBEEF),
    };
    assert_eq!(list_slot_address(0x1000, 0x203), Some(0x1000 + 0x78 * 3));
    assert!(is_spectating(0x5000, 0x1000, 0xBEEF, &offsets, &reads));
    assert!(!is_spectating(0x5000, 0x1000, 0xBEEE, &offsets, &reads));
    let no_services = SpectatorReads { observer_services: Some(0), ..reads };
    assert!(!is_spectating(0x5000, 0x1000, 0xBEEF, &offsets, &no_services));
    let failed = SpectatorReads { pawn: None, ..reads };
    assert!(!is_spectating(0x5000, 0x1000, 0xBEEF, &offsets, &failed));
    assert!(!is_spectating(0, 0x1000, 0xBEEF, &offsets, &reads));
}

#[test]
fn esp_elements_follow_switches() {
    let all = EspSwitches {
        skeleton: true,
        head: true,
        eye_ray: false,
        snap_line: true,
        box_outline: true,
        health_bar: false,
        armor_bar: true,
        ammo_bar: true,
        weapon_name: true,
        distance: true,
        name: true,
    };
    assert_eq!(esp_elements(true, false, &all), all);
    let without_pawn = esp_elements(true, true, &all);
    assert!(!without_pawn.distance && without_pawn.name && without_pawn.skeleton);
    let off = esp_elements(false, false, &all);
    assert!(!off.skeleton && !off.name && !off.distance && !off.box_outline);
}

#[test]
fn frame_plans() {
    let s = OverlaySwitches {
        misc_enabled: true,
        watermark: true,
        cheat_list: false,
        bomb_timer: true,
        spectator_list: true,
        bomb_esp: false,
        settings_enabled: true,
        exclude_team: true,
    };
    let p = plan_frame(&s, false);
    assert!(p.watermark && !p.cheat_list && p.bomb_timer && p.spectator_list && p.read_bomb && p.exclude_team);
    assert!(!plan_frame(&s, true).read_bomb);
    let off = OverlaySwitches { misc_enabled: false, settings_enabled: false, ..s };
    let p = plan_frame(&off, false);
    assert!(!p.watermark && !p.bomb_timer && !p.read_bomb && !p.exclude_team);
    assert_eq!(pawn_outcome(true, false, false), Some(false));
    assert_eq!(pawn_outcome(false, true, true), Some(true));
    assert_eq!(pawn_outcome(false, true, false), None);
}

#[test]
fn acting_needs_targets() {
    let active = FeatureToggles { aimbot: true, triggerbot: true, rcs: true, esp: false, crosshair: false, radar: false };
    let targets = FrameTargets {
        aim_target: true,
        aim_angle: true,
        enemy_at_crosshair: true,
        allow_shoot: true,
        crosshair_entity: 0x10,
        crosshair_position: true,
        recoil: true,
    };
    assert_eq!(acting_features(&active, &targets), Acting { aimbot: true, triggerbot: true, rcs: true, run_rcs: false });
    let no_aim = FrameTargets { aim_angle: false, crosshair_entity: 0, ..targets };
    assert_eq!(acting_features(&active, &no_aim), Acting { aimbot: false, triggerbot: false, rcs: true, run_rcs: true });
    let idle = FeatureToggles { aimbot: false, triggerbot: false, rcs: false, ..active };
    assert_eq!(acting_features(&idle, &targets), Acting { aimbot: false, triggerbot: false, rcs: false, run_rcs: false });
}

#[test]
fn skipped_slots_draw_nothing() {
    let all = EspSwitches {
        skeleton: true, head: true, eye_ray: true, snap_line: true, box_outline: true, health_bar: true,
        armor_bar: true, ammo_bar: true, weapon_name: true, distance: true, name: true,
    };
    let none = slot_elements(&EntityCheck::Dead, true, false, &all);
    assert!(!none.skeleton && !none.name && !none.box_outline && !none.distance);
    let shown = slot_elements(&EntityCheck::Shown { friendly: false, visible: true }, true, false, &all);
    assert_eq!(shown, all);
}

#[test]
fn crosshair_targets() {
    let offs = CrosshairOffsets { id_ent_index: 0x1458, team: 0x3CB, health: 0x334, origin: 0x127C };
    let mut mem = std::collections::HashMap::new();
    let handle: u32 = 0x205; // block 1, slot 5
    mem.insert(0x100u64, 0x7000u64);
    mem.insert(0x7000 + 8 + 0x10, 0x9000);
    let mut trace = crosshair_list_trace(0x100, handle);
    let mut reply = None;
    let entry = loop {
        match trace_address(&mut trace, reply) {
            ReadStep::Done(a) => break a,
            ReadStep::Read(a) => reply = mem.get(&a).copied(),
        }
    };
    assert_eq!(entry, 0x9000);
    assert_eq!(crosshair_pawn_address(entry, handle), Some(0x9000 + 0x78 * 5));
    assert_eq!(crosshair_target(2, &offs, Some(handle), entry, Some(0xA000), Some(3), Some(50), true), (true, true, 0xA000));
    assert_eq!(crosshair_target(2, &offs, Some(handle), entry, Some(0xA000), Some(2), Some(50), true), (true, false, 0xA000));
    assert_eq!(crosshair_target(2, &offs, Some(handle), entry, Some(0xA000), Some(3), Some(0), true), (true, false, 0xA000));
    assert_eq!(crosshair_target(2, &offs, Some(handle), 0, Some(0xA000), Some(3), Some(50), true), (false, false, 0));
    assert_eq!(crosshair_target(2, &offs, Some(handle), entry, Some(0), Some(3), Some(50), true), (false, false, 0));
    assert_eq!(crosshair_target(2, &offs, None, entry, Some(0xA000), Some(3), Some(50), true), (false, false, 0));
    assert_eq!(crosshair_target(2, &offs, Some(handle), entry, Some(0xA000), Some(3), Some(50), false), (false, false, 0));
}
