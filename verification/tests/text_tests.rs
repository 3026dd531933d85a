use proext::bone::{aim_position_to_bone_index, bone_joint_list, trunk, BoneIndex};
use proext::clock::{format_time, get_current_time};
use proext::config::{
    config_file_names, get_crosshair_config, get_triggerbot_config, has_default_config,
    is_config_file, CheatDelays, Crosshair, CrosshairConfigs, ThreadDelays, Triggerbot,
    TriggerbotConfigs,
};
use proext::hash::{lower_hex, md5_hex};
use proext::text::{buffer_to_string, ends_with, str_eq};
use proext::weapon::{has_weapon, parse_weapon, WeaponType};

#[test]
fn buffer_to_string_stops_at_nul() {
    assert_eq!(buffer_to_string(b"ak47\0junk"), "ak47");
    assert_eq!(buffer_to_string(b"full"), "full");
    assert_eq!(buffer_to_string(b"\0abc"), "");
    assert_eq!(buffer_to_string(b""), "");
}

#[test]
fn buffer_to_string_replaces_invalid_utf8() {
    assert_eq!(buffer_to_string(&[0x61, 0xFF, 0x62, 0]), "a\u{FFFD}b");
    assert_eq!(buffer_to_string("héllo".as_bytes()), "héllo");
    assert!(!buffer_to_string(&[0xC0, 0x80, 0xFF, 0x00, 0x41]).contains('\0'));
    assert_eq!(buffer_to_string(&[0xC0, 0x80, 0x00, 0x41]), "\u{FFFD}\u{FFFD}");
}

#[test]
fn string_helpers() {
    assert!(str_eq("abc", "abc"));
    assert!(!str_eq("abc", "abd"));
    assert!(ends_with("default.conf.json", ".conf.json"));
    assert!(!ends_with(".json", ".conf.json"));
}

#[test]
fn clock_text() {
    assert_eq!(format_time(None), "00:00:00");
    assert_eq!(format_time(Some(0)), "00:00:00");
    assert_eq!(format_time(Some(3661)), "01:01:01");
    assert_eq!(format_time(Some(86399)), "23:59:59");
    assert_eq!(format_time(Some(86400 + 45296)), "12:34:56");
    assert_eq!(format_time(Some(1_700_000_000)), "22:13:20");
}

#[test]
fn current_time_shape() {
    let t = get_current_time();
    assert_eq!(t.len(), 8);
    assert_eq!(&t[2..3], ":");
    assert_eq!(&t[5..6], ":");
}

#[test]
fn md5_digests() {
    assert_eq!(md5_hex(b""), "d41d8cd98f00b204e9800998ecf8427e");
    assert_eq!(md5_hex(b"abc"), "900150983cd24fb0d6963f7d28e17f72");
    assert_eq!(lower_hex(&[0x00, 0x0f, 0xa5, 0xff]), "000fa5ff");
}

#[test]
fn config_files() {
    assert!(is_config_file("default.conf.json"));
    assert!(!is_config_file("default.json"));
    let names = vec![
        "a.conf.json".to_string(),
        "notes.txt".to_string(),
        "default.conf.json".to_string(),
        ".conf.json".to_string(),
    ];
    let configs = config_file_names(&names);
    assert_eq!(configs, vec!["a.conf.json", "default.conf.json", ".conf.json"]);
    assert!(has_default_config(&configs));
    assert!(!has_default_config(&configs[..1]));
}

#[test]
fn default_delays() {
    let t = ThreadDelays::default();
    assert_eq!((t.update_configs, t.window_tasks, t.io_tasks, t.rpc), (10, 10, 1, 10));
    assert_eq!(CheatDelays::default().aimbot, 10);
}

#[test]
fn per_weapon_configs() {
    let base = Triggerbot::default();
    let with_delay = |delay| Triggerbot { delay, ..base };
    let configs = TriggerbotConfigs {
        pistol: with_delay(1),
        rifle: with_delay(2),
        submachine: with_delay(3),
        sniper: with_delay(4),
        shotgun: with_delay(5),
        machinegun: with_delay(6),
        knife: with_delay(7),
        other: with_delay(8),
    };
    assert_eq!(get_triggerbot_config(configs, WeaponType::Sniper).delay, 4);
    assert_eq!(get_triggerbot_config(configs, WeaponType::Knife).delay, 7);
    assert_eq!(get_triggerbot_config(configs, WeaponType::Grenade).delay, 8);
    assert_eq!(get_triggerbot_config(configs, WeaponType::NoWeapon).delay, 8);
    let c = Crosshair::default();
    let sized = |dot_size| Crosshair { dot_size, ..c };
    let cc = CrosshairConfigs {
        pistol: sized(1),
        rifle: sized(2),
        submachine: sized(3),
        sniper: sized(4),
        shotgun: sized(5),
        machinegun: sized(6),
        knife: sized(7),
        other: sized(8),
    };
    assert_eq!(get_crosshair_config(cc, WeaponType::Rifle).dot_size, 2);
    assert_eq!(get_crosshair_config(cc, WeaponType::Bomb).dot_size, 8);
    assert_eq!(base.delay, 250);
    assert_eq!(base.tap_interval, 150);
}

#[test]
fn weapons() {
    assert_eq!(parse_weapon("ak47".to_string()), (WeaponType::Rifle, "AK-47"));
    assert_eq!(parse_weapon("m4a1_silencer".to_string()), (WeaponType::Rifle, "M4A1-S"));
    assert_eq!(parse_weapon("taser".to_string()), (WeaponType::Equipment, "Zeus x27"));
    assert_eq!(parse_weapon("xm1014".to_string()), (WeaponType::Shotgun, "XM1014"));
    assert_eq!(parse_weapon("unknown".to_string()), (WeaponType::Other, ""));
    assert!(has_weapon(WeaponType::Pistol));
    assert!(has_weapon(WeaponType::MachineGun));
    assert!(!has_weapon(WeaponType::Knife));
    assert!(!has_weapon(WeaponType::NoWeapon));
}

#[test]
fn bones() {
    assert_eq!(aim_position_to_bone_index(0), 6);
    assert_eq!(aim_position_to_bone_index(1), 5);
    assert_eq!(aim_position_to_bone_index(2), 4);
    assert_eq!(aim_position_to_bone_index(9), 6);
    assert_eq!(BoneIndex::Pelvis.index(), 0);
    assert_eq!(trunk(), [BoneIndex::Head, BoneIndex::Neck0, BoneIndex::Spine2, BoneIndex::Pelvis]);
    assert_eq!(bone_joint_list()[0], trunk());
}
