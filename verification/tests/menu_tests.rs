use proext::config::{AimbotSettings, EspSettings, RadarSettings, Settings};
use proext::config_menu::{new_config_file, ConfigMenu};
use proext::weapon::{parse_weapon_name, weapon_display_name};
use proext::weapon::{has_weapon, parse_weapon};

#[test]
fn new_config_names() {
    assert_eq!(new_config_file(""), None);
    assert_eq!(new_config_file("legit"), Some("legit.conf.json".to_string()));
}

fn configs(list: &[(&str, bool)]) -> Vec<(String, bool)> {
    list.iter().map(|(n, ok)| (n.to_string(), *ok)).collect()
}

#[test]
fn loaded_config_falls_back_to_default() {
    let mut menu = ConfigMenu::new();
    assert!(!menu.fall_back_to_default(&configs(&[("default.conf.json", true)])));
    assert_eq!(menu.loaded, None);
    menu.load("legit.conf.json".to_string());
    assert!(!menu.fall_back_to_default(&configs(&[("legit.conf.json", true), ("default.conf.json", true)])));
    assert!(!menu.fall_back_to_default(&configs(&[("default.conf.json", false)])));
    assert_eq!(menu.loaded.as_deref(), Some("legit.conf.json"));
    assert!(menu.fall_back_to_default(&configs(&[("default.conf.json", true)])));
    assert_eq!(menu.loaded.as_deref(), Some("default.conf.json"));
}

#[test]
fn default_config_cannot_be_deleted() {
    let mut menu = ConfigMenu::new();
    assert_eq!(menu.deletable(), None);
    menu.load("legit.conf.json".to_string());
    assert_eq!(menu.deletable(), Some("legit.conf.json".to_string()));
    let mut settings = Settings::default();
    settings.esp.enabled = false;
    settings.radar.mode = 0;
    menu.reset(&mut settings);
    assert!(settings.esp.enabled);
    assert_eq!(settings.radar.mode, 2);
    assert_eq!(menu.loaded.as_deref(), Some("default.conf.json"));
    assert_eq!(menu.deletable(), None);
}

#[test]
fn exactly_firearm_names_give_firearms() {
    let firearms = [
        "ak47", "aug", "awp", "bizon", "cz75a", "deagle", "elite", "famas", "fiveseven", "g3sg1",
        "galilar", "glock", "hkp2000", "m249", "m4a1", "m4a1_silencer", "mac10", "mag7", "mp5sd",
        "mp7", "mp9", "negev", "nova", "p250", "p90", "revolver", "sawedoff", "scar20", "sg556",
        "ssg08", "tec9", "ump45", "usp_silencer", "xm1014",
    ];
    for name in firearms {
        assert!(has_weapon(parse_weapon(name.to_string()).0), "{}", name);
    }
    let others = [
        "c4", "decoy", "fists", "flashbang", "healthshot", "hegrenade", "incgrenade", "knife",
        "molotov", "smokegrenade", "taser", "", "AK47", "weapon_ak47",
    ];
    for name in others {
        assert!(!has_weapon(parse_weapon(name.to_string()).0), "{}", name);
    }
}

#[test]
fn creating_a_config() {
    let mut menu = ConfigMenu::new();
    let mut typed = "rage".to_string();
    let file = new_config_file(&typed).unwrap();
    assert!(menu.config_created(&mut typed, file.clone(), false));
    assert_eq!(typed, "rage");
    assert_eq!(menu.loaded, None);
    assert!(!menu.config_created(&mut typed, file, true));
    assert_eq!(typed, "");
    assert_eq!(menu.loaded.as_deref(), Some("rage.conf.json"));
}

#[test]
fn feature_defaults() {
    let esp = EspSettings::default();
    assert!(esp.enabled && esp.box_enabled && !esp.eye_ray_enabled && !esp.snap_line_enabled);
    assert_eq!((esp.box_mode, esp.snap_line_mode, esp.health_bar_rounding), (1, 1, 25));
    let aimbot = AimbotSettings::default();
    assert!(aimbot.enabled && aimbot.only_visible && aimbot.only_grounded);
    assert_eq!((aimbot.key, aimbot.mode, aimbot.bone), (0, 0, 1));
    let radar = RadarSettings::default();
    assert!(!radar.enabled && !radar.crossline_enabled);
    assert_eq!(radar.mode, 2);
    let all = Settings::default();
    assert!(!all.triggerbot.enabled);
    assert_eq!((all.triggerbot.tap_interval, all.triggerbot.delay), (150, 250));
    assert_eq!((all.crosshair.lines_space, all.crosshair.lines_width, all.crosshair.circle_radius), (7, 9, 5));
    assert!(!all.misc.no_flash_enabled && !all.misc.bunny_hop_enabled);
}

#[test]
fn weapon_display_names() {
    assert_eq!(parse_weapon_name("awp".to_string()), "AWP");
    assert_eq!(parse_weapon_name("nothing".to_string()), "");
    assert_eq!(weapon_display_name("weapon_AK47"), "AK-47");
    assert_eq!(weapon_display_name("WEAPON_USP_SILENCER"), "USP-S");
    assert_eq!(weapon_display_name("knife"), "Knife");
    assert_eq!(weapon_display_name("weapon_weapon_glock"), "Glock");
}
