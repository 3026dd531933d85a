use vstd::prelude::*;
use crate::weapon::WeaponType;
use crate::text::{ends_with, str_eq};

verus! {

/// An RGBA color with one channel per entry, each meant to lie in 0..=255.
pub type Color = (u32, u32, u32, u32);

/// Pauses of the background loops, in milliseconds.
#[derive(Clone, Copy, PartialEq, Eq, Structural, Debug)]
pub struct ThreadDelays {
    pub update_configs: u64,
    pub window_tasks: u64,
    pub io_tasks: u64,
    pub rpc: u64,
}

/// The default ThreadDelays value.
pub open spec fn thread_delays_defaults() -> ThreadDelays {
    ThreadDelays { update_configs: 10, window_tasks: 10, io_tasks: 1, rpc: 10 }
}

impl Default for ThreadDelays {
    fn default() -> (r: Self)
        ensures
            r == thread_delays_defaults(),
    {
        ThreadDelays { update_configs: 10, window_tasks: 10, io_tasks: 1, rpc: 10 }
    }
}

/// Pauses between automated actions, in milliseconds.
#[derive(Clone, Copy, PartialEq, Eq, Structural, Debug)]
pub struct CheatDelays {
    pub aimbot: u64,
}

/// The default CheatDelays value.
pub open spec fn cheat_delays_defaults() -> CheatDelays {
    CheatDelays { aimbot: 10 }
}

impl Default for CheatDelays {
    fn default() -> (r: Self)
        ensures
            r == cheat_delays_defaults(),
    {
        CheatDelays { aimbot: 10 }
    }
}

/// Trigger settings.
#[derive(Clone, Copy, PartialEq, Eq, Structural, Debug)]
pub struct Triggerbot {
    pub enabled: bool,
    pub key: usize,
    pub mode: usize,
    pub tap_interval: u32,
    pub always_activated: bool,
    pub delay: u32,
}

/// The default Triggerbot value.
pub open spec fn triggerbot_defaults() -> Triggerbot {
    Triggerbot {
        enabled: false,
        key: 0,
        mode: 0,
        tap_interval: 150,
        always_activated: false,
        delay: 250,
    }
}

impl Default for Triggerbot {
    fn default() -> (r: Self)
        ensures
            r == triggerbot_defaults(),
    {
        Triggerbot {
            enabled: false,
            key: 0,
            mode: 0,
            tap_interval: 150,
            always_activated: false,
            delay: 250,
        }
    }
}

/// Crosshair drawing settings.
#[derive(Clone, Copy, Debug)]
pub struct Crosshair {
    pub enabled: bool,
    pub color: Color,
    pub target_enabled: bool,
    pub target_color: Color,
    pub outline_enabled: bool,
    pub dot_enabled: bool,
    pub dot_size: u32,
    pub circle_enabled: bool,
    pub circle_radius: u32,
    pub lines_enabled: bool,
    pub lines_width: u32,
    pub lines_height: u32,
    pub lines_space: u32,
    pub lines_thickness: u32,
}

/// The default Crosshair value.
pub open spec fn crosshair_defaults() -> Crosshair {
    Crosshair {
        enabled: true,
        color: (0, 255, 0, 255),
        target_enabled: true,
        target_color: (255, 0, 0, 255),
        outline_enabled: true,
        dot_enabled: true,
        dot_size: 1,
        circle_enabled: true,
        circle_radius: 5,
        lines_enabled: true,
        lines_width: 9,
        lines_height: 9,
        lines_space: 7,
        lines_thickness: 1,
    }
}

impl Default for Crosshair {
    fn default() -> (r: Self)
        ensures
            r == crosshair_defaults(),
    {
        Crosshair {
            enabled: true,
            color: (0, 255, 0, 255),
            target_enabled: true,
            target_color: (255, 0, 0, 255),
            outline_enabled: true,
            dot_enabled: true,
            dot_size: 1,
            circle_enabled: true,
            circle_radius: 5,
            lines_enabled: true,
            lines_width: 9,
            lines_height: 9,
            lines_space: 7,
            lines_thickness: 1,
        }
    }
}

/// Miscellaneous feature settings.
#[derive(Clone, Copy, Debug)]
pub struct Misc {
    pub enabled: bool,
    pub watermark_enabled: bool,
    pub cheat_list_enabled: bool,
    pub bomb_timer_enabled: bool,
    pub bomb_timer_color_disabled: Color,
    pub bomb_timer_color_enabled: Color,
    pub spectator_list_enabled: bool,
    pub spectator_list_color: Color,
    pub exclude_team: bool,
    pub show_on_spectate: bool,
    pub bypass_capture: bool,
    pub headshot_line_enabled: bool,
    pub headshot_line_color: Color,
    pub discord_rpc_enabled: bool,
    pub no_flash_enabled: bool,
    pub bunny_hop_enabled: bool,
}

/// The default Misc value.
pub open spec fn misc_defaults() -> Misc {
    Misc {
        enabled: true,
        watermark_enabled: true,
        cheat_list_enabled: true,
        bomb_timer_enabled: false,
        bomb_timer_color_disabled: (0, 255, 255, 255),
        bomb_timer_color_enabled: (255, 0, 0, 255),
        spectator_list_enabled: false,
        spectator_list_color: (0, 255, 255, 255),
        exclude_team: true,
        show_on_spectate: true,
        bypass_capture: true,
        headshot_line_enabled: false,
        headshot_line_color: (255, 255, 255, 255),
        discord_rpc_enabled: true,
        no_flash_enabled: false,
        bunny_hop_enabled: false,
    }
}

impl Default for Misc {
    fn default() -> (r: Self)
        ensures
            r == misc_defaults(),
    {
        Misc {
            enabled: true,
            watermark_enabled: true,
            cheat_list_enabled: true,
            bomb_timer_enabled: false,
            bomb_timer_color_disabled: (0, 255, 255, 255),
            bomb_timer_color_enabled: (255, 0, 0, 255),
            spectator_list_enabled: false,
            spectator_list_color: (0, 255, 255, 255),
            exclude_team: true,
            show_on_spectate: true,
            bypass_capture: true,
            headshot_line_enabled: false,
            headshot_line_color: (255, 255, 255, 255),
            discord_rpc_enabled: true,
            no_flash_enabled: false,
            bunny_hop_enabled: false,
        }
    }
}

/// One trigger setting per weapon category.
#[derive(Clone, Copy, PartialEq, Eq, Structural, Debug)]
pub struct TriggerbotConfigs {
    pub pistol: Triggerbot,
    pub rifle: Triggerbot,
    pub submachine: Triggerbot,
    pub sniper: Triggerbot,
    pub shotgun: Triggerbot,
    pub machinegun: Triggerbot,
    pub knife: Triggerbot,
    pub other: Triggerbot,
}

/// One crosshair setting per weapon category.
#[derive(Clone, Copy, Debug)]
pub struct CrosshairConfigs {
    pub pistol: Crosshair,
    pub rifle: Crosshair,
    pub submachine: Crosshair,
    pub sniper: Crosshair,
    pub shotgun: Crosshair,
    pub machinegun: Crosshair,
    pub knife: Crosshair,
    pub other: Crosshair,
}

/// The per-category entry of `configs` that applies to `weapon_type`;
/// categories without an entry of their own use `other`.
pub open spec fn config_for<T>(
    weapon_type: WeaponType,
    pistol: T,
    rifle: T,
    submachine: T,
    sniper: T,
    shotgun: T,
    machinegun: T,
    knife: T,
    other: T,
) -> T {
    match weapon_type {
        WeaponType::Pistol => pistol,
        WeaponType::Rifle => rifle,
        WeaponType::Submachine => submachine,
        WeaponType::Sniper => sniper,
        WeaponType::Shotgun => shotgun,
        WeaponType::MachineGun => machinegun,
        WeaponType::Knife => knife,
        _ => other,
    }
}

/// The trigger setting for the held weapon's category.
pub fn get_triggerbot_config(configs: TriggerbotConfigs, weapon_type: WeaponType) -> (r: Triggerbot)
    ensures
        r == config_for(
            weapon_type,
            configs.pistol,
            configs.rifle,
            configs.submachine,
            configs.sniper,
            configs.shotgun,
            configs.machinegun,
            configs.knife,
            configs.other,
        ),
{
    match weapon_type {
        WeaponType::Pistol => configs.pistol,
        WeaponType::Rifle => configs.rifle,
        WeaponType::Submachine => configs.submachine,
        WeaponType::Sniper => configs.sniper,
        WeaponType::Shotgun => configs.shotgun,
        WeaponType::MachineGun => configs.machinegun,
        WeaponType::Knife => configs.knife,
        _ => configs.other,
    }
}

/// The crosshair setting for the held weapon's category.
pub fn get_crosshair_config(configs: CrosshairConfigs, weapon_type: WeaponType) -> (r: Crosshair)
    ensures
        r == config_for(
            weapon_type,
            configs.pistol,
            configs.rifle,
            configs.submachine,
            configs.sniper,
            configs.shotgun,
            configs.machinegun,
            configs.knife,
            configs.other,
        ),
{
    match weapon_type {
        WeaponType::Pistol => configs.pistol,
        WeaponType::Rifle => configs.rifle,
        WeaponType::Submachine => configs.submachine,
        WeaponType::Sniper => configs.sniper,
        WeaponType::Shotgun => configs.shotgun,
        WeaponType::MachineGun => configs.machinegun,
        WeaponType::Knife => configs.knife,
        _ => configs.other,
    }
}

/// ESP drawing settings: their switch, mode and color parts.
#[derive(Clone, Copy, Debug)]
pub struct EspSettings {
    pub enabled: bool,
    pub box_enabled: bool,
    pub box_color: Color,
    pub box_mode: usize,
    pub box_rounding: u32,
    pub box_target_enabled: bool,
    pub box_target_color: Color,
    pub filled_box_enabled: bool,
    pub filled_box_color: Color,
    pub skeleton_enabled: bool,
    pub skeleton_color: Color,
    pub head_enabled: bool,
    pub head_color: Color,
    pub head_mode: usize,
    pub eye_ray_enabled: bool,
    pub eye_ray_color: Color,
    pub health_bar_enabled: bool,
    pub health_bar_first_color: Color,
    pub health_bar_second_color: Color,
    pub health_bar_third_color: Color,
    pub health_bar_mode: usize,
    pub health_bar_rounding: u32,
    pub name_enabled: bool,
    pub name_color: Color,
    pub weapon_name_enabled: bool,
    pub weapon_name_color: Color,
    pub distance_enabled: bool,
    pub distance_color: Color,
    pub bomb_enabled: bool,
    pub bomb_color: Color,
    pub bomb_rounding: u32,
    pub filled_bomb_enabled: bool,
    pub filled_bomb_color: Color,
    pub snap_line_enabled: bool,
    pub snap_line_color: Color,
    pub snap_line_mode: usize,
}

/// The default ESP settings.
pub open spec fn esp_defaults() -> EspSettings {
    EspSettings {
        enabled: true,
        box_enabled: true,
        box_color: (0, 255, 255, 255),
        box_mode: 1,
        box_rounding: 5,
        box_target_enabled: true,
        box_target_color: (255, 0, 0, 255),
        filled_box_enabled: true,
        filled_box_color: (0, 255, 255, 255),
        skeleton_enabled: true,
        skeleton_color: (255, 255, 255, 255),
        head_enabled: true,
        head_color: (255, 0, 0, 255),
        head_mode: 0,
        eye_ray_enabled: false,
        eye_ray_color: (255, 0, 0, 255),
        health_bar_enabled: true,
        health_bar_first_color: (0, 255, 0, 255),
        health_bar_second_color: (255, 255, 0, 255),
        health_bar_third_color: (255, 0, 0, 255),
        health_bar_mode: 0,
        health_bar_rounding: 25,
        name_enabled: true,
        name_color: (0, 255, 255, 255),
        weapon_name_enabled: true,
        weapon_name_color: (255, 255, 255, 255),
        distance_enabled: true,
        distance_color: (255, 255, 0, 255),
        bomb_enabled: true,
        bomb_color: (0, 255, 255, 255),
        bomb_rounding: 5,
        filled_bomb_enabled: true,
        filled_bomb_color: (0, 255, 255, 255),
        snap_line_enabled: false,
        snap_line_color: (255, 255, 255, 255),
        snap_line_mode: 1,
    }
}

impl Default for EspSettings {
    fn default() -> (r: Self)
        ensures
            r == esp_defaults(),
    {
        EspSettings {
            enabled: true,
            box_enabled: true,
            box_color: (0, 255, 255, 255),
            box_mode: 1,
            box_rounding: 5,
            box_target_enabled: true,
            box_target_color: (255, 0, 0, 255),
            filled_box_enabled: true,
            filled_box_color: (0, 255, 255, 255),
            skeleton_enabled: true,
            skeleton_color: (255, 255, 255, 255),
            head_enabled: true,
            head_color: (255, 0, 0, 255),
            head_mode: 0,
            eye_ray_enabled: false,
            eye_ray_color: (255, 0, 0, 255),
            health_bar_enabled: true,
            health_bar_first_color: (0, 255, 0, 255),
            health_bar_second_color: (255, 255, 0, 255),
            health_bar_third_color: (255, 0, 0, 255),
            health_bar_mode: 0,
            health_bar_rounding: 25,
            name_enabled: true,
            name_color: (0, 255, 255, 255),
            weapon_name_enabled: true,
            weapon_name_color: (255, 255, 255, 255),
            distance_enabled: true,
            distance_color: (255, 255, 0, 255),
            bomb_enabled: true,
            bomb_color: (0, 255, 255, 255),
            bomb_rounding: 5,
            filled_bomb_enabled: true,
            filled_bomb_color: (0, 255, 255, 255),
            snap_line_enabled: false,
            snap_line_color: (255, 255, 255, 255),
            snap_line_mode: 1,
        }
    }
}

/// Aimbot settings: their switch, key, mode and color parts.
#[derive(Clone, Copy, Debug)]
pub struct AimbotSettings {
    pub enabled: bool,
    pub key: usize,
    pub mode: usize,
    pub fov_circle_enabled: bool,
    pub fov_circle_color: Color,
    pub fov_circle_target_enabled: bool,
    pub fov_circle_target_color: Color,
    pub fov_circle_outline_enabled: bool,
    pub only_visible: bool,
    pub only_grounded: bool,
    pub bone: usize,
}

/// The default aimbot settings.
pub open spec fn aimbot_defaults() -> AimbotSettings {
    AimbotSettings {
        enabled: true,
        key: 0,
        mode: 0,
        fov_circle_enabled: true,
        fov_circle_color: (0, 255, 0, 255),
        fov_circle_target_enabled: true,
        fov_circle_target_color: (255, 0, 0, 255),
        fov_circle_outline_enabled: true,
        only_visible: true,
        only_grounded: true,
        bone: 1,
    }
}

impl Default for AimbotSettings {
    fn default() -> (r: Self)
        ensures
            r == aimbot_defaults(),
    {
        AimbotSettings {
            enabled: true,
            key: 0,
            mode: 0,
            fov_circle_enabled: true,
            fov_circle_color: (0, 255, 0, 255),
            fov_circle_target_enabled: true,
            fov_circle_target_color: (255, 0, 0, 255),
            fov_circle_outline_enabled: true,
            only_visible: true,
            only_grounded: true,
            bone: 1,
        }
    }
}

/// Radar settings: their switch, mode and color parts.
#[derive(Clone, Copy, Debug)]
pub struct RadarSettings {
    pub enabled: bool,
    pub color: Color,
    pub mode: usize,
    pub crossline_enabled: bool,
    pub crossline_color: Color,
}

/// The default radar settings.
pub open spec fn radar_defaults() -> RadarSettings {
    RadarSettings {
        enabled: false,
        color: (255, 0, 0, 255),
        mode: 2,
        crossline_enabled: false,
        crossline_color: (255, 255, 255, 255),
    }
}

impl Default for RadarSettings {
    fn default() -> (r: Self)
        ensures
            r == radar_defaults(),
    {
        RadarSettings {
            enabled: false,
            color: (255, 0, 0, 255),
            mode: 2,
            crossline_enabled: false,
            crossline_color: (255, 255, 255, 255),
        }
    }
}

/// The settings of every feature, apart from their floating-point parts.
#[derive(Clone, Copy, Debug)]
pub struct Settings {
    pub esp: EspSettings,
    pub aimbot: AimbotSettings,
    pub triggerbot: Triggerbot,
    pub crosshair: Crosshair,
    pub radar: RadarSettings,
    pub misc: Misc,
}

/// The default settings of every feature.
pub open spec fn settings_defaults() -> Settings {
    Settings {
        esp: esp_defaults(),
        aimbot: aimbot_defaults(),
        triggerbot: triggerbot_defaults(),
        crosshair: crosshair_defaults(),
        radar: radar_defaults(),
        misc: misc_defaults(),
    }
}

impl Default for Settings {
    fn default() -> (r: Self)
        ensures
            r == settings_defaults(),
    {
        Settings {
            esp: EspSettings::default(),
            aimbot: AimbotSettings::default(),
            triggerbot: Triggerbot::default(),
            crosshair: Crosshair::default(),
            radar: RadarSettings::default(),
            misc: Misc::default(),
        }
    }
}

/// Whether a file name is that of a saved configuration: it ends with
/// ".conf.json".
pub open spec fn is_config_name(name: Seq<char>) -> bool {
    ".conf.json"@.len() <= name.len() && name.subrange(
        name.len() - ".conf.json"@.len(),
        name.len() as int,
    ) == ".conf.json"@
}

/// The texts of a list of strings.
pub open spec fn names_view(names: Seq<String>) -> Seq<Seq<char>> {
    names.map_values(|s: String| s@)
}

/// Whether a file name is that of a saved configuration.
pub fn is_config_file(name: &str) -> (r: bool)
    ensures
        r == is_config_name(name@),
{
    ends_with(name, ".conf.json")
}

/// The saved configurations among the file names of the configuration
/// directory, in the order given.
pub fn config_file_names(file_names: &[String]) -> (r: Vec<String>)
    ensures
        names_view(r@) == names_view(file_names@).filter(|n: Seq<char>| is_config_name(n)),
{
    let mut out: Vec<String> = Vec::new();
    let mut i: usize = 0;
    while i < file_names.len()
        invariant
            i <= file_names@.len(),
            names_view(out@) == names_view(file_names@.take(i as int)).filter(
                |n: Seq<char>| is_config_name(n),
            ),
        decreases file_names@.len() - i,
    {
        let name = &file_names[i];
        let keep = is_config_file(name.as_str());
        let ghost before = out@;
        if keep {
            out.push(name.clone());
        }
        proof {
            let pred = |n: Seq<char>| is_config_name(n);
            let prefix = names_view(file_names@.take(i as int + 1));
            assert(prefix.drop_last() =~= names_view(file_names@.take(i as int)));
            assert(prefix.last() == file_names@[i as int]@);
            reveal(Seq::filter);
            assert(prefix.filter(pred) == if pred(prefix.last()) {
                prefix.drop_last().filter(pred).push(prefix.last())
            } else {
                prefix.drop_last().filter(pred)
            });
            assert(names_view(out@) =~= prefix.filter(pred));
        }
        i = i + 1;
    }
    assert(file_names@.take(file_names@.len() as int) =~= file_names@);
    out
}

/// Whether the default configuration is among the saved ones.
pub fn has_default_config(configs: &[String]) -> (r: bool)
    ensures
        r == names_view(configs@).contains("default.conf.json"@),
{
    let mut i: usize = 0;
    while i < configs.len()
        invariant
            i <= configs@.len(),
            forall|j: int| 0 <= j < i ==> configs@[j]@ != "default.conf.json"@,
        decreases configs@.len() - i,
    {
        if str_eq(configs[i].as_str(), "default.conf.json") {
            assert(names_view(configs@)[i as int] == "default.conf.json"@);
            return true;
        }
        i = i + 1;
    }
    proof {
        if names_view(configs@).contains("default.conf.json"@) {
            let k = choose|k: int| 0 <= k < names_view(configs@).len() && names_view(configs@)[k] == "default.conf.json"@;
            assert(configs@[k]@ == "default.conf.json"@);
        }
    }
    false
}

} // verus!
