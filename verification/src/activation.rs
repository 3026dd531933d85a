use vstd::prelude::*;
use crate::entity::{Entity, mask_has};

verus! {

/// How a feature is switched on: enabled at all, active without its key,
/// and restricted to moments when a firearm is held.
#[derive(Clone, Copy, PartialEq, Eq, Structural, Debug)]
pub struct Activation {
    pub enabled: bool,
    pub always: bool,
    pub only_weapon: bool,
}

/// The activation switches of every feature.
#[derive(Clone, Copy, PartialEq, Eq, Structural, Debug)]
pub struct ActivationConfig {
    pub aimbot: Activation,
    pub triggerbot: Activation,
    pub rcs: Activation,
    pub esp: Activation,
    pub crosshair: Activation,
    pub radar: Activation,
}

/// One flag per feature: whether it is active (or, as an input, whether its
/// key toggle is on).
#[derive(Clone, Copy, PartialEq, Eq, Structural, Debug)]
pub struct FeatureToggles {
    pub aimbot: bool,
    pub triggerbot: bool,
    pub rcs: bool,
    pub esp: bool,
    pub crosshair: bool,
    pub radar: bool,
}

/// Which features are active this frame. Aimbot, triggerbot and recoil
/// control need the local pawn and the game window in focus; aimbot,
/// triggerbot and crosshair can be limited to moments a firearm is held (the
/// crosshair also shows without a pawn); each feature is then active when
/// always on or when its key toggle is on.
pub open spec fn active_features(
    config: ActivationConfig,
    no_pawn: bool,
    no_weapon: bool,
    focused: bool,
    keys: FeatureToggles,
) -> FeatureToggles {
    FeatureToggles {
        aimbot: !no_pawn && config.aimbot.enabled && focused && (!config.aimbot.only_weapon
            || !no_weapon) && (config.aimbot.always || keys.aimbot),
        triggerbot: !no_pawn && config.triggerbot.enabled && focused && (
        !config.triggerbot.only_weapon || !no_weapon) && (config.triggerbot.always
            || keys.triggerbot),
        rcs: !no_pawn && config.rcs.enabled && focused && (config.rcs.always || keys.rcs),
        esp: config.esp.enabled && (config.esp.always || keys.esp),
        crosshair: config.crosshair.enabled && (!config.crosshair.only_weapon || no_pawn
            || !no_weapon) && (config.crosshair.always || keys.crosshair),
        radar: config.radar.enabled && (config.radar.always || keys.radar),
    }
}

/// Which features are active this frame; `keys` holds the state of each
/// feature's key toggle.
pub fn feature_toggles(
    config: &ActivationConfig,
    no_pawn: bool,
    no_weapon: bool,
    focused: bool,
    keys: &FeatureToggles,
) -> (r: FeatureToggles)
    ensures
        r == active_features(*config, no_pawn, no_weapon, focused, *keys),
{
    FeatureToggles {
        aimbot: !no_pawn && config.aimbot.enabled && focused && (!config.aimbot.only_weapon
            || !no_weapon) && (config.aimbot.always || keys.aimbot),
        triggerbot: !no_pawn && config.triggerbot.enabled && focused && (
        !config.triggerbot.only_weapon || !no_weapon) && (config.triggerbot.always
            || keys.triggerbot),
        rcs: !no_pawn && config.rcs.enabled && focused && (config.rcs.always || keys.rcs),
        esp: config.esp.enabled && (config.esp.always || keys.esp),
        crosshair: config.crosshair.enabled && (!config.crosshair.only_weapon || no_pawn
            || !no_weapon) && (config.crosshair.always || keys.crosshair),
        radar: config.radar.enabled && (config.radar.always || keys.radar),
    }
}

/// A disabled feature is never active, and the features that act through
/// the local pawn are off without it or without focus on the game window.
pub proof fn disabled_features_stay_off(
    config: ActivationConfig,
    no_pawn: bool,
    no_weapon: bool,
    focused: bool,
    keys: FeatureToggles,
)
    ensures
        ({
            let r = active_features(config, no_pawn, no_weapon, focused, keys);
            &&& (!config.aimbot.enabled ==> !r.aimbot)
            &&& (!config.triggerbot.enabled ==> !r.triggerbot)
            &&& (!config.rcs.enabled ==> !r.rcs)
            &&& (!config.esp.enabled ==> !r.esp)
            &&& (!config.crosshair.enabled ==> !r.crosshair)
            &&& (!config.radar.enabled ==> !r.radar)
            &&& (no_pawn || !focused ==> !r.aimbot && !r.triggerbot && !r.rcs)
        }),
{
}

/// One capture-hiding check: whether the overlay is hidden from screen
/// capture afterwards, and the change to make (hide or show), if any.
pub open spec fn capture_step(hidden: bool, settings_enabled: bool, bypass_capture: bool) -> (
    bool,
    Option<bool>,
) {
    let wanted = settings_enabled && bypass_capture;
    (wanted, if hidden == wanted { None } else { Some(wanted) })
}

/// Keeps the overlay's hiding from screen capture in line with the
/// settings: `hidden` says whether it is hidden now; the result is the
/// change to make (hide or show), if any.
pub fn capture_hiding(hidden: &mut bool, settings_enabled: bool, bypass_capture: bool) -> (r: Option<bool>)
    ensures
        (*final(hidden), r) == capture_step(*old(hidden), settings_enabled, bypass_capture),
{
    let wanted = settings_enabled && bypass_capture;
    if !*hidden && wanted {
        *hidden = true;
        Some(true)
    } else if *hidden && !wanted {
        *hidden = false;
        Some(false)
    } else {
        None
    }
}

/// After one check the hiding matches the settings, so a second check with
/// the same settings changes nothing.
pub proof fn capture_hiding_settles(hidden: bool, settings_enabled: bool, bypass_capture: bool)
    ensures
        capture_step(capture_step(hidden, settings_enabled, bypass_capture).0, settings_enabled, bypass_capture)
            == (capture_step(hidden, settings_enabled, bypass_capture).0, None::<bool>),
{
}

/// Offset of player slot `i` in the entity list entry: slot 0 is skipped,
/// 0x78 bytes per slot; `None` when that overflows.
pub fn entity_slot_offset(i: u64) -> (r: Option<u64>)
    ensures
        r == (if (i + 1) * 0x78 <= u64::MAX { Some(((i + 1) * 0x78) as u64) } else { None }),
{
    if i >= u64::MAX / 0x78 {
        None
    } else {
        Some((i + 1) * 0x78)
    }
}

/// What the entity loop does with one player slot.
#[derive(Clone, Copy, PartialEq, Eq, Structural, Debug)]
pub enum EntityCheck {
    /// The slot is the local player's own controller.
    LocalPlayer,
    /// The player's controller or pawn could not be read.
    Unreadable,
    /// A teammate, while teammates are left out.
    ExcludedTeammate,
    /// The player is dead.
    Dead,
    /// The player is shown, as a teammate or not, visible or not.
    Shown { friendly: bool, visible: bool },
}

/// The verdict on player slot `i` whose controller sits at
/// `entity_address`, once its controller and pawn were read (`updated`
/// says whether both reads succeeded): the local player's own slot is
/// skipped, then unreadable players, excluded teammates and dead players;
/// the others are shown, teammates always as visible, enemies as visible
/// when either has spotted the other.
pub open spec fn entity_verdict(
    i: u64,
    entity_address: u64,
    updated: bool,
    exclude_team: bool,
    entity: Entity,
    local: Entity,
    local_index: u64,
) -> EntityCheck {
    if entity_address == local.controller.address {
        EntityCheck::LocalPlayer
    } else if !updated {
        EntityCheck::Unreadable
    } else if exclude_team && entity.controller.team_id == local.controller.team_id {
        EntityCheck::ExcludedTeammate
    } else if !(entity.controller.alive_status == 1 && entity.pawn.health > 0) {
        EntityCheck::Dead
    } else {
        let friendly = entity.controller.team_id == local.controller.team_id;
        EntityCheck::Shown {
            friendly,
            visible: friendly || mask_has(entity.pawn.spotted_by_mask, local_index) || mask_has(
                local.pawn.spotted_by_mask,
                i,
            ),
        }
    }
}

/// The verdict on one player slot of the entity loop.
pub fn check_entity(
    i: u64,
    entity_address: u64,
    updated: bool,
    exclude_team: bool,
    entity: &Entity,
    local: &Entity,
    local_index: u64,
) -> (r: EntityCheck)
    requires
        i < 64,
        local_index < 64,
    ensures
        r == entity_verdict(i, entity_address, updated, exclude_team, *entity, *local, local_index),
{
    if entity_address == local.controller.address {
        return EntityCheck::LocalPlayer;
    }
    if !updated {
        return EntityCheck::Unreadable;
    }
    let friendly = entity.controller.team_id == local.controller.team_id;
    if exclude_team && friendly {
        return EntityCheck::ExcludedTeammate;
    }
    if !entity.is_alive() {
        return EntityCheck::Dead;
    }
    let visible = if friendly {
        true
    } else {
        crate::entity::is_enemy_visible(
            entity.pawn.spotted_by_mask,
            local.pawn.spotted_by_mask,
            local_index,
            i,
        )
    };
    EntityCheck::Shown { friendly, visible }
}

/// Which ESP elements are switched on in the settings.
#[derive(Clone, Copy, PartialEq, Eq, Structural, Debug)]
pub struct EspSwitches {
    pub skeleton: bool,
    pub head: bool,
    pub eye_ray: bool,
    pub snap_line: bool,
    pub box_outline: bool,
    pub health_bar: bool,
    pub armor_bar: bool,
    pub ammo_bar: bool,
    pub weapon_name: bool,
    pub distance: bool,
    pub name: bool,
}

/// The ESP elements drawn for a shown player: each element switched on,
/// while ESP is active; the distance also needs the local pawn.
pub open spec fn esp_drawn(esp_active: bool, no_pawn: bool, switches: EspSwitches) -> EspSwitches {
    EspSwitches {
        skeleton: esp_active && switches.skeleton,
        head: esp_active && switches.head,
        eye_ray: esp_active && switches.eye_ray,
        snap_line: esp_active && switches.snap_line,
        box_outline: esp_active && switches.box_outline,
        health_bar: esp_active && switches.health_bar,
        armor_bar: esp_active && switches.armor_bar,
        ammo_bar: esp_active && switches.ammo_bar,
        weapon_name: esp_active && switches.weapon_name,
        distance: !no_pawn && esp_active && switches.distance,
        name: esp_active && switches.name,
    }
}

/// The ESP elements to draw for a shown player.
pub fn esp_elements(esp_active: bool, no_pawn: bool, switches: &EspSwitches) -> (r: EspSwitches)
    ensures
        r == esp_drawn(esp_active, no_pawn, *switches),
{
    EspSwitches {
        skeleton: esp_active && switches.skeleton,
        head: esp_active && switches.head,
        eye_ray: esp_active && switches.eye_ray,
        snap_line: esp_active && switches.snap_line,
        box_outline: esp_active && switches.box_outline,
        health_bar: esp_active && switches.health_bar,
        armor_bar: esp_active && switches.armor_bar,
        ammo_bar: esp_active && switches.ammo_bar,
        weapon_name: esp_active && switches.weapon_name,
        distance: !no_pawn && esp_active && switches.distance,
        name: esp_active && switches.name,
    }
}

/// The overlay's switches outside the per-feature ones.
#[derive(Clone, Copy, PartialEq, Eq, Structural, Debug)]
pub struct OverlaySwitches {
    pub misc_enabled: bool,
    pub watermark: bool,
    pub cheat_list: bool,
    pub bomb_timer: bool,
    pub spectator_list: bool,
    pub bomb_esp: bool,
    pub settings_enabled: bool,
    pub exclude_team: bool,
}

/// What one frame of the overlay shows and reads, apart from the players.
#[derive(Clone, Copy, PartialEq, Eq, Structural, Debug)]
pub struct FramePlan {
    pub watermark: bool,
    pub cheat_list: bool,
    pub bomb_timer: bool,
    pub spectator_list: bool,
    /// Whether the bomb is read this frame.
    pub read_bomb: bool,
    /// Whether players of the local team are left out.
    pub exclude_team: bool,
}

/// The frame plan: the small windows show when the miscellaneous features
/// are on and their own switch is on; the bomb is read when there is a local
/// pawn and either bomb ESP or the bomb timer wants it; teammates are left
/// out when the settings say so.
pub open spec fn frame_plan(switches: OverlaySwitches, no_pawn: bool) -> FramePlan {
    FramePlan {
        watermark: switches.misc_enabled && switches.watermark,
        cheat_list: switches.misc_enabled && switches.cheat_list,
        bomb_timer: switches.misc_enabled && switches.bomb_timer,
        spectator_list: switches.misc_enabled && switches.spectator_list,
        read_bomb: !no_pawn && (switches.bomb_esp || (switches.misc_enabled && switches.bomb_timer)),
        exclude_team: switches.settings_enabled && switches.exclude_team,
    }
}

/// What this frame shows and reads.
pub fn plan_frame(switches: &OverlaySwitches, no_pawn: bool) -> (r: FramePlan)
    ensures
        r == frame_plan(*switches, no_pawn),
{
    FramePlan {
        watermark: switches.misc_enabled && switches.watermark,
        cheat_list: switches.misc_enabled && switches.cheat_list,
        bomb_timer: switches.misc_enabled && switches.bomb_timer,
        spectator_list: switches.misc_enabled && switches.spectator_list,
        read_bomb: !no_pawn && (switches.bomb_esp || (switches.misc_enabled
            && switches.bomb_timer)),
        exclude_team: switches.settings_enabled && switches.exclude_team,
    }
}

/// How the frame goes on once the local pawn was (or was not) read: with
/// the pawn the frame goes on normally; without it, the frame goes on
/// without the pawn only when spectating is to be shown, and otherwise the
/// overlay's elements are cleared and the frame ends (`None`).
pub fn pawn_outcome(pawn_updated: bool, settings_enabled: bool, show_on_spectate: bool) -> (r: Option<bool>)
    ensures
        r == (if pawn_updated {
            Some(false)
        } else if settings_enabled && show_on_spectate {
            Some(true)
        } else {
            None::<bool>
        }),
{
    if pawn_updated {
        Some(false)
    } else if settings_enabled && show_on_spectate {
        Some(true)
    } else {
        None
    }
}

/// Which features act this frame, once their targets are known.
#[derive(Clone, Copy, PartialEq, Eq, Structural, Debug)]
pub struct Acting {
    pub aimbot: bool,
    pub triggerbot: bool,
    pub rcs: bool,
    /// Whether recoil control runs on its own (it does not while the aimbot
    /// acts).
    pub run_rcs: bool,
}

/// What the frame found to act on: an aimbot target (entity and position)
/// with a usable aim angle; whether an enemy is under the crosshair that may
/// be shot, its entity address and whether its position is known; and
/// whether a recoil correction is known.
#[derive(Clone, Copy, PartialEq, Eq, Structural, Debug)]
pub struct FrameTargets {
    pub aim_target: bool,
    pub aim_angle: bool,
    pub enemy_at_crosshair: bool,
    pub allow_shoot: bool,
    pub crosshair_entity: u64,
    pub crosshair_position: bool,
    pub recoil: bool,
}

/// The aimbot acts when active with a target and an aim angle; the
/// triggerbot when active with a shootable enemy (nonzero entity, known
/// position) under the crosshair; recoil control when active with a known
/// correction, on its own only while the aimbot does not act.
pub open spec fn acting_now(active: FeatureToggles, targets: FrameTargets) -> Acting {
    let aimbot = active.aimbot && targets.aim_target && targets.aim_angle;
    let rcs = active.rcs && targets.recoil;
    Acting {
        aimbot,
        triggerbot: active.triggerbot && targets.enemy_at_crosshair && targets.allow_shoot
            && targets.crosshair_entity != 0 && targets.crosshair_position,
        rcs,
        run_rcs: rcs && !aimbot,
    }
}

/// Which features act this frame.
pub fn acting_features(active: &FeatureToggles, targets: &FrameTargets) -> (r: Acting)
    ensures
        r == acting_now(*active, *targets),
{
    let aimbot = active.aimbot && targets.aim_target && targets.aim_angle;
    let rcs = active.rcs && targets.recoil;
    Acting {
        aimbot,
        triggerbot: active.triggerbot && targets.enemy_at_crosshair && targets.allow_shoot
            && targets.crosshair_entity != 0 && targets.crosshair_position,
        rcs,
        run_rcs: rcs && !aimbot,
    }
}

/// Recoil control never runs on its own while the aimbot acts, and no
/// feature acts unless it is active.
pub proof fn aimbot_takes_over_recoil(active: FeatureToggles, targets: FrameTargets)
    ensures
        ({
            let a = acting_now(active, targets);
            &&& !(a.aimbot && a.run_rcs)
            &&& (a.aimbot ==> active.aimbot)
            &&& (a.triggerbot ==> active.triggerbot)
            &&& (a.rcs ==> active.rcs)
        }),
{
}

/// No ESP element.
pub open spec fn no_esp() -> EspSwitches {
    EspSwitches {
        skeleton: false,
        head: false,
        eye_ray: false,
        snap_line: false,
        box_outline: false,
        health_bar: false,
        armor_bar: false,
        ammo_bar: false,
        weapon_name: false,
        distance: false,
        name: false,
    }
}

/// The ESP elements kept for a player slot after the entity check: those
/// drawn for a shown player, and none at all for a slot that is skipped.
pub open spec fn slot_drawn(verdict: EntityCheck, esp_active: bool, no_pawn: bool, switches: EspSwitches) -> EspSwitches {
    match verdict {
        EntityCheck::Shown { .. } => esp_drawn(esp_active, no_pawn, switches),
        _ => no_esp(),
    }
}

/// The ESP elements kept for a player slot; every other element of the
/// slot is removed.
pub fn slot_elements(verdict: &EntityCheck, esp_active: bool, no_pawn: bool, switches: &EspSwitches) -> (r: EspSwitches)
    ensures
        r == slot_drawn(*verdict, esp_active, no_pawn, *switches),
{
    match verdict {
        EntityCheck::Shown { .. } => esp_elements(esp_active, no_pawn, switches),
        _ => EspSwitches {
            skeleton: false,
            head: false,
            eye_ray: false,
            snap_line: false,
            box_outline: false,
            health_bar: false,
            armor_bar: false,
            ammo_bar: false,
            weapon_name: false,
            distance: false,
            name: false,
        },
    }
}

/// A skipped slot keeps no ESP drawing: whatever the settings, a slot that
/// is the local player, unreadable, an excluded teammate or dead has none.
pub proof fn skipped_slot_keeps_no_esp(
    i: u64,
    entity_address: u64,
    updated: bool,
    exclude_team: bool,
    entity: Entity,
    local: Entity,
    local_index: u64,
    esp_active: bool,
    no_pawn: bool,
    switches: EspSwitches,
)
    ensures
        !(entity_verdict(i, entity_address, updated, exclude_team, entity, local, local_index) is Shown)
            ==> slot_drawn(
            entity_verdict(i, entity_address, updated, exclude_team, entity, local, local_index),
            esp_active,
            no_pawn,
            switches,
        ) == no_esp(),
{
}

/// A feature that is enabled turns on when it is always on or its key
/// toggle is on, as long as its other conditions hold: the local pawn and
/// focus for aimbot, triggerbot and recoil control, a firearm for those
/// limited to one. And a feature that is on is enabled and either always on
/// or toggled by its key.
pub proof fn enabled_features_turn_on(
    config: ActivationConfig,
    no_pawn: bool,
    no_weapon: bool,
    focused: bool,
    keys: FeatureToggles,
)
    ensures
        ({
            let r = active_features(config, no_pawn, no_weapon, focused, keys);
            &&& (config.esp.enabled && (config.esp.always || keys.esp) ==> r.esp)
            &&& (config.radar.enabled && (config.radar.always || keys.radar) ==> r.radar)
            &&& (config.crosshair.enabled && (config.crosshair.always || keys.crosshair) && (
            !config.crosshair.only_weapon || no_pawn || !no_weapon) ==> r.crosshair)
            &&& (!no_pawn && focused && config.rcs.enabled && (config.rcs.always || keys.rcs)
                ==> r.rcs)
            &&& (!no_pawn && focused && config.aimbot.enabled && (config.aimbot.always
                || keys.aimbot) && (!config.aimbot.only_weapon || !no_weapon) ==> r.aimbot)
            &&& (!no_pawn && focused && config.triggerbot.enabled && (config.triggerbot.always
                || keys.triggerbot) && (!config.triggerbot.only_weapon || !no_weapon)
                ==> r.triggerbot)
            &&& (r.esp ==> config.esp.enabled && (config.esp.always || keys.esp))
            &&& (r.radar ==> config.radar.enabled && (config.radar.always || keys.radar))
            &&& (r.crosshair ==> config.crosshair.enabled && (config.crosshair.always
                || keys.crosshair))
            &&& (r.rcs ==> config.rcs.always || keys.rcs)
            &&& (r.aimbot ==> (config.aimbot.always || keys.aimbot) && (
            !config.aimbot.only_weapon || !no_weapon))
            &&& (r.triggerbot ==> (config.triggerbot.always || keys.triggerbot) && (
            !config.triggerbot.only_weapon || !no_weapon))
        }),
{
}

/// The triggerbot acts exactly when it is active and a shootable enemy
/// (another team, alive) is under the crosshair at a known, nonzero
/// address and position; the aimbot acts exactly when active with a target
/// and an aim angle.
pub proof fn trigger_acts_only_on_shootable(active: FeatureToggles, targets: FrameTargets)
    ensures
        acting_now(active, targets).triggerbot ==> targets.allow_shoot && targets.enemy_at_crosshair
            && targets.crosshair_entity != 0 && targets.crosshair_position,
        active.triggerbot && targets.enemy_at_crosshair && targets.allow_shoot
            && targets.crosshair_entity != 0 && targets.crosshair_position ==> acting_now(
            active,
            targets,
        ).triggerbot,
        acting_now(active, targets).aimbot <==> (active.aimbot && targets.aim_target
            && targets.aim_angle),
        acting_now(active, targets).rcs <==> (active.rcs && targets.recoil),
{
}

/// A shown enemy is visible exactly when it has spotted the local player
/// (bit `local_index` of its mask) or the local player has spotted it (bit
/// `i` of the local mask); a shown teammate is always visible.
pub proof fn shown_visibility_uses_both_masks(
    i: u64,
    entity_address: u64,
    updated: bool,
    exclude_team: bool,
    entity: Entity,
    local: Entity,
    local_index: u64,
)
    ensures
        match entity_verdict(i, entity_address, updated, exclude_team, entity, local, local_index) {
            EntityCheck::Shown { friendly, visible } => {
                &&& friendly == (entity.controller.team_id == local.controller.team_id)
                &&& (friendly ==> visible)
                &&& (!friendly ==> (visible <==> ((entity.pawn.spotted_by_mask >> local_index) % 2
                    == 1 || (local.pawn.spotted_by_mask >> i) % 2 == 1)))
                &&& entity.controller.alive_status == 1 && entity.pawn.health > 0
                &&& entity_address != local.controller.address && updated
            },
            _ => true,
        },
        updated && entity_address != local.controller.address && !(exclude_team
            && entity.controller.team_id == local.controller.team_id)
            && entity.controller.alive_status == 1 && entity.pawn.health > 0 ==> entity_verdict(
            i,
            entity_address,
            updated,
            exclude_team,
            entity,
            local,
            local_index,
        ) is Shown,
{
}

/// The bomb is read whenever there is a local pawn and bomb ESP is on, or
/// the bomb timer is shown; never without a local pawn. Each small window
/// shows only when the miscellaneous features are on and it is switched on.
pub proof fn bomb_read_when_wanted(switches: OverlaySwitches, no_pawn: bool)
    ensures
        ({
            let p = frame_plan(switches, no_pawn);
            &&& (!no_pawn && switches.bomb_esp ==> p.read_bomb)
            &&& (!no_pawn && p.bomb_timer ==> p.read_bomb)
            &&& (p.read_bomb ==> !no_pawn && (switches.bomb_esp || p.bomb_timer))
            &&& (p.watermark <==> switches.misc_enabled && switches.watermark)
            &&& (p.cheat_list <==> switches.misc_enabled && switches.cheat_list)
            &&& (p.bomb_timer <==> switches.misc_enabled && switches.bomb_timer)
            &&& (p.spectator_list <==> switches.misc_enabled && switches.spectator_list)
            &&& (p.exclude_team <==> switches.settings_enabled && switches.exclude_team)
        }),
{
}

/// While ESP is active every element switched on is drawn, the distance
/// only with a local pawn; while it is not active nothing is drawn; and an
/// element switched off is never drawn.
pub proof fn esp_draws_switched_elements(esp_active: bool, no_pawn: bool, switches: EspSwitches)
    ensures
        ({
            let d = esp_drawn(esp_active, no_pawn, switches);
            &&& (d.skeleton <==> esp_active && switches.skeleton)
            &&& (d.head <==> esp_active && switches.head)
            &&& (d.eye_ray <==> esp_active && switches.eye_ray)
            &&& (d.snap_line <==> esp_active && switches.snap_line)
            &&& (d.box_outline <==> esp_active && switches.box_outline)
            &&& (d.health_bar <==> esp_active && switches.health_bar)
            &&& (d.armor_bar <==> esp_active && switches.armor_bar)
            &&& (d.ammo_bar <==> esp_active && switches.ammo_bar)
            &&& (d.weapon_name <==> esp_active && switches.weapon_name)
            &&& (d.distance <==> esp_active && switches.distance && !no_pawn)
            &&& (d.name <==> esp_active && switches.name)
        }),
{
}

/// After a capture-hiding check the overlay is hidden exactly when the
/// settings ask for it, and a change is reported exactly when that differs
/// from before, naming the new state.
pub proof fn capture_hiding_follows_settings(hidden: bool, settings_enabled: bool, bypass_capture: bool)
    ensures
        ({
            let (now, change) = capture_step(hidden, settings_enabled, bypass_capture);
            &&& now == (settings_enabled && bypass_capture)
            &&& (change is Some <==> hidden != now)
            &&& (change matches Some(c) ==> c == now)
        }),
{
}

} // verus!
