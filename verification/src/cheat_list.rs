use vstd::prelude::*;

verus! {

/// A feature the cheat list can show.
#[derive(Clone, Copy, PartialEq, Eq, Structural, Debug)]
pub enum CheatFeature {
    Esp,
    Rcs,
    Aimbot,
    Triggerbot,
    Crosshair,
    Radar,
}

/// How a feature is switched: on or off, active without a key (`always`),
/// and the hotkey index it is bound to otherwise.
#[derive(Clone, Copy, PartialEq, Eq, Structural, Debug)]
pub struct FeatureSwitch {
    pub enabled: bool,
    pub always: bool,
    pub key: usize,
}

/// The general settings the cheat list reports.
#[derive(Clone, Copy, PartialEq, Eq, Structural, Debug)]
pub struct SettingsSwitch {
    pub enabled: bool,
    pub bypass_capture: bool,
    pub exclude_team: bool,
}

/// The switches the cheat list reads from the configuration.
#[derive(Clone, Copy, PartialEq, Eq, Structural, Debug)]
pub struct CheatListConfig {
    pub esp: FeatureSwitch,
    pub rcs: FeatureSwitch,
    pub aimbot: FeatureSwitch,
    pub triggerbot: FeatureSwitch,
    pub crosshair: FeatureSwitch,
    pub radar: FeatureSwitch,
    pub settings: SettingsSwitch,
}

/// One line of the cheat list.
#[derive(Clone, Copy, PartialEq, Eq, Structural, Debug)]
pub enum CheatListLine {
    /// A feature that is on, with its hotkey unless it is always active, and
    /// whether it is toggled on now.
    Feature { feature: CheatFeature, key: Option<usize>, toggled: bool },
    /// The settings heading.
    Settings,
    /// Screen-capture hiding is on.
    BypassCapture,
    /// Teammates are left out.
    ExcludeTeam,
}

/// The line for a feature, if it is shown: it must be on and, for features
/// that act on the local pawn, the pawn must be known.
pub open spec fn feature_lines(feature: CheatFeature, shown: bool, switch: FeatureSwitch, toggled: bool) -> Seq<CheatListLine> {
    if shown && switch.enabled {
        seq![CheatListLine::Feature {
            feature,
            key: if switch.always { None } else { Some(switch.key) },
            toggled,
        }]
    } else {
        seq![]
    }
}

/// The settings lines: a heading and one line per active setting, when the
/// settings are shown.
pub open spec fn settings_lines(settings: SettingsSwitch) -> Seq<CheatListLine> {
    if settings.enabled {
        seq![CheatListLine::Settings] + (if settings.bypass_capture {
            seq![CheatListLine::BypassCapture]
        } else {
            seq![]
        }) + (if settings.exclude_team {
            seq![CheatListLine::ExcludeTeam]
        } else {
            seq![]
        })
    } else {
        seq![]
    }
}

/// Every line of the cheat list, top to bottom: ESP, then the features that
/// need the local pawn (recoil control, aimbot, triggerbot), then crosshair,
/// radar and the settings.
pub open spec fn cheat_list_lines(
    config: CheatListConfig,
    pawn: bool,
    aimbot_toggled: bool,
    triggerbot_toggled: bool,
    rcs_toggled: bool,
    esp_toggled: bool,
    crosshair_toggled: bool,
    radar_toggled: bool,
) -> Seq<CheatListLine> {
    feature_lines(CheatFeature::Esp, true, config.esp, esp_toggled)
        + feature_lines(CheatFeature::Rcs, pawn, config.rcs, rcs_toggled)
        + feature_lines(CheatFeature::Aimbot, pawn, config.aimbot, aimbot_toggled)
        + feature_lines(CheatFeature::Triggerbot, pawn, config.triggerbot, triggerbot_toggled)
        + feature_lines(CheatFeature::Crosshair, true, config.crosshair, crosshair_toggled)
        + feature_lines(CheatFeature::Radar, true, config.radar, radar_toggled)
        + settings_lines(config.settings)
}

fn push_feature(
    lines: &mut Vec<CheatListLine>,
    feature: CheatFeature,
    shown: bool,
    switch: FeatureSwitch,
    toggled: bool,
)
    ensures
        final(lines)@ == old(lines)@ + feature_lines(feature, shown, switch, toggled),
{
    if shown && switch.enabled {
        let key = if switch.always {
            None
        } else {
            Some(switch.key)
        };
        lines.push(CheatListLine::Feature { feature, key, toggled });
    }
    assert(lines@ =~= old(lines)@ + feature_lines(feature, shown, switch, toggled));
}

/// The lines of the cheat list window.
pub fn render_cheat_list(
    config: &CheatListConfig,
    pawn: bool,
    aimbot_toggled: bool,
    triggerbot_toggled: bool,
    rcs_toggled: bool,
    esp_toggled: bool,
    crosshair_toggled: bool,
    radar_toggled: bool,
) -> (r: Vec<CheatListLine>)
    ensures
        r@ == cheat_list_lines(
            *config,
            pawn,
            aimbot_toggled,
            triggerbot_toggled,
            rcs_toggled,
            esp_toggled,
            crosshair_toggled,
            radar_toggled,
        ),
{
    let mut lines: Vec<CheatListLine> = Vec::new();
    push_feature(&mut lines, CheatFeature::Esp, true, config.esp, esp_toggled);
    assert(lines@ =~= feature_lines(CheatFeature::Esp, true, config.esp, esp_toggled));
    push_feature(&mut lines, CheatFeature::Rcs, pawn, config.rcs, rcs_toggled);
    push_feature(&mut lines, CheatFeature::Aimbot, pawn, config.aimbot, aimbot_toggled);
    push_feature(&mut lines, CheatFeature::Triggerbot, pawn, config.triggerbot, triggerbot_toggled);
    push_feature(&mut lines, CheatFeature::Crosshair, true, config.crosshair, crosshair_toggled);
    push_feature(&mut lines, CheatFeature::Radar, true, config.radar, radar_toggled);
    push_settings(&mut lines, config.settings);
    lines
}

fn push_settings(lines: &mut Vec<CheatListLine>, settings: SettingsSwitch)
    ensures
        final(lines)@ == old(lines)@ + settings_lines(settings),
{
    if settings.enabled {
        lines.push(CheatListLine::Settings);
        if settings.bypass_capture {
            lines.push(CheatListLine::BypassCapture);
        }
        if settings.exclude_team {
            lines.push(CheatListLine::ExcludeTeam);
        }
    }
    assert(lines@ =~= old(lines)@ + settings_lines(settings));
}

/// Without the local pawn, the list shows none of the features that act
/// through it.
pub proof fn no_pawn_hides_pawn_features(
    config: CheatListConfig,
    aimbot_toggled: bool,
    triggerbot_toggled: bool,
    rcs_toggled: bool,
    esp_toggled: bool,
    crosshair_toggled: bool,
    radar_toggled: bool,
)
    ensures
        forall|i: int|
            0 <= i < cheat_list_lines(
                config,
                false,
                aimbot_toggled,
                triggerbot_toggled,
                rcs_toggled,
                esp_toggled,
                crosshair_toggled,
                radar_toggled,
            ).len() ==> match #[trigger] cheat_list_lines(
                config,
                false,
                aimbot_toggled,
                triggerbot_toggled,
                rcs_toggled,
                esp_toggled,
                crosshair_toggled,
                radar_toggled,
            )[i] {
                CheatListLine::Feature { feature, .. } => feature != CheatFeature::Rcs && feature
                    != CheatFeature::Aimbot && feature != CheatFeature::Triggerbot,
                _ => true,
            },
{
    let lines = cheat_list_lines(
        config,
        false,
        aimbot_toggled,
        triggerbot_toggled,
        rcs_toggled,
        esp_toggled,
        crosshair_toggled,
        radar_toggled,
    );
    assert(lines =~= feature_lines(CheatFeature::Esp, true, config.esp, esp_toggled) + feature_lines(
        CheatFeature::Crosshair,
        true,
        config.crosshair,
        crosshair_toggled,
    ) + feature_lines(CheatFeature::Radar, true, config.radar, radar_toggled) + settings_lines(
        config.settings,
    ));
}

/// The settings lines: with the settings shown, the heading comes first,
/// "Bypass Capture" right after it when that is on, and "Exclude Team" last
/// when that is on; without them, no settings line at all. Feature lines
/// never come among them.
pub proof fn settings_lines_listed(
    config: CheatListConfig,
    pawn: bool,
    aimbot_toggled: bool,
    triggerbot_toggled: bool,
    rcs_toggled: bool,
    esp_toggled: bool,
    crosshair_toggled: bool,
    radar_toggled: bool,
)
    ensures
        ({
            let lines = cheat_list_lines(
                config,
                pawn,
                aimbot_toggled,
                triggerbot_toggled,
                rcs_toggled,
                esp_toggled,
                crosshair_toggled,
                radar_toggled,
            );
            let st = config.settings;
            &&& (lines.contains(CheatListLine::Settings) <==> st.enabled)
            &&& (lines.contains(CheatListLine::BypassCapture) <==> st.enabled && st.bypass_capture)
            &&& (lines.contains(CheatListLine::ExcludeTeam) <==> st.enabled && st.exclude_team)
            &&& (st.enabled && st.bypass_capture ==> exists|k: int|
                0 <= k && k + 1 < lines.len() && #[trigger] lines[k] == CheatListLine::Settings
                    && lines[k + 1] == CheatListLine::BypassCapture)
            &&& (st.enabled && st.exclude_team ==> lines.last() == CheatListLine::ExcludeTeam)
            &&& (st.enabled && !st.exclude_team && st.bypass_capture ==> lines.last()
                == CheatListLine::BypassCapture)
        }),
{
    let a = feature_lines(CheatFeature::Esp, true, config.esp, esp_toggled);
    let b = feature_lines(CheatFeature::Rcs, pawn, config.rcs, rcs_toggled);
    let c = feature_lines(CheatFeature::Aimbot, pawn, config.aimbot, aimbot_toggled);
    let d = feature_lines(CheatFeature::Triggerbot, pawn, config.triggerbot, triggerbot_toggled);
    let e = feature_lines(CheatFeature::Crosshair, true, config.crosshair, crosshair_toggled);
    let f = feature_lines(CheatFeature::Radar, true, config.radar, radar_toggled);
    lemma_feature_lines_all(CheatFeature::Esp, true, config.esp, esp_toggled);
    lemma_feature_lines_all(CheatFeature::Rcs, pawn, config.rcs, rcs_toggled);
    lemma_feature_lines_all(CheatFeature::Aimbot, pawn, config.aimbot, aimbot_toggled);
    lemma_feature_lines_all(CheatFeature::Triggerbot, pawn, config.triggerbot, triggerbot_toggled);
    lemma_feature_lines_all(CheatFeature::Crosshair, true, config.crosshair, crosshair_toggled);
    lemma_feature_lines_all(CheatFeature::Radar, true, config.radar, radar_toggled);
    lemma_concat_features(a, b);
    lemma_concat_features(a + b, c);
    lemma_concat_features(a + b + c, d);
    lemma_concat_features(a + b + c + d, e);
    lemma_concat_features(a + b + c + d + e, f);
    lemma_settings_after_features(a + b + c + d + e + f, config.settings);
    assert(cheat_list_lines(
        config,
        pawn,
        aimbot_toggled,
        triggerbot_toggled,
        rcs_toggled,
        esp_toggled,
        crosshair_toggled,
        radar_toggled,
    ) == a + b + c + d + e + f + settings_lines(config.settings));
}

proof fn lemma_feature_lines_all(feature: CheatFeature, shown: bool, switch: FeatureSwitch, toggled: bool)
    ensures
        all_features(feature_lines(feature, shown, switch, toggled)),
{
}

/// Whether every line is a feature line.
spec fn all_features(lines: Seq<CheatListLine>) -> bool {
    forall|k: int| 0 <= k < lines.len() ==> (#[trigger] lines[k]) is Feature
}

proof fn lemma_concat_features(a: Seq<CheatListLine>, b: Seq<CheatListLine>)
    requires
        all_features(a),
        all_features(b),
    ensures
        all_features(a + b),
{
    assert forall|k: int| 0 <= k < (a + b).len() implies (#[trigger] (a + b)[k]) is Feature by {
        if k < a.len() {
            assert((a + b)[k] == a[k]);
        } else {
            assert((a + b)[k] == b[k - a.len()]);
        }
    }
}

proof fn lemma_settings_after_features(features: Seq<CheatListLine>, st: SettingsSwitch)
    requires
        all_features(features),
    ensures
        ({
            let lines = features + settings_lines(st);
            &&& (lines.contains(CheatListLine::Settings) <==> st.enabled)
            &&& (lines.contains(CheatListLine::BypassCapture) <==> st.enabled && st.bypass_capture)
            &&& (lines.contains(CheatListLine::ExcludeTeam) <==> st.enabled && st.exclude_team)
            &&& (st.enabled && st.bypass_capture ==> exists|k: int|
                0 <= k && k + 1 < lines.len() && #[trigger] lines[k] == CheatListLine::Settings
                    && lines[k + 1] == CheatListLine::BypassCapture)
            &&& (st.enabled && st.exclude_team ==> lines.last() == CheatListLine::ExcludeTeam)
            &&& (st.enabled && !st.exclude_team && st.bypass_capture ==> lines.last()
                == CheatListLine::BypassCapture)
        }),
{
    let settings = settings_lines(st);
    let lines = features + settings;
    let n = features.len() as int;
    assert forall|line: CheatListLine| !(line is Feature) implies (lines.contains(line)
        <==> settings.contains(line)) by {
        if lines.contains(line) {
            let k = choose|k: int| 0 <= k < lines.len() && lines[k] == line;
            if k < n {
                assert(lines[k] == features[k]);
            } else {
                assert(settings[k - n] == lines[k]);
            }
        }
        if settings.contains(line) {
            let k = choose|k: int| 0 <= k < settings.len() && settings[k] == line;
            assert(lines[n + k] == settings[k]);
        }
    }
    if st.enabled {
        assert(settings[0] == CheatListLine::Settings);
        assert(lines[n] == CheatListLine::Settings);
        assert(settings.contains(CheatListLine::Settings));
        if st.bypass_capture {
            assert(settings[1] == CheatListLine::BypassCapture);
            assert(lines[n + 1] == CheatListLine::BypassCapture);
            assert(settings.contains(CheatListLine::BypassCapture));
        } else {
            assert(!settings.contains(CheatListLine::BypassCapture)) by {
                if settings.contains(CheatListLine::BypassCapture) {
                    let k = choose|k: int|
                        0 <= k < settings.len() && settings[k] == CheatListLine::BypassCapture;
                }
            }
        }
        if st.exclude_team {
            assert(settings[settings.len() - 1] == CheatListLine::ExcludeTeam);
            assert(settings.contains(CheatListLine::ExcludeTeam));
        } else {
            assert(!settings.contains(CheatListLine::ExcludeTeam)) by {
                if settings.contains(CheatListLine::ExcludeTeam) {
                    let k = choose|k: int|
                        0 <= k < settings.len() && settings[k] == CheatListLine::ExcludeTeam;
                }
            }
        }
        assert(lines.last() == settings.last());
    } else {
        assert(settings.len() == 0);
        assert(lines =~= features);
    }
}

/// A feature's line: listed exactly when the feature is on and (for the
/// features that need it) the local pawn is known; it shows the hotkey
/// exactly when the feature is not always on, and the toggle state.
pub proof fn feature_line_listed(feature: CheatFeature, shown: bool, switch: FeatureSwitch, toggled: bool)
    ensures
        ({
            let l = feature_lines(feature, shown, switch, toggled);
            &&& (l.len() == 1 <==> shown && switch.enabled)
            &&& l.len() <= 1
            &&& (l.len() == 1 ==> match l[0] {
                CheatListLine::Feature { feature: f, key, toggled: t } => f == feature && t
                    == toggled && (key is None <==> switch.always) && (key matches Some(k) ==> k
                    == switch.key),
                _ => false,
            })
        }),
{
}

} // verus!
