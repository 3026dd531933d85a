use vstd::prelude::*;
use crate::text::str_eq;

verus! {

/// Category of the weapon a player holds.
#[derive(Clone, Copy, PartialEq, Eq, Structural, Debug)]
pub enum WeaponType {
    Pistol,
    Rifle,
    Submachine,
    Sniper,
    Shotgun,
    MachineGun,
    Equipment,
    Grenade,
    Bomb,
    Fists,
    Knife,
    Other,
    NoWeapon,
}

/// Whether the category is a firearm.
pub open spec fn is_firearm(weapon_type: WeaponType) -> bool {
    ||| weapon_type == WeaponType::Pistol
    ||| weapon_type == WeaponType::Rifle
    ||| weapon_type == WeaponType::Submachine
    ||| weapon_type == WeaponType::Sniper
    ||| weapon_type == WeaponType::Shotgun
    ||| weapon_type == WeaponType::MachineGun
}

/// Whether the player holds a firearm.
pub fn has_weapon(weapon_type: WeaponType) -> (r: bool)
    ensures
        r == is_firearm(weapon_type),
{
    match weapon_type {
        WeaponType::Pistol => true,
        WeaponType::Rifle => true,
        WeaponType::Submachine => true,
        WeaponType::Sniper => true,
        WeaponType::Shotgun => true,
        WeaponType::MachineGun => true,
        _ => false,
    }
}

/// The game's internal weapon names with their category and display name,
/// in the order they are looked up.
pub open spec fn weapon_table() -> Seq<(Seq<char>, WeaponType, Seq<char>)> {
    seq![
        ("ak47"@, WeaponType::Rifle, "AK-47"@),
        ("aug"@, WeaponType::Rifle, "AUG"@),
        ("awp"@, WeaponType::Sniper, "AWP"@),
        ("bizon"@, WeaponType::Submachine, "PP-Bizon"@),
        ("c4"@, WeaponType::Bomb, "Bomb"@),
        ("cz75a"@, WeaponType::Pistol, "CZ-75 Auto"@),
        ("deagle"@, WeaponType::Pistol, "Desert Eagle"@),
        ("decoy"@, WeaponType::Grenade, "Decoy Grenade"@),
        ("elite"@, WeaponType::Pistol, "Dual Berettas"@),
        ("fists"@, WeaponType::Fists, "Fists"@),
        ("famas"@, WeaponType::Rifle, "FAMAS"@),
        ("fiveseven"@, WeaponType::Pistol, "Five-SeveN"@),
        ("flashbang"@, WeaponType::Grenade, "Flashbang"@),
        ("g3sg1"@, WeaponType::Sniper, "G3SG1"@),
        ("galilar"@, WeaponType::Rifle, "Galil AR"@),
        ("glock"@, WeaponType::Pistol, "Glock"@),
        ("healthshot"@, WeaponType::Other, "MediShot"@),
        ("hkp2000"@, WeaponType::Pistol, "P2000"@),
        ("hegrenade"@, WeaponType::Grenade, "Grenade"@),
        ("incgrenade"@, WeaponType::Grenade, "Incendiary"@),
        ("knife"@, WeaponType::Knife, "Knife"@),
        ("m249"@, WeaponType::MachineGun, "M249"@),
        ("m4a1"@, WeaponType::Rifle, "M4A4"@),
        ("m4a1_silencer"@, WeaponType::Rifle, "M4A1-S"@),
        ("mac10"@, WeaponType::Submachine, "MAC-10"@),
        ("mag7"@, WeaponType::Shotgun, "MAG-7"@),
        ("molotov"@, WeaponType::Grenade, "Molotov"@),
        ("mp5sd"@, WeaponType::Submachine, "MP5-SD"@),
        ("mp7"@, WeaponType::Submachine, "MP7"@),
        ("mp9"@, WeaponType::Submachine, "MP9"@),
        ("negev"@, WeaponType::MachineGun, "Negev"@),
        ("nova"@, WeaponType::Shotgun, "Nova"@),
        ("p250"@, WeaponType::Pistol, "P250"@),
        ("p90"@, WeaponType::Submachine, "P90"@),
        ("revolver"@, WeaponType::Pistol, "Revolver"@),
        ("sawedoff"@, WeaponType::Shotgun, "Sawed-Off"@),
        ("scar20"@, WeaponType::Sniper, "SCAR-20"@),
        ("sg556"@, WeaponType::Rifle, "SG556"@),
        ("smokegrenade"@, WeaponType::Grenade, "Smoke"@),
        ("ssg08"@, WeaponType::Sniper, "SSG 08"@),
        ("taser"@, WeaponType::Equipment, "Zeus x27"@),
        ("tec9"@, WeaponType::Pistol, "TEC-9"@),
        ("ump45"@, WeaponType::Submachine, "UMP-45"@),
        ("usp_silencer"@, WeaponType::Pistol, "USP-S"@),
        ("xm1014"@, WeaponType::Shotgun, "XM1014"@),
    ]
}

/// Category and display name of the first table entry named `name` at or
/// after position `from`; an unknown name is `Other` with no display name.
pub open spec fn lookup_weapon_from(name: Seq<char>, from: int) -> (WeaponType, Seq<char>)
    decreases weapon_table().len() - from,
{
    if from < 0 || from >= weapon_table().len() {
        (WeaponType::Other, Seq::empty())
    } else if weapon_table()[from].0 == name {
        (weapon_table()[from].1, weapon_table()[from].2)
    } else {
        lookup_weapon_from(name, from + 1)
    }
}

/// Category and display name of an internal weapon name.
pub open spec fn lookup_weapon(name: Seq<char>) -> (WeaponType, Seq<char>) {
    lookup_weapon_from(name, 0)
}


/// The internal names of the firearms: every weapon whose category is a
/// pistol, rifle, submachine gun, sniper rifle, shotgun or machine gun.
pub open spec fn firearm_names() -> Seq<Seq<char>> {
    seq![
        "ak47"@,
        "aug"@,
        "awp"@,
        "bizon"@,
        "cz75a"@,
        "deagle"@,
        "elite"@,
        "famas"@,
        "fiveseven"@,
        "g3sg1"@,
        "galilar"@,
        "glock"@,
        "hkp2000"@,
        "m249"@,
        "m4a1"@,
        "m4a1_silencer"@,
        "mac10"@,
        "mag7"@,
        "mp5sd"@,
        "mp7"@,
        "mp9"@,
        "negev"@,
        "nova"@,
        "p250"@,
        "p90"@,
        "revolver"@,
        "sawedoff"@,
        "scar20"@,
        "sg556"@,
        "ssg08"@,
        "tec9"@,
        "ump45"@,
        "usp_silencer"@,
        "xm1014"@,
    ]
}

/// Where a lookup from `from` stops: the first entry at or after `from`
/// with that name, or the table's end when there is none.
proof fn lemma_lookup_index(name: Seq<char>, from: int) -> (j: int)
    requires
        0 <= from <= weapon_table().len(),
    ensures
        from <= j <= weapon_table().len(),
        forall|i: int| from <= i < j ==> weapon_table()[i].0 != name,
        j < weapon_table().len() ==> weapon_table()[j].0 == name && lookup_weapon_from(name, from)
            == (weapon_table()[j].1, weapon_table()[j].2),
        j == weapon_table().len() ==> lookup_weapon_from(name, from) == (
            WeaponType::Other,
            Seq::<char>::empty(),
        ),
    decreases weapon_table().len() - from,
{
    if from == weapon_table().len() {
        from
    } else if weapon_table()[from].0 == name {
        from
    } else {
        lemma_lookup_index(name, from + 1)
    }
}

/// No firearm name is the name `other` of a weapon that is no firearm.
proof fn lemma_firearm_name_differs(k: int, other: Seq<char>)
    requires
        0 <= k < firearm_names().len(),
        other == "c4"@ || other == "decoy"@ || other == "fists"@ || other == "flashbang"@
            || other == "healthshot"@ || other == "hegrenade"@ || other == "incgrenade"@
            || other == "knife"@ || other == "molotov"@ || other == "smokegrenade"@
            || other == "taser"@,
    ensures
        firearm_names()[k] != other,
{
    reveal_strlit("c4");
    reveal_strlit("decoy");
    reveal_strlit("fists");
    reveal_strlit("flashbang");
    reveal_strlit("healthshot");
    reveal_strlit("hegrenade");
    reveal_strlit("incgrenade");
    reveal_strlit("knife");
    reveal_strlit("molotov");
    reveal_strlit("smokegrenade");
    reveal_strlit("taser");
    reveal_strlit("ak47");
    reveal_strlit("aug");
    reveal_strlit("awp");
    reveal_strlit("bizon");
    reveal_strlit("cz75a");
    reveal_strlit("deagle");
    reveal_strlit("elite");
    reveal_strlit("famas");
    reveal_strlit("fiveseven");
    reveal_strlit("g3sg1");
    reveal_strlit("galilar");
    reveal_strlit("glock");
    reveal_strlit("hkp2000");
    reveal_strlit("m249");
    reveal_strlit("m4a1");
    reveal_strlit("m4a1_silencer");
    reveal_strlit("mac10");
    reveal_strlit("mag7");
    reveal_strlit("mp5sd");
    reveal_strlit("mp7");
    reveal_strlit("mp9");
    reveal_strlit("negev");
    reveal_strlit("nova");
    reveal_strlit("p250");
    reveal_strlit("p90");
    reveal_strlit("revolver");
    reveal_strlit("sawedoff");
    reveal_strlit("scar20");
    reveal_strlit("sg556");
    reveal_strlit("ssg08");
    reveal_strlit("tec9");
    reveal_strlit("ump45");
    reveal_strlit("usp_silencer");
    reveal_strlit("xm1014");
    if k == 0 {
        assert(firearm_names()[0] == "ak47"@);
        assert("ak47"@.len() != "c4"@.len());
        assert("ak47"@ != "c4"@);
        assert("ak47"@.len() != "decoy"@.len());
        assert("ak47"@ != "decoy"@);
        assert("ak47"@.len() != "fists"@.len());
        assert("ak47"@ != "fists"@);
        assert("ak47"@.len() != "flashbang"@.len());
        assert("ak47"@ != "flashbang"@);
        assert("ak47"@.len() != "healthshot"@.len());
        assert("ak47"@ != "healthshot"@);
        assert("ak47"@.len() != "hegrenade"@.len());
        assert("ak47"@ != "hegrenade"@);
        assert("ak47"@.len() != "incgrenade"@.len());
        assert("ak47"@ != "incgrenade"@);
        assert("ak47"@.len() != "knife"@.len());
        assert("ak47"@ != "knife"@);
        assert("ak47"@.len() != "molotov"@.len());
        assert("ak47"@ != "molotov"@);
        assert("ak47"@.len() != "smokegrenade"@.len());
        assert("ak47"@ != "smokegrenade"@);
        assert("ak47"@.len() != "taser"@.len());
        assert("ak47"@ != "taser"@);
    } else if k == 1 {
        assert(firearm_names()[1] == "aug"@);
        assert("aug"@.len() != "c4"@.len());
        assert("aug"@ != "c4"@);
        assert("aug"@.len() != "decoy"@.len());
        assert("aug"@ != "decoy"@);
        assert("aug"@.len() != "fists"@.len());
        assert("aug"@ != "fists"@);
        assert("aug"@.len() != "flashbang"@.len());
        assert("aug"@ != "flashbang"@);
        assert("aug"@.len() != "healthshot"@.len());
        assert("aug"@ != "healthshot"@);
        assert("aug"@.len() != "hegrenade"@.len());
        assert("aug"@ != "hegrenade"@);
        assert("aug"@.len() != "incgrenade"@.len());
        assert("aug"@ != "incgrenade"@);
        assert("aug"@.len() != "knife"@.len());
        assert("aug"@ != "knife"@);
        assert("aug"@.len() != "molotov"@.len());
        assert("aug"@ != "molotov"@);
        assert("aug"@.len() != "smokegrenade"@.len());
        assert("aug"@ != "smokegrenade"@);
        assert("aug"@.len() != "taser"@.len());
        assert("aug"@ != "taser"@);
    } else if k == 2 {
        assert(firearm_names()[2] == "awp"@);
        assert("awp"@.len() != "c4"@.len());
        assert("awp"@ != "c4"@);
        assert("awp"@.len() != "decoy"@.len());
        assert("awp"@ != "decoy"@);
        assert("awp"@.len() != "fists"@.len());
        assert("awp"@ != "fists"@);
        assert("awp"@.len() != "flashbang"@.len());
        assert("awp"@ != "flashbang"@);
        assert("awp"@.len() != "healthshot"@.len());
        assert("awp"@ != "healthshot"@);
        assert("awp"@.len() != "hegrenade"@.len());
        assert("awp"@ != "hegrenade"@);
        assert("awp"@.len() != "incgrenade"@.len());
        assert("awp"@ != "incgrenade"@);
        assert("awp"@.len() != "knife"@.len());
        assert("awp"@ != "knife"@);
        assert("awp"@.len() != "molotov"@.len());
        assert("awp"@ != "molotov"@);
        assert("awp"@.len() != "smokegrenade"@.len());
        assert("awp"@ != "smokegrenade"@);
        assert("awp"@.len() != "taser"@.len());
        assert("awp"@ != "taser"@);
    } else if k == 3 {
        assert(firearm_names()[3] == "bizon"@);
        assert("bizon"@.len() != "c4"@.len());
        assert("bizon"@ != "c4"@);
        assert("bizon"@[0] != "decoy"@[0]);
        assert("bizon"@ != "decoy"@);
        assert("bizon"@[0] != "fists"@[0]);
        assert("bizon"@ != "fists"@);
        assert("bizon"@.len() != "flashbang"@.len());
        assert("bizon"@ != "flashbang"@);
        assert("bizon"@.len() != "healthshot"@.len());
        assert("bizon"@ != "healthshot"@);
        assert("bizon"@.len() != "hegrenade"@.len());
        assert("bizon"@ != "hegrenade"@);
        assert("bizon"@.len() != "incgrenade"@.len());
        assert("bizon"@ != "incgrenade"@);
        assert("bizon"@[0] != "knife"@[0]);
        assert("bizon"@ != "knife"@);
        assert("bizon"@.len() != "molotov"@.len());
        assert("bizon"@ != "molotov"@);
        assert("bizon"@.len() != "smokegrenade"@.len());
        assert("bizon"@ != "smokegrenade"@);
        assert("bizon"@[0] != "taser"@[0]);
        assert("bizon"@ != "taser"@);
    } else if k == 4 {
        assert(firearm_names()[4] == "cz75a"@);
        assert("cz75a"@.len() != "c4"@.len());
        assert("cz75a"@ != "c4"@);
        assert("cz75a"@[0] != "decoy"@[0]);
        assert("cz75a"@ != "decoy"@);
        assert("cz75a"@[0] != "fists"@[0]);
        assert("cz75a"@ != "fists"@);
        assert("cz75a"@.len() != "flashbang"@.len());
        assert("cz75a"@ != "flashbang"@);
        assert("cz75a"@.len() != "healthshot"@.len());
        assert("cz75a"@ != "healthshot"@);
        assert("cz75a"@.len() != "hegrenade"@.len());
        assert("cz75a"@ != "hegrenade"@);
        assert("cz75a"@.len() != "incgrenade"@.len());
        assert("cz75a"@ != "incgrenade"@);
        assert("cz75a"@[0] != "knife"@[0]);
        assert("cz75a"@ != "knife"@);
        assert("cz75a"@.len() != "molotov"@.len());
        assert("cz75a"@ != "molotov"@);
        assert("cz75a"@.len() != "smokegrenade"@.len());
        assert("cz75a"@ != "smokegrenade"@);
        assert("cz75a"@[0] != "taser"@[0]);
        assert("cz75a"@ != "taser"@);
    } else if k == 5 {
        assert(firearm_names()[5] == "deagle"@);
        assert("deagle"@.len() != "c4"@.len());
        assert("deagle"@ != "c4"@);
        assert("deagle"@.len() != "decoy"@.len());
        assert("deagle"@ != "decoy"@);
        assert("deagle"@.len() != "fists"@.len());
        assert("deagle"@ != "fists"@);
        assert("deagle"@.len() != "flashbang"@.len());
        assert("deagle"@ != "flashbang"@);
        assert("deagle"@.len() != "healthshot"@.len());
        assert("deagle"@ != "healthshot"@);
        assert("deagle"@.len() != "hegrenade"@.len());
        assert("deagle"@ != "hegrenade"@);
        assert("deagle"@.len() != "incgrenade"@.len());
        assert("deagle"@ != "incgrenade"@);
        assert("deagle"@.len() != "knife"@.len());
        assert("deagle"@ != "knife"@);
        assert("deagle"@.len() != "molotov"@.len());
        assert("deagle"@ != "molotov"@);
        assert("deagle"@.len() != "smokegrenade"@.len());
        assert("deagle"@ != "smokegrenade"@);
        assert("deagle"@.len() != "taser"@.len());
        assert("deagle"@ != "taser"@);
    } else if k == 6 {
        assert(firearm_names()[6] == "elite"@);
        assert("elite"@.len() != "c4"@.len());
        assert("elite"@ != "c4"@);
        assert("elite"@[0] != "decoy"@[0]);
        assert("elite"@ != "decoy"@);
        assert("elite"@[0] != "fists"@[0]);
        assert("elite"@ != "fists"@);
        assert("elite"@.len() != "flashbang"@.len());
        assert("elite"@ != "flashbang"@);
        assert("elite"@.len() != "healthshot"@.len());
        assert("elite"@ != "healthshot"@);
        assert("elite"@.len() != "hegrenade"@.len());
        assert("elite"@ != "hegrenade"@);
        assert("elite"@.len() != "incgrenade"@.len());
        assert("elite"@ != "incgrenade"@);
        assert("elite"@[0] != "knife"@[0]);
        assert("elite"@ != "knife"@);
        assert("elite"@.len() != "molotov"@.len());
        assert("elite"@ != "molotov"@);
        assert("elite"@.len() != "smokegrenade"@.len());
        assert("elite"@ != "smokegrenade"@);
        assert("elite"@[0] != "taser"@[0]);
        assert("elite"@ != "taser"@);
    } else if k == 7 {
        assert(firearm_names()[7] == "famas"@);
        assert("famas"@.len() != "c4"@.len());
        assert("famas"@ != "c4"@);
        assert("famas"@[0] != "decoy"@[0]);
        assert("famas"@ != "decoy"@);
        assert("famas"@[1] != "fists"@[1]);
        assert("famas"@ != "fists"@);
        assert("famas"@.len() != "flashbang"@.len());
        assert("famas"@ != "flashbang"@);
        assert("famas"@.len() != "healthshot"@.len());
        assert("famas"@ != "healthshot"@);
        assert("famas"@.len() != "hegrenade"@.len());
        assert("famas"@ != "hegrenade"@);
        assert("famas"@.len() != "incgrenade"@.len());
        assert("famas"@ != "incgrenade"@);
        assert("famas"@[0] != "knife"@[0]);
        assert("famas"@ != "knife"@);
        assert("famas"@.len() != "molotov"@.len());
        assert("famas"@ != "molotov"@);
        assert("famas"@.len() != "smokegrenade"@.len());
        assert("famas"@ != "smokegrenade"@);
        assert("famas"@[0] != "taser"@[0]);
        assert("famas"@ != "taser"@);
    } else if k == 8 {
        assert(firearm_names()[8] == "fiveseven"@);
        assert("fiveseven"@.len() != "c4"@.len());
        assert("fiveseven"@ != "c4"@);
        assert("fiveseven"@.len() != "decoy"@.len());
        assert("fiveseven"@ != "decoy"@);
        assert("fiveseven"@.len() != "fists"@.len());
        assert("fiveseven"@ != "fists"@);
        assert("fiveseven"@[1] != "flashbang"@[1]);
        assert("fiveseven"@ != "flashbang"@);
        assert("fiveseven"@.len() != "healthshot"@.len());
        assert("fiveseven"@ != "healthshot"@);
        assert("fiveseven"@[0] != "hegrenade"@[0]);
        assert("fiveseven"@ != "hegrenade"@);
        assert("fiveseven"@.len() != "incgrenade"@.len());
        assert("fiveseven"@ != "incgrenade"@);
        assert("fiveseven"@.len() != "knife"@.len());
        assert("fiveseven"@ != "knife"@);
        assert("fiveseven"@.len() != "molotov"@.len());
        assert("fiveseven"@ != "molotov"@);
        assert("fiveseven"@.len() != "smokegrenade"@.len());
        assert("fiveseven"@ != "smokegrenade"@);
        assert("fiveseven"@.len() != "taser"@.len());
        assert("fiveseven"@ != "taser"@);
    } else if k == 9 {
        assert(firearm_names()[9] == "g3sg1"@);
        assert("g3sg1"@.len() != "c4"@.len());
        assert("g3sg1"@ != "c4"@);
        assert("g3sg1"@[0] != "decoy"@[0]);
        assert("g3sg1"@ != "decoy"@);
        assert("g3sg1"@[0] != "fists"@[0]);
        assert("g3sg1"@ != "fists"@);
        assert("g3sg1"@.len() != "flashbang"@.len());
        assert("g3sg1"@ != "flashbang"@);
        assert("g3sg1"@.len() != "healthshot"@.len());
        assert("g3sg1"@ != "healthshot"@);
        assert("g3sg1"@.len() != "hegrenade"@.len());
        assert("g3sg1"@ != "hegrenade"@);
        assert("g3sg1"@.len() != "incgrenade"@.len());
        assert("g3sg1"@ != "incgrenade"@);
        assert("g3sg1"@[0] != "knife"@[0]);
        assert("g3sg1"@ != "knife"@);
        assert("g3sg1"@.len() != "molotov"@.len());
        assert("g3sg1"@ != "molotov"@);
        assert("g3sg1"@.len() != "smokegrenade"@.len());
        assert("g3sg1"@ != "smokegrenade"@);
        assert("g3sg1"@[0] != "taser"@[0]);
        assert("g3sg1"@ != "taser"@);
    } else if k == 10 {
        assert(firearm_names()[10] == "galilar"@);
        assert("galilar"@.len() != "c4"@.len());
        assert("galilar"@ != "c4"@);
        assert("galilar"@.len() != "decoy"@.len());
        assert("galilar"@ != "decoy"@);
        assert("galilar"@.len() != "fists"@.len());
        assert("galilar"@ != "fists"@);
        assert("galilar"@.len() != "flashbang"@.len());
        assert("galilar"@ != "flashbang"@);
        assert("galilar"@.len() != "healthshot"@.len());
        assert("galilar"@ != "healthshot"@);
        assert("galilar"@.len() != "hegrenade"@.len());
        assert("galilar"@ != "hegrenade"@);
        assert("galilar"@.len() != "incgrenade"@.len());
        assert("galilar"@ != "incgrenade"@);
        assert("galilar"@.len() != "knife"@.len());
        assert("galilar"@ != "knife"@);
        assert("galilar"@[0] != "molotov"@[0]);
        assert("galilar"@ != "molotov"@);
        assert("galilar"@.len() != "smokegrenade"@.len());
        assert("galilar"@ != "smokegrenade"@);
        assert("galilar"@.len() != "taser"@.len());
        assert("galilar"@ != "taser"@);
    } else if k == 11 {
        assert(firearm_names()[11] == "glock"@);
        assert("glock"@.len() != "c4"@.len());
        assert("glock"@ != "c4"@);
        assert("glock"@[0] != "decoy"@[0]);
        assert("glock"@ != "decoy"@);
        assert("glock"@[0] != "fists"@[0]);
        assert("glock"@ != "fists"@);
        assert("glock"@.len() != "flashbang"@.len());
        assert("glock"@ != "flashbang"@);
        assert("glock"@.len() != "healthshot"@.len());
        assert("glock"@ != "healthshot"@);
        assert("glock"@.len() != "hegrenade"@.len());
        assert("glock"@ != "hegrenade"@);
        assert("glock"@.len() != "incgrenade"@.len());
        assert("glock"@ != "incgrenade"@);
        assert("glock"@[0] != "knife"@[0]);
        assert("glock"@ != "knife"@);
        assert("glock"@.len() != "molotov"@.len());
        assert("glock"@ != "molotov"@);
        assert("glock"@.len() != "smokegrenade"@.len());
        assert("glock"@ != "smokegrenade"@);
        assert("glock"@[0] != "taser"@[0]);
        assert("glock"@ != "taser"@);
    } else if k == 12 {
        assert(firearm_names()[12] == "hkp2000"@);
        assert("hkp2000"@.len() != "c4"@.len());
        assert("hkp2000"@ != "c4"@);
        assert("hkp2000"@.len() != "decoy"@.len());
        assert("hkp2000"@ != "decoy"@);
        assert("hkp2000"@.len() != "fists"@.len());
        assert("hkp2000"@ != "fists"@);
        assert("hkp2000"@.len() != "flashbang"@.len());
        assert("hkp2000"@ != "flashbang"@);
        assert("hkp2000"@.len() != "healthshot"@.len());
        assert("hkp2000"@ != "healthshot"@);
        assert("hkp2000"@.len() != "hegrenade"@.len());
        assert("hkp2000"@ != "hegrenade"@);
        assert("hkp2000"@.len() != "incgrenade"@.len());
        assert("hkp2000"@ != "incgrenade"@);
        assert("hkp2000"@.len() != "knife"@.len());
        assert("hkp2000"@ != "knife"@);
        assert("hkp2000"@[0] != "molotov"@[0]);
        assert("hkp2000"@ != "molotov"@);
        assert("hkp2000"@.len() != "smokegrenade"@.len());
        assert("hkp2000"@ != "smokegrenade"@);
        assert("hkp2000"@.len() != "taser"@.len());
        assert("hkp2000"@ != "taser"@);
    } else if k == 13 {
        assert(firearm_names()[13] == "m249"@);
        assert("m249"@.len() != "c4"@.len());
        assert("m249"@ != "c4"@);
        assert("m249"@.len() != "decoy"@.len());
        assert("m249"@ != "decoy"@);
        assert("m249"@.len() != "fists"@.len());
        assert("m249"@ != "fists"@);
        assert("m249"@.len() != "flashbang"@.len());
        assert("m249"@ != "flashbang"@);
        assert("m249"@.len() != "healthshot"@.len());
        assert("m249"@ != "healthshot"@);
        assert("m249"@.len() != "hegrenade"@.len());
        assert("m249"@ != "hegrenade"@);
        assert("m249"@.len() != "incgrenade"@.len());
        assert("m249"@ != "incgrenade"@);
        assert("m249"@.len() != "knife"@.len());
        assert("m249"@ != "knife"@);
        assert("m249"@.len() != "molotov"@.len());
        assert("m249"@ != "molotov"@);
        assert("m249"@.len() != "smokegrenade"@.len());
        assert("m249"@ != "smokegrenade"@);
        assert("m249"@.len() != "taser"@.len());
        assert("m249"@ != "taser"@);
    } else if k == 14 {
        assert(firearm_names()[14] == "m4a1"@);
        assert("m4a1"@.len() != "c4"@.len());
        assert("m4a1"@ != "c4"@);
        assert("m4a1"@.len() != "decoy"@.len());
        assert("m4a1"@ != "decoy"@);
        assert("m4a1"@.len() != "fists"@.len());
        assert("m4a1"@ != "fists"@);
        assert("m4a1"@.len() != "flashbang"@.len());
        assert("m4a1"@ != "flashbang"@);
        assert("m4a1"@.len() != "healthshot"@.len());
        assert("m4a1"@ != "healthshot"@);
        assert("m4a1"@.len() != "hegrenade"@.len());
        assert("m4a1"@ != "hegrenade"@);
        assert("m4a1"@.len() != "incgrenade"@.len());
        assert("m4a1"@ != "incgrenade"@);
        assert("m4a1"@.len() != "knife"@.len());
        assert("m4a1"@ != "knife"@);
        assert("m4a1"@.len() != "molotov"@.len());
        assert("m4a1"@ != "molotov"@);
        assert("m4a1"@.len() != "smokegrenade"@.len());
        assert("m4a1"@ != "smokegrenade"@);
        assert("m4a1"@.len() != "taser"@.len());
        assert("m4a1"@ != "taser"@);
    } else if k == 15 {
        assert(firearm_names()[15] == "m4a1_silencer"@);
        assert("m4a1_silencer"@.len() != "c4"@.len());
        assert("m4a1_silencer"@ != "c4"@);
        assert("m4a1_silencer"@.len() != "decoy"@.len());
        assert("m4a1_silencer"@ != "decoy"@);
        assert("m4a1_silencer"@.len() != "fists"@.len());
        assert("m4a1_silencer"@ != "fists"@);
        assert("m4a1_silencer"@.len() != "flashbang"@.len());
        assert("m4a1_silencer"@ != "flashbang"@);
        assert("m4a1_silencer"@.len() != "healthshot"@.len());
        assert("m4a1_silencer"@ != "healthshot"@);
        assert("m4a1_silencer"@.len() != "hegrenade"@.len());
        assert("m4a1_silencer"@ != "hegrenade"@);
        assert("m4a1_silencer"@.len() != "incgrenade"@.len());
        assert("m4a1_silencer"@ != "incgrenade"@);
        assert("m4a1_silencer"@.len() != "knife"@.len());
        assert("m4a1_silencer"@ != "knife"@);
        assert("m4a1_silencer"@.len() != "molotov"@.len());
        assert("m4a1_silencer"@ != "molotov"@);
        assert("m4a1_silencer"@.len() != "smokegrenade"@.len());
        assert("m4a1_silencer"@ != "smokegrenade"@);
        assert("m4a1_silencer"@.len() != "taser"@.len());
        assert("m4a1_silencer"@ != "taser"@);
    } else if k == 16 {
        assert(firearm_names()[16] == "mac10"@);
        assert("mac10"@.len() != "c4"@.len());
        assert("mac10"@ != "c4"@);
        assert("mac10"@[0] != "decoy"@[0]);
        assert("mac10"@ != "decoy"@);
        assert("mac10"@[0] != "fists"@[0]);
        assert("mac10"@ != "fists"@);
        assert("mac10"@.len() != "flashbang"@.len());
        assert("mac10"@ != "flashbang"@);
        assert("mac10"@.len() != "healthshot"@.len());
        assert("mac10"@ != "healthshot"@);
        assert("mac10"@.len() != "hegrenade"@.len());
        assert("mac10"@ != "hegrenade"@);
        assert("mac10"@.len() != "incgrenade"@.len());
        assert("mac10"@ != "incgrenade"@);
        assert("mac10"@[0] != "knife"@[0]);
        assert("mac10"@ != "knife"@);
        assert("mac10"@.len() != "molotov"@.len());
        assert("mac10"@ != "molotov"@);
        assert("mac10"@.len() != "smokegrenade"@.len());
        assert("mac10"@ != "smokegrenade"@);
        assert("mac10"@[0] != "taser"@[0]);
        assert("mac10"@ != "taser"@);
    } else if k == 17 {
        assert(firearm_names()[17] == "mag7"@);
        assert("mag7"@.len() != "c4"@.len());
        assert("mag7"@ != "c4"@);
        assert("mag7"@.len() != "decoy"@.len());
        assert("mag7"@ != "decoy"@);
        assert("mag7"@.len() != "fists"@.len());
        assert("mag7"@ != "fists"@);
        assert("mag7"@.len() != "flashbang"@.len());
        assert("mag7"@ != "flashbang"@);
        assert("mag7"@.len() != "healthshot"@.len());
        assert("mag7"@ != "healthshot"@);
        assert("mag7"@.len() != "hegrenade"@.len());
        assert("mag7"@ != "hegrenade"@);
        assert("mag7"@.len() != "incgrenade"@.len());
        assert("mag7"@ != "incgrenade"@);
        assert("mag7"@.len() != "knife"@.len());
        assert("mag7"@ != "knife"@);
        assert("mag7"@.len() != "molotov"@.len());
        assert("mag7"@ != "molotov"@);
        assert("mag7"@.len() != "smokegrenade"@.len());
        assert("mag7"@ != "smokegrenade"@);
        assert("mag7"@.len() != "taser"@.len());
        assert("mag7"@ != "taser"@);
    } else if k == 18 {
        assert(firearm_names()[18] == "mp5sd"@);
        assert("mp5sd"@.len() != "c4"@.len());
        assert("mp5sd"@ != "c4"@);
        assert("mp5sd"@[0] != "decoy"@[0]);
        assert("mp5sd"@ != "decoy"@);
        assert("mp5sd"@[0] != "fists"@[0]);
        assert("mp5sd"@ != "fists"@);
        assert("mp5sd"@.len() != "flashbang"@.len());
        assert("mp5sd"@ != "flashbang"@);
        assert("mp5sd"@.len() != "healthshot"@.len());
        assert("mp5sd"@ != "healthshot"@);
        assert("mp5sd"@.len() != "hegrenade"@.len());
        assert("mp5sd"@ != "hegrenade"@);
        assert("mp5sd"@.len() != "incgrenade"@.len());
        assert("mp5sd"@ != "incgrenade"@);
        assert("mp5sd"@[0] != "knife"@[0]);
        assert("mp5sd"@ != "knife"@);
        assert("mp5sd"@.len() != "molotov"@.len());
        assert("mp5sd"@ != "molotov"@);
        assert("mp5sd"@.len() != "smokegrenade"@.len());
        assert("mp5sd"@ != "smokegrenade"@);
        assert("mp5sd"@[0] != "taser"@[0]);
        assert("mp5sd"@ != "taser"@);
    } else if k == 19 {
        assert(firearm_names()[19] == "mp7"@);
        assert("mp7"@.len() != "c4"@.len());
        assert("mp7"@ != "c4"@);
        assert("mp7"@.len() != "decoy"@.len());
        assert("mp7"@ != "decoy"@);
        assert("mp7"@.len() != "fists"@.len());
        assert("mp7"@ != "fists"@);
        assert("mp7"@.len() != "flashbang"@.len());
        assert("mp7"@ != "flashbang"@);
        assert("mp7"@.len() != "healthshot"@.len());
        assert("mp7"@ != "healthshot"@);
        assert("mp7"@.len() != "hegrenade"@.len());
        assert("mp7"@ != "hegrenade"@);
        assert("mp7"@.len() != "incgrenade"@.len());
        assert("mp7"@ != "incgrenade"@);
        assert("mp7"@.len() != "knife"@.len());
        assert("mp7"@ != "knife"@);
        assert("mp7"@.len() != "molotov"@.len());
        assert("mp7"@ != "molotov"@);
        assert("mp7"@.len() != "smokegrenade"@.len());
        assert("mp7"@ != "smokegrenade"@);
        assert("mp7"@.len() != "taser"@.len());
        assert("mp7"@ != "taser"@);
    } else if k == 20 {
        assert(firearm_names()[20] == "mp9"@);
        assert("mp9"@.len() != "c4"@.len());
        assert("mp9"@ != "c4"@);
        assert("mp9"@.len() != "decoy"@.len());
        assert("mp9"@ != "decoy"@);
        assert("mp9"@.len() != "fists"@.len());
        assert("mp9"@ != "fists"@);
        assert("mp9"@.len() != "flashbang"@.len());
        assert("mp9"@ != "flashbang"@);
        assert("mp9"@.len() != "healthshot"@.len());
        assert("mp9"@ != "healthshot"@);
        assert("mp9"@.len() != "hegrenade"@.len());
        assert("mp9"@ != "hegrenade"@);
        assert("mp9"@.len() != "incgrenade"@.len());
        assert("mp9"@ != "incgrenade"@);
        assert("mp9"@.len() != "knife"@.len());
        assert("mp9"@ != "knife"@);
        assert("mp9"@.len() != "molotov"@.len());
        assert("mp9"@ != "molotov"@);
        assert("mp9"@.len() != "smokegrenade"@.len());
        assert("mp9"@ != "smokegrenade"@);
        assert("mp9"@.len() != "taser"@.len());
        assert("mp9"@ != "taser"@);
    } else if k == 21 {
        assert(firearm_names()[21] == "negev"@);
        assert("negev"@.len() != "c4"@.len());
        assert("negev"@ != "c4"@);
        assert("negev"@[0] != "decoy"@[0]);
        assert("negev"@ != "decoy"@);
        assert("negev"@[0] != "fists"@[0]);
        assert("negev"@ != "fists"@);
        assert("negev"@.len() != "flashbang"@.len());
        assert("negev"@ != "flashbang"@);
        assert("negev"@.len() != "healthshot"@.len());
        assert("negev"@ != "healthshot"@);
        assert("negev"@.len() != "hegrenade"@.len());
        assert("negev"@ != "hegrenade"@);
        assert("negev"@.len() != "incgrenade"@.len());
        assert("negev"@ != "incgrenade"@);
        assert("negev"@[0] != "knife"@[0]);
        assert("negev"@ != "knife"@);
        assert("negev"@.len() != "molotov"@.len());
        assert("negev"@ != "molotov"@);
        assert("negev"@.len() != "smokegrenade"@.len());
        assert("negev"@ != "smokegrenade"@);
        assert("negev"@[0] != "taser"@[0]);
        assert("negev"@ != "taser"@);
    } else if k == 22 {
        assert(firearm_names()[22] == "nova"@);
        assert("nova"@.len() != "c4"@.len());
        assert("nova"@ != "c4"@);
        assert("nova"@.len() != "decoy"@.len());
        assert("nova"@ != "decoy"@);
        assert("nova"@.len() != "fists"@.len());
        assert("nova"@ != "fists"@);
        assert("nova"@.len() != "flashbang"@.len());
        assert("nova"@ != "flashbang"@);
        assert("nova"@.len() != "healthshot"@.len());
        assert("nova"@ != "healthshot"@);
        assert("nova"@.len() != "hegrenade"@.len());
        assert("nova"@ != "hegrenade"@);
        assert("nova"@.len() != "incgrenade"@.len());
        assert("nova"@ != "incgrenade"@);
        assert("nova"@.len() != "knife"@.len());
        assert("nova"@ != "knife"@);
        assert("nova"@.len() != "molotov"@.len());
        assert("nova"@ != "molotov"@);
        assert("nova"@.len() != "smokegrenade"@.len());
        assert("nova"@ != "smokegrenade"@);
        assert("nova"@.len() != "taser"@.len());
        assert("nova"@ != "taser"@);
    } else if k == 23 {
        assert(firearm_names()[23] == "p250"@);
        assert("p250"@.len() != "c4"@.len());
        assert("p250"@ != "c4"@);
        assert("p250"@.len() != "decoy"@.len());
        assert("p250"@ != "decoy"@);
        assert("p250"@.len() != "fists"@.len());
        assert("p250"@ != "fists"@);
        assert("p250"@.len() != "flashbang"@.len());
        assert("p250"@ != "flashbang"@);
        assert("p250"@.len() != "healthshot"@.len());
        assert("p250"@ != "healthshot"@);
        assert("p250"@.len() != "hegrenade"@.len());
        assert("p250"@ != "hegrenade"@);
        assert("p250"@.len() != "incgrenade"@.len());
        assert("p250"@ != "incgrenade"@);
        assert("p250"@.len() != "knife"@.len());
        assert("p250"@ != "knife"@);
        assert("p250"@.len() != "molotov"@.len());
        assert("p250"@ != "molotov"@);
        assert("p250"@.len() != "smokegrenade"@.len());
        assert("p250"@ != "smokegrenade"@);
        assert("p250"@.len() != "taser"@.len());
        assert("p250"@ != "taser"@);
    } else if k == 24 {
        assert(firearm_names()[24] == "p90"@);
        assert("p90"@.len() != "c4"@.len());
        assert("p90"@ != "c4"@);
        assert("p90"@.len() != "decoy"@.len());
        assert("p90"@ != "decoy"@);
        assert("p90"@.len() != "fists"@.len());
        assert("p90"@ != "fists"@);
        assert("p90"@.len() != "flashbang"@.len());
        assert("p90"@ != "flashbang"@);
        assert("p90"@.len() != "healthshot"@.len());
        assert("p90"@ != "healthshot"@);
        assert("p90"@.len() != "hegrenade"@.len());
        assert("p90"@ != "hegrenade"@);
        assert("p90"@.len() != "incgrenade"@.len());
        assert("p90"@ != "incgrenade"@);
        assert("p90"@.len() != "knife"@.len());
        assert("p90"@ != "knife"@);
        assert("p90"@.len() != "molotov"@.len());
        assert("p90"@ != "molotov"@);
        assert("p90"@.len() != "smokegrenade"@.len());
        assert("p90"@ != "smokegrenade"@);
        assert("p90"@.len() != "taser"@.len());
        assert("p90"@ != "taser"@);
    } else if k == 25 {
        assert(firearm_names()[25] == "revolver"@);
        assert("revolver"@.len() != "c4"@.len());
        assert("revolver"@ != "c4"@);
        assert("revolver"@.len() != "decoy"@.len());
        assert("revolver"@ != "decoy"@);
        assert("revolver"@.len() != "fists"@.len());
        assert("revolver"@ != "fists"@);
        assert("revolver"@.len() != "flashbang"@.len());
        assert("revolver"@ != "flashbang"@);
        assert("revolver"@.len() != "healthshot"@.len());
        assert("revolver"@ != "healthshot"@);
        assert("revolver"@.len() != "hegrenade"@.len());
        assert("revolver"@ != "hegrenade"@);
        assert("revolver"@.len() != "incgrenade"@.len());
        assert("revolver"@ != "incgrenade"@);
        assert("revolver"@.len() != "knife"@.len());
        assert("revolver"@ != "knife"@);
        assert("revolver"@.len() != "molotov"@.len());
        assert("revolver"@ != "molotov"@);
        assert("revolver"@.len() != "smokegrenade"@.len());
        assert("revolver"@ != "smokegrenade"@);
        assert("revolver"@.len() != "taser"@.len());
        assert("revolver"@ != "taser"@);
    } else if k == 26 {
        assert(firearm_names()[26] == "sawedoff"@);
        assert("sawedoff"@.len() != "c4"@.len());
        assert("sawedoff"@ != "c4"@);
        assert("sawedoff"@.len() != "decoy"@.len());
        assert("sawedoff"@ != "decoy"@);
        assert("sawedoff"@.len() != "fists"@.len());
        assert("sawedoff"@ != "fists"@);
        assert("sawedoff"@.len() != "flashbang"@.len());
        assert("sawedoff"@ != "flashbang"@);
        assert("sawedoff"@.len() != "healthshot"@.len());
        assert("sawedoff"@ != "healthshot"@);
        assert("sawedoff"@.len() != "hegrenade"@.len());
        assert("sawedoff"@ != "hegrenade"@);
        assert("sawedoff"@.len() != "incgrenade"@.len());
        assert("sawedoff"@ != "incgrenade"@);
        assert("sawedoff"@.len() != "knife"@.len());
        assert("sawedoff"@ != "knife"@);
        assert("sawedoff"@.len() != "molotov"@.len());
        assert("sawedoff"@ != "molotov"@);
        assert("sawedoff"@.len() != "smokegrenade"@.len());
        assert("sawedoff"@ != "smokegrenade"@);
        assert("sawedoff"@.len() != "taser"@.len());
        assert("sawedoff"@ != "taser"@);
    } else if k == 27 {
        assert(firearm_names()[27] == "scar20"@);
        assert("scar20"@.len() != "c4"@.len());
        assert("scar20"@ != "c4"@);
        assert("scar20"@.len() != "decoy"@.len());
        assert("scar20"@ != "decoy"@);
        assert("scar20"@.len() != "fists"@.len());
        assert("scar20"@ != "fists"@);
        assert("scar20"@.len() != "flashbang"@.len());
        assert("scar20"@ != "flashbang"@);
        assert("scar20"@.len() != "healthshot"@.len());
        assert("scar20"@ != "healthshot"@);
        assert("scar20"@.len() != "hegrenade"@.len());
        assert("scar20"@ != "hegrenade"@);
        assert("scar20"@.len() != "incgrenade"@.len());
        assert("scar20"@ != "incgrenade"@);
        assert("scar20"@.len() != "knife"@.len());
        assert("scar20"@ != "knife"@);
        assert("scar20"@.len() != "molotov"@.len());
        assert("scar20"@ != "molotov"@);
        assert("scar20"@.len() != "smokegrenade"@.len());
        assert("scar20"@ != "smokegrenade"@);
        assert("scar20"@.len() != "taser"@.len());
        assert("scar20"@ != "taser"@);
    } else if k == 28 {
        assert(firearm_names()[28] == "sg556"@);
        assert("sg556"@.len() != "c4"@.len());
        assert("sg556"@ != "c4"@);
        assert("sg556"@[0] != "decoy"@[0]);
        assert("sg556"@ != "decoy"@);
        assert("sg556"@[0] != "fists"@[0]);
        assert("sg556"@ != "fists"@);
        assert("sg556"@.len() != "flashbang"@.len());
        assert("sg556"@ != "flashbang"@);
        assert("sg556"@.len() != "healthshot"@.len());
        assert("sg556"@ != "healthshot"@);
        assert("sg556"@.len() != "hegrenade"@.len());
        assert("sg556"@ != "hegrenade"@);
        assert("sg556"@.len() != "incgrenade"@.len());
        assert("sg556"@ != "incgrenade"@);
        assert("sg556"@[0] != "knife"@[0]);
        assert("sg556"@ != "knife"@);
        assert("sg556"@.len() != "molotov"@.len());
        assert("sg556"@ != "molotov"@);
        assert("sg556"@.len() != "smokegrenade"@.len());
        assert("sg556"@ != "smokegrenade"@);
        assert("sg556"@[0] != "taser"@[0]);
        assert("sg556"@ != "taser"@);
    } else if k == 29 {
        assert(firearm_names()[29] == "ssg08"@);
        assert("ssg08"@.len() != "c4"@.len());
        assert("ssg08"@ != "c4"@);
        assert("ssg08"@[0] != "decoy"@[0]);
        assert("ssg08"@ != "decoy"@);
        assert("ssg08"@[0] != "fists"@[0]);
        assert("ssg08"@ != "fists"@);
        assert("ssg08"@.len() != "flashbang"@.len());
        assert("ssg08"@ != "flashbang"@);
        assert("ssg08"@.len() != "healthshot"@.len());
        assert("ssg08"@ != "healthshot"@);
        assert("ssg08"@.len() != "hegrenade"@.len());
        assert("ssg08"@ != "hegrenade"@);
        assert("ssg08"@.len() != "incgrenade"@.len());
        assert("ssg08"@ != "incgrenade"@);
        assert("ssg08"@[0] != "knife"@[0]);
        assert("ssg08"@ != "knife"@);
        assert("ssg08"@.len() != "molotov"@.len());
        assert("ssg08"@ != "molotov"@);
        assert("ssg08"@.len() != "smokegrenade"@.len());
        assert("ssg08"@ != "smokegrenade"@);
        assert("ssg08"@[0] != "taser"@[0]);
        assert("ssg08"@ != "taser"@);
    } else if k == 30 {
        assert(firearm_names()[30] == "tec9"@);
        assert("tec9"@.len() != "c4"@.len());
        assert("tec9"@ != "c4"@);
        assert("tec9"@.len() != "decoy"@.len());
        assert("tec9"@ != "decoy"@);
        assert("tec9"@.len() != "fists"@.len());
        assert("tec9"@ != "fists"@);
        assert("tec9"@.len() != "flashbang"@.len());
        assert("tec9"@ != "flashbang"@);
        assert("tec9"@.len() != "healthshot"@.len());
        assert("tec9"@ != "healthshot"@);
        assert("tec9"@.len() != "hegrenade"@.len());
        assert("tec9"@ != "hegrenade"@);
        assert("tec9"@.len() != "incgrenade"@.len());
        assert("tec9"@ != "incgrenade"@);
        assert("tec9"@.len() != "knife"@.len());
        assert("tec9"@ != "knife"@);
        assert("tec9"@.len() != "molotov"@.len());
        assert("tec9"@ != "molotov"@);
        assert("tec9"@.len() != "smokegrenade"@.len());
        assert("tec9"@ != "smokegrenade"@);
        assert("tec9"@.len() != "taser"@.len());
        assert("tec9"@ != "taser"@);
    } else if k == 31 {
        assert(firearm_names()[31] == "ump45"@);
        assert("ump45"@.len() != "c4"@.len());
        assert("ump45"@ != "c4"@);
        assert("ump45"@[0] != "decoy"@[0]);
        assert("ump45"@ != "decoy"@);
        assert("ump45"@[0] != "fists"@[0]);
        assert("ump45"@ != "fists"@);
        assert("ump45"@.len() != "flashbang"@.len());
        assert("ump45"@ != "flashbang"@);
        assert("ump45"@.len() != "healthshot"@.len());
        assert("ump45"@ != "healthshot"@);
        assert("ump45"@.len() != "hegrenade"@.len());
        assert("ump45"@ != "hegrenade"@);
        assert("ump45"@.len() != "incgrenade"@.len());
        assert("ump45"@ != "incgrenade"@);
        assert("ump45"@[0] != "knife"@[0]);
        assert("ump45"@ != "knife"@);
        assert("ump45"@.len() != "molotov"@.len());
        assert("ump45"@ != "molotov"@);
        assert("ump45"@.len() != "smokegrenade"@.len());
        assert("ump45"@ != "smokegrenade"@);
        assert("ump45"@[0] != "taser"@[0]);
        assert("ump45"@ != "taser"@);
    } else if k == 32 {
        assert(firearm_names()[32] == "usp_silencer"@);
        assert("usp_silencer"@.len() != "c4"@.len());
        assert("usp_silencer"@ != "c4"@);
        assert("usp_silencer"@.len() != "decoy"@.len());
        assert("usp_silencer"@ != "decoy"@);
        assert("usp_silencer"@.len() != "fists"@.len());
        assert("usp_silencer"@ != "fists"@);
        assert("usp_silencer"@.len() != "flashbang"@.len());
        assert("usp_silencer"@ != "flashbang"@);
        assert("usp_silencer"@.len() != "healthshot"@.len());
        assert("usp_silencer"@ != "healthshot"@);
        assert("usp_silencer"@.len() != "hegrenade"@.len());
        assert("usp_silencer"@ != "hegrenade"@);
        assert("usp_silencer"@.len() != "incgrenade"@.len());
        assert("usp_silencer"@ != "incgrenade"@);
        assert("usp_silencer"@.len() != "knife"@.len());
        assert("usp_silencer"@ != "knife"@);
        assert("usp_silencer"@.len() != "molotov"@.len());
        assert("usp_silencer"@ != "molotov"@);
        assert("usp_silencer"@[0] != "smokegrenade"@[0]);
        assert("usp_silencer"@ != "smokegrenade"@);
        assert("usp_silencer"@.len() != "taser"@.len());
        assert("usp_silencer"@ != "taser"@);
    } else if k == 33 {
        assert(firearm_names()[33] == "xm1014"@);
        assert("xm1014"@.len() != "c4"@.len());
        assert("xm1014"@ != "c4"@);
        assert("xm1014"@.len() != "decoy"@.len());
        assert("xm1014"@ != "decoy"@);
        assert("xm1014"@.len() != "fists"@.len());
        assert("xm1014"@ != "fists"@);
        assert("xm1014"@.len() != "flashbang"@.len());
        assert("xm1014"@ != "flashbang"@);
        assert("xm1014"@.len() != "healthshot"@.len());
        assert("xm1014"@ != "healthshot"@);
        assert("xm1014"@.len() != "hegrenade"@.len());
        assert("xm1014"@ != "hegrenade"@);
        assert("xm1014"@.len() != "incgrenade"@.len());
        assert("xm1014"@ != "incgrenade"@);
        assert("xm1014"@.len() != "knife"@.len());
        assert("xm1014"@ != "knife"@);
        assert("xm1014"@.len() != "molotov"@.len());
        assert("xm1014"@ != "molotov"@);
        assert("xm1014"@.len() != "smokegrenade"@.len());
        assert("xm1014"@ != "smokegrenade"@);
        assert("xm1014"@.len() != "taser"@.len());
        assert("xm1014"@ != "taser"@);
    }
}

/// A name gives a firearm exactly when it is one of the firearm names:
/// every other name, known or not, gives a category that is no firearm.
pub proof fn firearm_exactly_for_firearm_names(name: Seq<char>)
    ensures
        is_firearm(lookup_weapon(name).0) <==> firearm_names().contains(name),
{
    let j = lemma_lookup_index(name, 0);
    assert(weapon_table().len() == 45);
    if is_firearm(lookup_weapon(name).0) {
        assert(j < 45);
        if j == 0 { assert(firearm_names()[0] == weapon_table()[0].0); }
        if j == 1 { assert(firearm_names()[1] == weapon_table()[1].0); }
        if j == 2 { assert(firearm_names()[2] == weapon_table()[2].0); }
        if j == 3 { assert(firearm_names()[3] == weapon_table()[3].0); }
        if j == 5 { assert(firearm_names()[4] == weapon_table()[5].0); }
        if j == 6 { assert(firearm_names()[5] == weapon_table()[6].0); }
        if j == 8 { assert(firearm_names()[6] == weapon_table()[8].0); }
        if j == 10 { assert(firearm_names()[7] == weapon_table()[10].0); }
        if j == 11 { assert(firearm_names()[8] == weapon_table()[11].0); }
        if j == 13 { assert(firearm_names()[9] == weapon_table()[13].0); }
        if j == 14 { assert(firearm_names()[10] == weapon_table()[14].0); }
        if j == 15 { assert(firearm_names()[11] == weapon_table()[15].0); }
        if j == 17 { assert(firearm_names()[12] == weapon_table()[17].0); }
        if j == 21 { assert(firearm_names()[13] == weapon_table()[21].0); }
        if j == 22 { assert(firearm_names()[14] == weapon_table()[22].0); }
        if j == 23 { assert(firearm_names()[15] == weapon_table()[23].0); }
        if j == 24 { assert(firearm_names()[16] == weapon_table()[24].0); }
        if j == 25 { assert(firearm_names()[17] == weapon_table()[25].0); }
        if j == 27 { assert(firearm_names()[18] == weapon_table()[27].0); }
        if j == 28 { assert(firearm_names()[19] == weapon_table()[28].0); }
        if j == 29 { assert(firearm_names()[20] == weapon_table()[29].0); }
        if j == 30 { assert(firearm_names()[21] == weapon_table()[30].0); }
        if j == 31 { assert(firearm_names()[22] == weapon_table()[31].0); }
        if j == 32 { assert(firearm_names()[23] == weapon_table()[32].0); }
        if j == 33 { assert(firearm_names()[24] == weapon_table()[33].0); }
        if j == 34 { assert(firearm_names()[25] == weapon_table()[34].0); }
        if j == 35 { assert(firearm_names()[26] == weapon_table()[35].0); }
        if j == 36 { assert(firearm_names()[27] == weapon_table()[36].0); }
        if j == 37 { assert(firearm_names()[28] == weapon_table()[37].0); }
        if j == 39 { assert(firearm_names()[29] == weapon_table()[39].0); }
        if j == 41 { assert(firearm_names()[30] == weapon_table()[41].0); }
        if j == 42 { assert(firearm_names()[31] == weapon_table()[42].0); }
        if j == 43 { assert(firearm_names()[32] == weapon_table()[43].0); }
        if j == 44 { assert(firearm_names()[33] == weapon_table()[44].0); }
    }
    if firearm_names().contains(name) {
        let m = choose|m: int| 0 <= m < firearm_names().len() && firearm_names()[m] == name;
        if m == 0 { assert(weapon_table()[0].0 == firearm_names()[0]); assert(j <= 0); }
        if m == 1 { assert(weapon_table()[1].0 == firearm_names()[1]); assert(j <= 1); }
        if m == 2 { assert(weapon_table()[2].0 == firearm_names()[2]); assert(j <= 2); }
        if m == 3 { assert(weapon_table()[3].0 == firearm_names()[3]); assert(j <= 3); }
        if m == 4 { assert(weapon_table()[5].0 == firearm_names()[4]); assert(j <= 5); }
        if m == 5 { assert(weapon_table()[6].0 == firearm_names()[5]); assert(j <= 6); }
        if m == 6 { assert(weapon_table()[8].0 == firearm_names()[6]); assert(j <= 8); }
        if m == 7 { assert(weapon_table()[10].0 == firearm_names()[7]); assert(j <= 10); }
        if m == 8 { assert(weapon_table()[11].0 == firearm_names()[8]); assert(j <= 11); }
        if m == 9 { assert(weapon_table()[13].0 == firearm_names()[9]); assert(j <= 13); }
        if m == 10 { assert(weapon_table()[14].0 == firearm_names()[10]); assert(j <= 14); }
        if m == 11 { assert(weapon_table()[15].0 == firearm_names()[11]); assert(j <= 15); }
        if m == 12 { assert(weapon_table()[17].0 == firearm_names()[12]); assert(j <= 17); }
        if m == 13 { assert(weapon_table()[21].0 == firearm_names()[13]); assert(j <= 21); }
        if m == 14 { assert(weapon_table()[22].0 == firearm_names()[14]); assert(j <= 22); }
        if m == 15 { assert(weapon_table()[23].0 == firearm_names()[15]); assert(j <= 23); }
        if m == 16 { assert(weapon_table()[24].0 == firearm_names()[16]); assert(j <= 24); }
        if m == 17 { assert(weapon_table()[25].0 == firearm_names()[17]); assert(j <= 25); }
        if m == 18 { assert(weapon_table()[27].0 == firearm_names()[18]); assert(j <= 27); }
        if m == 19 { assert(weapon_table()[28].0 == firearm_names()[19]); assert(j <= 28); }
        if m == 20 { assert(weapon_table()[29].0 == firearm_names()[20]); assert(j <= 29); }
        if m == 21 { assert(weapon_table()[30].0 == firearm_names()[21]); assert(j <= 30); }
        if m == 22 { assert(weapon_table()[31].0 == firearm_names()[22]); assert(j <= 31); }
        if m == 23 { assert(weapon_table()[32].0 == firearm_names()[23]); assert(j <= 32); }
        if m == 24 { assert(weapon_table()[33].0 == firearm_names()[24]); assert(j <= 33); }
        if m == 25 { assert(weapon_table()[34].0 == firearm_names()[25]); assert(j <= 34); }
        if m == 26 { assert(weapon_table()[35].0 == firearm_names()[26]); assert(j <= 35); }
        if m == 27 { assert(weapon_table()[36].0 == firearm_names()[27]); assert(j <= 36); }
        if m == 28 { assert(weapon_table()[37].0 == firearm_names()[28]); assert(j <= 37); }
        if m == 29 { assert(weapon_table()[39].0 == firearm_names()[29]); assert(j <= 39); }
        if m == 30 { assert(weapon_table()[41].0 == firearm_names()[30]); assert(j <= 41); }
        if m == 31 { assert(weapon_table()[42].0 == firearm_names()[31]); assert(j <= 42); }
        if m == 32 { assert(weapon_table()[43].0 == firearm_names()[32]); assert(j <= 43); }
        if m == 33 { assert(weapon_table()[44].0 == firearm_names()[33]); assert(j <= 44); }
        assert(j < 45);
        if !is_firearm(weapon_table()[j].1) {
            if j == 4 { lemma_firearm_name_differs(m, "c4"@); }
            if j == 7 { lemma_firearm_name_differs(m, "decoy"@); }
            if j == 9 { lemma_firearm_name_differs(m, "fists"@); }
            if j == 12 { lemma_firearm_name_differs(m, "flashbang"@); }
            if j == 16 { lemma_firearm_name_differs(m, "healthshot"@); }
            if j == 18 { lemma_firearm_name_differs(m, "hegrenade"@); }
            if j == 19 { lemma_firearm_name_differs(m, "incgrenade"@); }
            if j == 20 { lemma_firearm_name_differs(m, "knife"@); }
            if j == 26 { lemma_firearm_name_differs(m, "molotov"@); }
            if j == 38 { lemma_firearm_name_differs(m, "smokegrenade"@); }
            if j == 40 { lemma_firearm_name_differs(m, "taser"@); }
            assert(false);
        }
    }
}

/// The characters of `text` in lower case, as `str::to_lowercase` gives
/// them (by the Unicode lowercase mapping, which takes far more than a few
/// lines to state).
pub uninterp spec fn lowercase(text: Seq<char>) -> Seq<char>;

/// `str::to_lowercase`: the text in lower case. The mapping is named, not
/// stated.
#[verifier::external_body]
fn to_lowercase(text: &str) -> (r: String)
    ensures
        r@ == lowercase(text@),
{
    text.to_lowercase()
}

/// `text` with every match of `from`, taken left to right without overlap,
/// replaced by `to`; a text or pattern that is empty is left as it is.
pub open spec fn replace_all(text: Seq<char>, from: Seq<char>, to: Seq<char>) -> Seq<char>
    decreases text.len(),
{
    if text.len() == 0 || from.len() == 0 {
        text
    } else if from.len() <= text.len() && text.subrange(0, from.len() as int) == from {
        to + replace_all(text.subrange(from.len() as int, text.len() as int), from, to)
    } else {
        seq![text[0]] + replace_all(text.subrange(1, text.len() as int), from, to)
    }
}

/// `str::replace`: every match of the non-empty pattern `from`, found left
/// to right without overlap as its documentation describes, replaced by
/// `to`. (An empty pattern, which the library never passes, is left out.)
#[verifier::external_body]
fn replace(text: &str, from: &str, to: &str) -> (r: String)
    requires
        from@.len() > 0,
    ensures
        r@ == replace_all(text@, from@, to@),
{
    text.replace(from, to)
}

/// The display name of an internal weapon name, such as "AK-47" for
/// "ak47"; an unknown name gives an empty display name.
pub fn parse_weapon_name(name: String) -> (r: String)
    ensures
        r@ == lookup_weapon(name@).1,
{
    let (_, display) = parse_weapon(name);
    display.to_string()
}

/// The display name for the weapon name text read from the game: the text
/// in lower case with "weapon_" removed, looked up in the weapon table.
pub open spec fn weapon_display(text: Seq<char>) -> Seq<char> {
    lookup_weapon(replace_all(lowercase(text), "weapon_"@, ""@)).1
}

/// The display name for the weapon name text read from the game.
pub fn weapon_display_name(text: &str) -> (r: String)
    ensures
        r@ == weapon_display(text@),
{
    proof {
        reveal_strlit("weapon_");
    }
    let lower = to_lowercase(text);
    let key = replace(lower.as_str(), "weapon_", "");
    parse_weapon_name(key)
}

/// The weapon table as executable data.
fn weapon_entries() -> (r: [(&'static str, WeaponType, &'static str); 45])
    ensures
        forall|i: int|
            0 <= i < 45 ==> (#[trigger] r@[i]).0@ == weapon_table()[i].0 && r@[i].1
                == weapon_table()[i].1 && r@[i].2@ == weapon_table()[i].2,
{
    let r = [
        ("ak47", WeaponType::Rifle, "AK-47"),
        ("aug", WeaponType::Rifle, "AUG"),
        ("awp", WeaponType::Sniper, "AWP"),
        ("bizon", WeaponType::Submachine, "PP-Bizon"),
        ("c4", WeaponType::Bomb, "Bomb"),
        ("cz75a", WeaponType::Pistol, "CZ-75 Auto"),
        ("deagle", WeaponType::Pistol, "Desert Eagle"),
        ("decoy", WeaponType::Grenade, "Decoy Grenade"),
        ("elite", WeaponType::Pistol, "Dual Berettas"),
        ("fists", WeaponType::Fists, "Fists"),
        ("famas", WeaponType::Rifle, "FAMAS"),
        ("fiveseven", WeaponType::Pistol, "Five-SeveN"),
        ("flashbang", WeaponType::Grenade, "Flashbang"),
        ("g3sg1", WeaponType::Sniper, "G3SG1"),
        ("galilar", WeaponType::Rifle, "Galil AR"),
        ("glock", WeaponType::Pistol, "Glock"),
        ("healthshot", WeaponType::Other, "MediShot"),
        ("hkp2000", WeaponType::Pistol, "P2000"),
        ("hegrenade", WeaponType::Grenade, "Grenade"),
        ("incgrenade", WeaponType::Grenade, "Incendiary"),
        ("knife", WeaponType::Knife, "Knife"),
        ("m249", WeaponType::MachineGun, "M249"),
        ("m4a1", WeaponType::Rifle, "M4A4"),
        ("m4a1_silencer", WeaponType::Rifle, "M4A1-S"),
        ("mac10", WeaponType::Submachine, "MAC-10"),
        ("mag7", WeaponType::Shotgun, "MAG-7"),
        ("molotov", WeaponType::Grenade, "Molotov"),
        ("mp5sd", WeaponType::Submachine, "MP5-SD"),
        ("mp7", WeaponType::Submachine, "MP7"),
        ("mp9", WeaponType::Submachine, "MP9"),
        ("negev", WeaponType::MachineGun, "Negev"),
        ("nova", WeaponType::Shotgun, "Nova"),
        ("p250", WeaponType::Pistol, "P250"),
        ("p90", WeaponType::Submachine, "P90"),
        ("revolver", WeaponType::Pistol, "Revolver"),
        ("sawedoff", WeaponType::Shotgun, "Sawed-Off"),
        ("scar20", WeaponType::Sniper, "SCAR-20"),
        ("sg556", WeaponType::Rifle, "SG556"),
        ("smokegrenade", WeaponType::Grenade, "Smoke"),
        ("ssg08", WeaponType::Sniper, "SSG 08"),
        ("taser", WeaponType::Equipment, "Zeus x27"),
        ("tec9", WeaponType::Pistol, "TEC-9"),
        ("ump45", WeaponType::Submachine, "UMP-45"),
        ("usp_silencer", WeaponType::Pistol, "USP-S"),
        ("xm1014", WeaponType::Shotgun, "XM1014"),
    ];
    r
}

/// Looking up from `from` skips entries whose name differs.
proof fn lemma_lookup_skips(name: Seq<char>, from: int, to: int)
    requires
        0 <= from <= to <= weapon_table().len(),
        forall|j: int| from <= j < to ==> weapon_table()[j].0 != name,
    ensures
        lookup_weapon_from(name, from) == lookup_weapon_from(name, to),
    decreases to - from,
{
    if from < to {
        lemma_lookup_skips(name, from + 1, to);
    }
}

/// Category and display name of an internal weapon name such as `ak47`;
/// unknown names give `Other` and an empty display name.
pub fn parse_weapon(name: String) -> (r: (WeaponType, &'static str))
    ensures
        r.0 == lookup_weapon(name@).0,
        r.1@ == lookup_weapon(name@).1,
{
    let table = weapon_entries();
    let mut i: usize = 0;
    while i < 45
        invariant
            i <= 45,
            weapon_table().len() == 45,
            forall|k: int|
                0 <= k < 45 ==> (#[trigger] table@[k]).0@ == weapon_table()[k].0 && table@[k].1
                    == weapon_table()[k].1 && table@[k].2@ == weapon_table()[k].2,
            forall|j: int| 0 <= j < i ==> weapon_table()[j].0 != name@,
        decreases 45 - i,
    {
        let entry = table[i];
        if str_eq(name.as_str(), entry.0) {
            proof {
                lemma_lookup_skips(name@, 0, i as int);
            }
            return (entry.1, entry.2);
        }
        i = i + 1;
    }
    proof {
        lemma_lookup_skips(name@, 0, 45);
        reveal_strlit("");
    }
    (WeaponType::Other, "")
}

} // verus!
