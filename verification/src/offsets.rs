use vstd::prelude::*;
use crate::game::ModuleOffsets;
use crate::memory::{offset_target, rpm_offset};

verus! {

/// Where the 32-bit displacement of an instruction matched at
/// `match_address` lies: 3 bytes into it; `None` at a null address.
pub fn displacement_address(match_address: u64) -> (r: Option<u64>)
    ensures
        r == offset_target(match_address, 3),
{
    rpm_offset(match_address, 3)
}

/// The global a RIP-relative instruction refers to: the end of the 7-byte
/// instruction plus its displacement; none when that overflows or is null.
pub open spec fn rip_target(match_address: u64, displacement: u32) -> Option<u64> {
    if match_address + 7 + displacement > u64::MAX || match_address + 7 + displacement == 0 {
        None
    } else {
        Some((match_address + 7 + displacement) as u64)
    }
}

/// The address a signature scan leads to. `match_address` is the first
/// match of the signature in the module (none when nothing matched), and
/// `displacement` the 32-bit word read where `displacement_address` points.
/// No match, a null match, a failed read, an overflow or a null result give
/// `None`.
pub fn search_offsets(match_address: Option<u64>, displacement: Option<u32>) -> (r: Option<u64>)
    requires
        match (match_address, displacement) {
            (Some(m), Some(_)) => offset_target(m, 3) is Some ==> m + 7 <= u64::MAX,
            _ => true,
        },
    ensures
        r == match (match_address, displacement) {
            (Some(m), Some(d)) => if offset_target(m, 3) is Some {
                rip_target(m, d)
            } else {
                None
            },
            _ => None,
        },
{
    let m = match match_address {
        None => return None,
        Some(m) => m,
    };
    if displacement_address(m).is_none() {
        return None;
    }
    let d = match displacement {
        None => return None,
        Some(d) => d,
    };
    match (m + 7).checked_add(d as u64) {
        None => None,
        Some(target) => {
            if target != 0 {
                Some(target)
            } else {
                None
            }
        },
    }
}

/// What the signature scans found in `client.dll`: the address each scan
/// led to (none when it failed), and the pointer read at the view-angle
/// scan's address.
#[derive(Clone, Copy, PartialEq, Eq, Structural, Debug)]
pub struct SignatureHits {
    pub entity_list: Option<u64>,
    pub local_player_controller: Option<u64>,
    pub view_matrix: Option<u64>,
    pub view_angles: Option<u64>,
    pub view_angles_memory: Option<u64>,
    pub local_player_pawn: Option<u64>,
    pub planted_c4: Option<u64>,
}

/// `address - base` truncated to 32 bits.
pub open spec fn module_offset(address: int, base: u64) -> u32 {
    (address - base) as u32
}

/// Whether the offset arithmetic stays inside the address space for every
/// scan the update reaches: each address lies at or past the module base,
/// including the shifted view-angle and pawn addresses.
pub open spec fn hits_fit(client_dll: u64, hits: SignatureHits) -> bool {
    client_dll != 0 ==> match hits.entity_list {
        None => true,
        Some(a) => a >= client_dll && match hits.local_player_controller {
            None => true,
            Some(a) => a >= client_dll && match hits.view_matrix {
                None => true,
                Some(a) => a >= client_dll && (hits.view_angles is Some ==> match hits.view_angles_memory {
                    None => true,
                    Some(a) => a + 0x5390 <= u64::MAX && a + 0x5390 >= client_dll
                        && match hits.local_player_pawn {
                        None => true,
                        Some(a) => a + 0x138 <= u64::MAX && a + 0x138 >= client_dll
                            && (hits.planted_c4 matches Some(a) ==> a >= client_dll),
                    },
                }),
            },
        },
    }
}

/// The outcome of updating the offsets from the scans, in the order the
/// scans are made: the offsets after the update and the name of the first
/// step that failed, if any. Each step that succeeds stores its offset
/// before the next is tried.
pub open spec fn offsets_update(offsets: ModuleOffsets, client_dll: u64, hits: SignatureHits) -> (
    ModuleOffsets,
    Option<Seq<char>>,
) {
    if client_dll == 0 {
        (offsets, Some("ClientDLL"@))
    } else {
        match hits.entity_list {
            None => (offsets, Some("EntityList"@)),
            Some(a) => {
                let o1 = ModuleOffsets { entity_list: module_offset(a as int, client_dll), ..offsets };
                match hits.local_player_controller {
                    None => (o1, Some("LocalPlayerController"@)),
                    Some(a) => {
                        let o2 = ModuleOffsets {
                            local_player_controller: module_offset(a as int, client_dll),
                            ..o1
                        };
                        match hits.view_matrix {
                            None => (o2, Some("ViewMatrix"@)),
                            Some(a) => {
                                let o3 = ModuleOffsets { matrix: module_offset(a as int, client_dll), ..o2 };
                                match hits.view_angles {
                                    None => (o3, Some("ViewAngles"@)),
                                    Some(_) => match hits.view_angles_memory {
                                        None => (o3, Some("ViewAnglesMemory"@)),
                                        Some(a) => {
                                            let o4 = ModuleOffsets {
                                                view_angle: module_offset(a + 0x5390, client_dll),
                                                ..o3
                                            };
                                            match hits.local_player_pawn {
                                                None => (o4, Some("LocalPlayerPawn"@)),
                                                Some(a) => {
                                                    let o5 = ModuleOffsets {
                                                        local_player_pawn: module_offset(a + 0x138, client_dll),
                                                        ..o4
                                                    };
                                                    match hits.planted_c4 {
                                                        None => (o5, Some("Bomb"@)),
                                                        Some(a) => (
                                                            ModuleOffsets {
                                                                bomb: module_offset(a as int, client_dll),
                                                                ..o5
                                                            },
                                                            None,
                                                        ),
                                                    }
                                                },
                                            }
                                        },
                                    },
                                }
                            },
                        }
                    },
                }
            },
        }
    }
}

/// The check made before any signature scan: without `client.dll` (a
/// zero module base) the update fails with "ClientDLL" and no scan is
/// made; otherwise `None`, and the scans follow.
pub fn offsets_need_scan(client_dll: u64) -> (r: Option<String>)
    ensures
        r is Some <==> client_dll == 0,
        match r {
            Some(e) => e@ == "ClientDLL"@,
            None => true,
        },
{
    if client_dll == 0 {
        Some("ClientDLL".to_string())
    } else {
        None
    }
}

/// `(address - base) as u32`, for an address at or past the base.
fn offset_from(address: u64, base: u64) -> (r: u32)
    requires
        address >= base,
    ensures
        r == module_offset(address as int, base),
{
    (address - base) as u32
}

/// Updates the scanned offsets from the results of the signature scans in
/// `client.dll` (loaded at `client_dll`, 0 when not found). Returns the name
/// of the first step that failed, or `None` when every offset was updated;
/// the steps before a failure keep their new values.
pub fn update_offsets(offsets: &mut ModuleOffsets, client_dll: u64, hits: &SignatureHits) -> (r: Option<String>)
    requires
        hits_fit(client_dll, *hits),
    ensures
        (*final(offsets), match r {
            Some(s) => Some(s@),
            None => None,
        }) == offsets_update(*old(offsets), client_dll, *hits),
{
    if client_dll == 0 {
        return Some("ClientDLL".to_string());
    }
    match hits.entity_list {
        None => return Some("EntityList".to_string()),
        Some(a) => offsets.entity_list = offset_from(a, client_dll),
    }
    match hits.local_player_controller {
        None => return Some("LocalPlayerController".to_string()),
        Some(a) => offsets.local_player_controller = offset_from(a, client_dll),
    }
    match hits.view_matrix {
        None => return Some("ViewMatrix".to_string()),
        Some(a) => offsets.matrix = offset_from(a, client_dll),
    }
    match hits.view_angles {
        None => return Some("ViewAngles".to_string()),
        Some(_) => match hits.view_angles_memory {
            None => return Some("ViewAnglesMemory".to_string()),
            Some(a) => offsets.view_angle = offset_from(a + 0x5390, client_dll),
        },
    }
    match hits.local_player_pawn {
        None => return Some("LocalPlayerPawn".to_string()),
        Some(a) => offsets.local_player_pawn = offset_from(a + 0x138, client_dll),
    }
    match hits.planted_c4 {
        None => return Some("Bomb".to_string()),
        Some(a) => offsets.bomb = offset_from(a, client_dll),
    }
    None
}

} // verus!
