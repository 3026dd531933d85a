use vstd::prelude::*;
use crate::entity::{entry_offset, entry_offset_of};
use crate::memory::{offset_target, rpm_offset, AddressTrace};

verus! {

/// Field offsets the crosshair check reads: the entity index under the
/// crosshair in the local pawn, and a pawn's team, health and position.
#[derive(Clone, Copy, PartialEq, Eq, Structural, Debug)]
pub struct CrosshairOffsets {
    pub id_ent_index: u64,
    pub team: u64,
    pub health: u64,
    pub origin: u64,
}

/// The offset of the list entry of the block holding `handle`, in the
/// entity list: 0x10 bytes of header and 8 bytes per block of 512.
pub open spec fn crosshair_block_offset(handle: u32) -> u32 {
    (8 * (handle >> 9) + 0x10) as u32
}

/// Where the handle of the entity under the crosshair lies in the local
/// pawn.
pub fn crosshair_handle_address(local_pawn: u64, offsets: &CrosshairOffsets) -> (r: Option<u64>)
    ensures
        r == offset_target(local_pawn, offsets.id_ent_index),
{
    rpm_offset(local_pawn, offsets.id_ent_index)
}

/// The pointer chain from the entity list to the list entry of the block
/// holding `handle`: through the block's offset, then to the entry itself.
pub fn crosshair_list_trace(entity_list: u64, handle: u32) -> (r: AddressTrace)
    ensures
        r.wf(),
        r.base_address() == entity_list,
        r.chain() == seq![crosshair_block_offset(handle), 0u32],
        r.pending() is None,
        !r.finished(),
{
    assert((handle >> 9u32) <= 0x7F_FFFF) by (bit_vector);
    let mut chain: Vec<u32> = Vec::new();
    chain.push(8 * (handle >> 9) + 0x10);
    chain.push(0);
    AddressTrace::new(entity_list, chain)
}

/// Where the pawn of the entity under the crosshair is listed in the list
/// entry `list_entry`.
pub fn crosshair_pawn_address(list_entry: u64, handle: u32) -> (r: Option<u64>)
    ensures
        r == offset_target(list_entry, entry_offset(handle as u64)),
{
    rpm_offset(list_entry, entry_offset_of(handle as u64))
}

/// The crosshair check: whether an entity was found under the crosshair,
/// whether it may be shot (another team, still alive), and its pawn. The
/// reads are, in order: the handle, the list entry (what the list trace led
/// to, 0 when it failed), the pawn, its team, its health, and whether its
/// position was read. A failed read or a null address gives
/// `(false, false, 0)`.
pub open spec fn crosshair_verdict(
    local_team: i32,
    offsets: CrosshairOffsets,
    handle: Option<u32>,
    list_entry: u64,
    pawn: Option<u64>,
    team: Option<i32>,
    health: Option<i32>,
    position_read: bool,
) -> (bool, bool, u64) {
    let ok = {
        &&& handle is Some
        &&& list_entry != 0
        &&& offset_target(list_entry, entry_offset(handle->0 as u64)) is Some
        &&& pawn is Some
        &&& offset_target(pawn->0, offsets.team) is Some
        &&& team is Some
        &&& offset_target(pawn->0, offsets.health) is Some
        &&& health is Some
        &&& offset_target(pawn->0, offsets.origin) is Some
        &&& position_read
    };
    if ok {
        (true, local_team != team->0 && health->0 > 0, pawn->0)
    } else {
        (false, false, 0)
    }
}

/// Which entity is under the crosshair and whether it may be shot, from the
/// reads of the crosshair check.
pub fn crosshair_target(
    local_team: i32,
    offsets: &CrosshairOffsets,
    handle: Option<u32>,
    list_entry: u64,
    pawn: Option<u64>,
    team: Option<i32>,
    health: Option<i32>,
    position_read: bool,
) -> (r: (bool, bool, u64))
    ensures
        r == crosshair_verdict(local_team, *offsets, handle, list_entry, pawn, team, health, position_read),
{
    let h = match handle {
        None => return (false, false, 0),
        Some(h) => h,
    };
    if list_entry == 0 || crosshair_pawn_address(list_entry, h).is_none() {
        return (false, false, 0);
    }
    let p = match pawn {
        None => return (false, false, 0),
        Some(p) => p,
    };
    if rpm_offset(p, offsets.team).is_none() {
        return (false, false, 0);
    }
    let t = match team {
        None => return (false, false, 0),
        Some(t) => t,
    };
    if rpm_offset(p, offsets.health).is_none() {
        return (false, false, 0);
    }
    let hp = match health {
        None => return (false, false, 0),
        Some(hp) => hp,
    };
    if rpm_offset(p, offsets.origin).is_none() || !position_read {
        return (false, false, 0);
    }
    (true, local_team != t && hp > 0, p)
}

/// Only a found entity may be shot, a teammate never may, and nothing is
/// found at a null pawn.
pub proof fn crosshair_shoots_only_enemies(
    local_team: i32,
    offsets: CrosshairOffsets,
    handle: Option<u32>,
    list_entry: u64,
    pawn: Option<u64>,
    team: Option<i32>,
    health: Option<i32>,
    position_read: bool,
)
    ensures
        ({
            let (found, shoot, at) = crosshair_verdict(
                local_team,
                offsets,
                handle,
                list_entry,
                pawn,
                team,
                health,
                position_read,
            );
            &&& (shoot ==> found && team != Some(local_team) && at != 0)
            &&& (pawn == Some(0u64) ==> !found)
        }),
{
}

} // verus!
