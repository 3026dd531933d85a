use vstd::prelude::*;
use crate::entity::{entry_offset, entry_offset_of};
use crate::memory::{offset_target, rpm_offset};

verus! {

/// Field offsets the spectator check reads: the controller's pawn handle,
/// the pawn's observer services, and the observer services' target handle.
#[derive(Clone, Copy, PartialEq, Eq, Structural, Debug)]
pub struct SpectatorOffsets {
    pub pawn_handle: u64,
    pub observer_services: u64,
    pub observer_target: u64,
}

/// The words the spectator check reads, in order; each is `None` when its
/// read failed or was not made.
#[derive(Clone, Copy, PartialEq, Eq, Structural, Debug)]
pub struct SpectatorReads {
    /// The pawn handle, read at `pawn_handle_address`.
    pub pawn_handle: Option<u32>,
    /// The pawn, read at `list_slot_address` of the pawn handle.
    pub pawn: Option<u64>,
    /// The observer services, read at `observer_services_address`.
    pub observer_services: Option<u64>,
    /// The observed target's handle, read at `observer_target_address`.
    pub observer_target: Option<u32>,
    /// The observed target, read at `list_slot_address` of its handle.
    pub target: Option<u64>,
}

/// Where the controller's pawn handle lies.
pub fn pawn_handle_address(controller: u64, offsets: &SpectatorOffsets) -> (r: Option<u64>)
    ensures
        r == offset_target(controller, offsets.pawn_handle),
{
    rpm_offset(controller, offsets.pawn_handle)
}

/// Where the entity a handle designates is listed: its slot in the list
/// entry `list_entry`, 120 bytes per slot.
pub fn list_slot_address(list_entry: u64, handle: u32) -> (r: Option<u64>)
    ensures
        r == offset_target(list_entry, entry_offset(handle as u64)),
{
    rpm_offset(list_entry, entry_offset_of(handle as u64))
}

/// Where a pawn's observer services pointer lies.
pub fn observer_services_address(pawn: u64, offsets: &SpectatorOffsets) -> (r: Option<u64>)
    ensures
        r == offset_target(pawn, offsets.observer_services),
{
    rpm_offset(pawn, offsets.observer_services)
}

/// Where the observed target's handle lies in the observer services.
pub fn observer_target_address(observer_services: u64, offsets: &SpectatorOffsets) -> (r: Option<u64>)
    ensures
        r == offset_target(observer_services, offsets.observer_target),
{
    rpm_offset(observer_services, offsets.observer_target)
}

/// Whether the player of `controller` watches the local player: its pawn
/// has observer services whose target, looked up in the list entry, is the
/// local pawn. Any failed step means no.
pub open spec fn spectating(
    controller: u64,
    list_entry: u64,
    local_pawn: u64,
    offsets: SpectatorOffsets,
    reads: SpectatorReads,
) -> bool {
    &&& offset_target(controller, offsets.pawn_handle) is Some
    &&& reads.pawn_handle is Some
    &&& offset_target(list_entry, entry_offset(reads.pawn_handle->0 as u64)) is Some
    &&& reads.pawn is Some
    &&& offset_target(reads.pawn->0, offsets.observer_services) is Some
    &&& reads.observer_services is Some
    &&& reads.observer_services->0 != 0
    &&& offset_target(reads.observer_services->0, offsets.observer_target) is Some
    &&& reads.observer_target is Some
    &&& offset_target(list_entry, entry_offset(reads.observer_target->0 as u64)) is Some
    &&& reads.target == Some(local_pawn)
}

/// Whether the player of the controller at `controller` is spectating the
/// local player (pawn at `local_pawn`), from the words of `reads`.
pub fn is_spectating(
    controller: u64,
    list_entry: u64,
    local_pawn: u64,
    offsets: &SpectatorOffsets,
    reads: &SpectatorReads,
) -> (r: bool)
    ensures
        r == spectating(controller, list_entry, local_pawn, *offsets, *reads),
{
    if pawn_handle_address(controller, offsets).is_none() {
        return false;
    }
    let handle = match reads.pawn_handle {
        None => return false,
        Some(h) => h,
    };
    if list_slot_address(list_entry, handle).is_none() {
        return false;
    }
    let pawn = match reads.pawn {
        None => return false,
        Some(p) => p,
    };
    if observer_services_address(pawn, offsets).is_none() {
        return false;
    }
    let services = match reads.observer_services {
        None => return false,
        Some(s) => s,
    };
    if services == 0 {
        return false;
    }
    if observer_target_address(services, offsets).is_none() {
        return false;
    }
    let target_handle = match reads.observer_target {
        None => return false,
        Some(t) => t,
    };
    if list_slot_address(list_entry, target_handle).is_none() {
        return false;
    }
    match reads.target {
        None => false,
        Some(target) => target == local_pawn,
    }
}

/// A player is only counted as spectating when the target read is the local
/// pawn itself; with no observer services no one is spectating.
pub proof fn spectating_needs_local_target(
    controller: u64,
    list_entry: u64,
    local_pawn: u64,
    offsets: SpectatorOffsets,
    reads: SpectatorReads,
)
    ensures
        spectating(controller, list_entry, local_pawn, offsets, reads) ==> reads.target == Some(
            local_pawn,
        ),
        reads.observer_services == Some(0u64) ==> !spectating(
            controller,
            list_entry,
            local_pawn,
            offsets,
            reads,
        ),
{
}

} // verus!
