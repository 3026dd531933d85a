use vstd::prelude::*;
use crate::memory::{offset_target, rpm_offset};
use crate::text::str_eq;

verus! {

/// Offsets of the game's globals inside `client.dll`, as found by the
/// signature scan.
#[derive(Clone, Copy, PartialEq, Eq, Structural, Debug)]
pub struct ModuleOffsets {
    pub entity_list: u32,
    pub matrix: u32,
    pub view_angle: u32,
    pub local_player_controller: u32,
    pub local_player_pawn: u32,
    pub bomb: u32,
    pub force_jump: u32,
    pub global_vars: u32,
}

/// Absolute addresses of the game's globals in the game process.
#[derive(Clone, Copy, PartialEq, Eq, Structural, Debug)]
pub struct Address {
    pub client_dll: u64,
    pub entity_list: u64,
    pub matrix: u64,
    pub view_angle: u64,
    pub entity_list_entry: u64,
    pub local_controller: u64,
    pub local_pawn: u64,
    pub bomb: u64,
    pub force_jump: u64,
    pub global_vars: u64,
}

impl Default for Address {
    fn default() -> (r: Self)
        ensures
            r == (Address {
                client_dll: 0,
                entity_list: 0,
                matrix: 0,
                view_angle: 0,
                entity_list_entry: 0,
                local_controller: 0,
                local_pawn: 0,
                bomb: 0,
                force_jump: 0,
                global_vars: 0,
            }),
    {
        Address {
            client_dll: 0,
            entity_list: 0,
            matrix: 0,
            view_angle: 0,
            entity_list_entry: 0,
            local_controller: 0,
            local_pawn: 0,
            bomb: 0,
            force_jump: 0,
            global_vars: 0,
        }
    }
}

/// Whether every global lies inside the address space when the module is
/// loaded at `client_dll`.
pub open spec fn offsets_fit(client_dll: u64, offsets: ModuleOffsets) -> bool {
    &&& client_dll + offsets.entity_list <= u64::MAX
    &&& client_dll + offsets.matrix <= u64::MAX
    &&& client_dll + offsets.view_angle <= u64::MAX
    &&& client_dll + offsets.local_player_controller <= u64::MAX
    &&& client_dll + offsets.local_player_pawn <= u64::MAX
    &&& client_dll + offsets.bomb <= u64::MAX
    &&& client_dll + offsets.force_jump <= u64::MAX
    &&& client_dll + offsets.global_vars <= u64::MAX
}

/// Sets every global's address from the module base `client_dll` and the
/// scanned offsets; the list entry is left as it was. Succeeds when the
/// module was found (a nonzero base).
pub fn init_game_address(address: &mut Address, client_dll: u64, offsets: &ModuleOffsets) -> (r: bool)
    requires
        offsets_fit(client_dll, *offsets),
    ensures
        r == (client_dll != 0),
        *final(address) == (Address {
            client_dll,
            entity_list: (client_dll + offsets.entity_list) as u64,
            matrix: (client_dll + offsets.matrix) as u64,
            view_angle: (client_dll + offsets.view_angle) as u64,
            entity_list_entry: old(address).entity_list_entry,
            local_controller: (client_dll + offsets.local_player_controller) as u64,
            local_pawn: (client_dll + offsets.local_player_pawn) as u64,
            bomb: (client_dll + offsets.bomb) as u64,
            force_jump: (client_dll + offsets.force_jump) as u64,
            global_vars: (client_dll + offsets.global_vars) as u64,
        }),
{
    address.client_dll = client_dll;
    address.entity_list = client_dll + offsets.entity_list as u64;
    address.matrix = client_dll + offsets.matrix as u64;
    address.view_angle = client_dll + offsets.view_angle as u64;
    address.local_controller = client_dll + offsets.local_player_controller as u64;
    address.local_pawn = client_dll + offsets.local_player_pawn as u64;
    address.bomb = client_dll + offsets.bomb as u64;
    address.force_jump = client_dll + offsets.force_jump as u64;
    address.global_vars = client_dll + offsets.global_vars as u64;
    client_dll != 0
}

/// Where the first entry of the entity list lies, given the list pointer
/// read from `entity_list`: 0x10 bytes into the list; `None` for a null list.
pub fn entity_list_entry_address(list: u64) -> (r: Option<u64>)
    ensures
        r == offset_target(list, 0x10),
{
    rpm_offset(list, 0x10)
}

/// Records the entity list's first entry. `list` is the word read at the
/// `entity_list` address, `entry` the word read where
/// `entity_list_entry_address(list)` points. Any failed read (or a null
/// list) leaves the address set unchanged and fails; otherwise the entry is
/// stored, and the update succeeds when it is nonzero.
pub fn update_entity_list_entry(address: &mut Address, list: Option<u64>, entry: Option<u64>) -> (r: bool)
    ensures
        match (list, entry) {
            (Some(l), Some(e)) => if offset_target(l, 0x10) is Some {
                &&& *final(address) == (Address { entity_list_entry: e, ..*old(address) })
                &&& r == (e != 0)
            } else {
                *final(address) == *old(address) && !r
            },
            _ => *final(address) == *old(address) && !r,
        },
{
    match list {
        None => false,
        Some(l) => match entity_list_entry_address(l) {
            None => false,
            Some(_) => match entry {
                None => false,
                Some(e) => {
                    address.entity_list_entry = e;
                    e != 0
                },
            },
        },
    }
}

/// The value written to the jump command to hold jump down.
pub const FORCE_JUMP_PRESS: i32 = 65537;

/// The value written to the jump command to let jump go.
pub const FORCE_JUMP_RELEASE: i32 = 256;

/// A 32-bit value to write at an address of the game process.
#[derive(Clone, Copy, PartialEq, Eq, Structural, Debug)]
pub struct WordWrite {
    pub address: u64,
    pub value: i32,
}

/// The write that sets the jump command to `value`.
pub fn set_force_jump(address: &Address, value: i32) -> (r: WordWrite)
    ensures
        r == (WordWrite { address: address.force_jump, value }),
{
    WordWrite { address: address.force_jump, value }
}

/// The jump-command values a bunny-hop tick writes, in order: while the key
/// is held and the player is airborne, jump is held; while held on the
/// ground, jump is released, pressed and released again; otherwise it is
/// released.
pub open spec fn bunny_hop_values(toggled: bool, has_flag_in_air: bool) -> Seq<i32> {
    if toggled && has_flag_in_air {
        seq![FORCE_JUMP_PRESS]
    } else if toggled && !has_flag_in_air {
        seq![FORCE_JUMP_RELEASE, FORCE_JUMP_PRESS, FORCE_JUMP_RELEASE]
    } else {
        seq![FORCE_JUMP_RELEASE]
    }
}

/// The writes of one bunny-hop tick, all to the jump command.
pub fn run_bunny_hop(address: &Address, toggled: bool, has_flag_in_air: bool) -> (r: Vec<WordWrite>)
    ensures
        r@.len() == bunny_hop_values(toggled, has_flag_in_air).len(),
        forall|i: int|
            0 <= i < r@.len() ==> r@[i] == (WordWrite {
                address: address.force_jump,
                value: bunny_hop_values(toggled, has_flag_in_air)[i],
            }),
{
    let mut writes: Vec<WordWrite> = Vec::new();
    if toggled && has_flag_in_air {
        writes.push(set_force_jump(address, FORCE_JUMP_PRESS));
    } else if toggled && !has_flag_in_air {
        writes.push(set_force_jump(address, FORCE_JUMP_RELEASE));
        writes.push(set_force_jump(address, FORCE_JUMP_PRESS));
        writes.push(set_force_jump(address, FORCE_JUMP_RELEASE));
    } else {
        writes.push(set_force_jump(address, FORCE_JUMP_RELEASE));
    }
    writes
}

/// A bunny-hop tick always ends with jump released, unless the key is held
/// in the air; it holds jump at some point exactly when the key is held.
pub proof fn bunny_hop_ends_released(toggled: bool, has_flag_in_air: bool)
    ensures
        ({
            let v = bunny_hop_values(toggled, has_flag_in_air);
            &&& v.len() >= 1
            &&& (v.last() == FORCE_JUMP_RELEASE <==> !(toggled && has_flag_in_air))
            &&& (v.contains(FORCE_JUMP_PRESS) <==> toggled)
        }),
{
    let v = bunny_hop_values(toggled, has_flag_in_air);
    if toggled && !has_flag_in_air {
        assert(v[1] == FORCE_JUMP_PRESS);
    } else if toggled {
        assert(v[0] == FORCE_JUMP_PRESS);
    } else {
        assert(forall|i: int| 0 <= i < v.len() ==> v[i] == FORCE_JUMP_RELEASE);
    }
}

/// The address of the flash duration, `flash_duration_offset` bytes into
/// the pawn at `pawn_address`; writing zero there clears a flash.
pub fn run_no_flash(pawn_address: u64, flash_duration_offset: u64) -> (r: u64)
    requires
        pawn_address + flash_duration_offset <= u64::MAX,
    ensures
        r == pawn_address + flash_duration_offset,
{
    pawn_address + flash_duration_offset
}

/// Counts a failed attempt to attach to the game: a process that is not
/// running yet (error "ProcessId") is waited for without counting, any
/// other failure counts. Returns whether to give up: `max_attempts`
/// counted failures have been reached.
pub fn count_attach_failure(failed_attempts: &mut u32, error: &str, max_attempts: u32) -> (give_up: bool)
    requires
        error@ != "ProcessId"@ ==> *old(failed_attempts) < u32::MAX,
    ensures
        *final(failed_attempts) == (if error@ == "ProcessId"@ {
            *old(failed_attempts)
        } else {
            (*old(failed_attempts) + 1) as u32
        }),
        give_up == (*final(failed_attempts) >= max_attempts),
{
    if !str_eq(error, "ProcessId") {
        *failed_attempts = *failed_attempts + 1;
    }
    *failed_attempts >= max_attempts
}

/// Counts a failed attempt to set the game's addresses. Returns whether to
/// give up: `max_attempts` failures have been reached.
pub fn count_init_failure(failed_attempts: &mut u32, max_attempts: u32) -> (give_up: bool)
    requires
        *old(failed_attempts) < u32::MAX,
    ensures
        *final(failed_attempts) == *old(failed_attempts) + 1,
        give_up == (*final(failed_attempts) >= max_attempts),
{
    *failed_attempts = *failed_attempts + 1;
    *failed_attempts >= max_attempts
}

} // verus!
