use vstd::prelude::*;
use crate::memory::{AddressTrace, Memory, ReadStep, offset_target, rpm_offset};
use crate::text::{buffer_to_string, until_nul, lossy_utf8};
use crate::weapon::{weapon_display, weapon_display_name};

verus! {

/// Index of a handle's block in the game's entity list.
pub open spec fn handle_block(handle: u64) -> u64 {
    (handle & 0x7FFF) >> 9
}

/// Index of a handle's entry within its block.
pub open spec fn handle_entry(handle: u64) -> u64 {
    handle & 0x1FF
}

/// Offset of a handle's block pointer in the entity list: a 0x10-byte
/// header, then one 8-byte pointer per block.
pub open spec fn block_pointer_offset(handle: u64) -> u64 {
    (0x10 + 8 * handle_block(handle)) as u64
}

/// Offset of a handle's entry in its block: 0x78 bytes per entry.
pub open spec fn entry_offset(handle: u64) -> u64 {
    (0x78 * handle_entry(handle)) as u64
}

proof fn lemma_handle_bounds(handle: u64)
    ensures
        handle_block(handle) <= 63,
        handle_entry(handle) <= 511,
{
    assert((handle & 0x7FFF) >> 9 <= 63) by (bit_vector);
    assert(handle & 0x1FF <= 511) by (bit_vector);
}

/// Offset of a handle's block pointer in the entity list.
pub fn block_pointer_offset_of(handle: u64) -> (r: u64)
    ensures
        r == block_pointer_offset(handle),
        r <= 0x10 + 8 * 63,
{
    proof {
        lemma_handle_bounds(handle);
    }
    0x10 + 8 * ((handle & 0x7FFF) >> 9)
}

/// Offset of a handle's entry in its block.
pub fn entry_offset_of(handle: u64) -> (r: u64)
    ensures
        r == entry_offset(handle),
        r <= 0x78 * 511,
{
    proof {
        lemma_handle_bounds(handle);
    }
    0x78 * (handle & 0x1FF)
}

/// The pawn a controller's pawn handle designates, when every read is
/// answered from `mem`: the handle is read at `handle_offset` into the
/// controller, the list at `entity_list`, the block pointer in the list and
/// the pawn in the block; any failure gives 0.
pub open spec fn pawn_address_in(mem: Memory, controller: u64, handle_offset: u64, entity_list: u64) -> u64 {
    match offset_target(controller, handle_offset) {
        None => 0,
        Some(handle_at) => match mem(handle_at) {
            None => 0,
            Some(handle) => match mem(entity_list) {
                None => 0,
                Some(list) => match offset_target(list, block_pointer_offset(handle)) {
                    None => 0,
                    Some(block_at) => match mem(block_at) {
                        None => 0,
                        Some(block) => match offset_target(block, entry_offset(handle)) {
                            None => 0,
                            Some(pawn_at) => match mem(pawn_at) {
                                None => 0,
                                Some(pawn) => pawn,
                            },
                        },
                    },
                },
            },
        },
    }
}

#[derive(Clone, Copy, PartialEq, Eq, Structural, Debug)]
enum LookupStage {
    Fresh,
    Handle,
    List { handle: u64 },
    Block { handle: u64 },
    Pawn,
    Finished { result: u64 },
}

/// A pawn lookup in progress: which read a controller's pawn lookup waits on.
#[derive(Clone, Copy, Debug)]
pub struct PawnLookup {
    handle_offset: u64,
    entity_list: u64,
    stage: LookupStage,
    pending: u64,
}

impl PawnLookup {
    /// The lookup of the pawn whose handle sits `handle_offset` bytes into
    /// the controller, through the entity list pointer stored at `entity_list`.
    pub fn new(handle_offset: u64, entity_list: u64) -> (r: PawnLookup)
        ensures
            r.is_fresh(),
            r.handle_offset() == handle_offset,
            r.entity_list() == entity_list,
    {
        PawnLookup { handle_offset, entity_list, stage: LookupStage::Fresh, pending: 0 }
    }

    /// Whether the lookup has not asked for any read yet.
    pub closed spec fn is_fresh(&self) -> bool {
        self.stage is Fresh
    }

    /// Whether the lookup has delivered its result.
    pub closed spec fn finished(&self) -> bool {
        self.stage is Finished
    }

    /// Offset of the pawn handle in the controller.
    pub closed spec fn handle_offset(&self) -> u64 {
        self.handle_offset
    }

    /// Address of the entity list pointer.
    pub closed spec fn entity_list(&self) -> u64 {
        self.entity_list
    }

    /// The address whose word the lookup waits for, if any.
    pub closed spec fn pending(&self) -> Option<u64> {
        match self.stage {
            LookupStage::Fresh => None,
            LookupStage::Finished { .. } => None,
            _ => Some(self.pending),
        }
    }

    /// How many reads the lookup may still ask for.
    pub closed spec fn reads_left(&self) -> nat {
        match self.stage {
            LookupStage::Fresh => 4,
            LookupStage::Handle => 3,
            LookupStage::List { .. } => 2,
            LookupStage::Block { .. } => 1,
            LookupStage::Pawn => 0,
            LookupStage::Finished { .. } => 0,
        }
    }

    /// The reply the lookup receives when reads are answered from `mem`.
    pub closed spec fn reply_from(&self, mem: Memory) -> Option<u64> {
        match self.pending() {
            Some(address) => mem(address),
            None => None,
        }
    }

    /// The pawn address the lookup ends with for a controller at
    /// `controller` when every read is answered from `mem`.
    pub closed spec fn remaining(&self, mem: Memory, controller: u64) -> u64 {
        match self.stage {
            LookupStage::Fresh => pawn_address_in(mem, controller, self.handle_offset, self.entity_list),
            LookupStage::Handle => match mem(self.pending) {
                None => 0,
                Some(handle) => self.after_handle(mem, handle),
            },
            LookupStage::List { handle } => match mem(self.pending) {
                None => 0,
                Some(list) => self.after_list(mem, handle, list),
            },
            LookupStage::Block { handle } => match mem(self.pending) {
                None => 0,
                Some(block) => self.after_block(mem, handle, block),
            },
            LookupStage::Pawn => match mem(self.pending) {
                None => 0,
                Some(pawn) => pawn,
            },
            LookupStage::Finished { result } => result,
        }
    }

    /// The pawn found once the block pointer `block` is known.
    closed spec fn after_block(&self, mem: Memory, handle: u64, block: u64) -> u64 {
        match offset_target(block, entry_offset(handle)) {
            None => 0,
            Some(pawn_at) => match mem(pawn_at) {
                None => 0,
                Some(pawn) => pawn,
            },
        }
    }

    /// The pawn found once the list pointer `list` is known.
    closed spec fn after_list(&self, mem: Memory, handle: u64, list: u64) -> u64 {
        match offset_target(list, block_pointer_offset(handle)) {
            None => 0,
            Some(block_at) => match mem(block_at) {
                None => 0,
                Some(block) => self.after_block(mem, handle, block),
            },
        }
    }

    /// The pawn found once the pawn handle is known.
    closed spec fn after_handle(&self, mem: Memory, handle: u64) -> u64 {
        match mem(self.entity_list) {
            None => 0,
            Some(list) => self.after_list(mem, handle, list),
        }
    }

    /// The handle field the lookup leaves for a controller at `controller`
    /// whose handle field holds `handle` now, when every read is answered
    /// from `mem`.
    pub closed spec fn handle_after(&self, mem: Memory, controller: u64, handle: u64) -> u64 {
        match self.stage {
            LookupStage::Fresh => pawn_handle_in(mem, controller, self.handle_offset, handle),
            LookupStage::Handle => match mem(self.pending) {
                None => handle,
                Some(h) => h,
            },
            _ => handle,
        }
    }

    /// One step for a controller at `controller` whose pawn handle field
    /// holds `handle`: the lookup after `reply`, the new handle field, and
    /// what the lookup asks next.
    pub closed spec fn advance(&self, controller: u64, handle: u64, reply: Option<u64>) -> (
        PawnLookup,
        u64,
        ReadStep,
    ) {
        let done = |result: u64|
            (PawnLookup { stage: LookupStage::Finished { result }, pending: 0, ..*self }, ReadStep::Done(result));
        match self.stage {
            LookupStage::Fresh => match offset_target(controller, self.handle_offset) {
                None => { let (l, s) = done(0); (l, handle, s) },
                Some(at) => (
                    PawnLookup { stage: LookupStage::Handle, pending: at, ..*self },
                    handle,
                    ReadStep::Read(at),
                ),
            },
            LookupStage::Handle => match reply {
                None => { let (l, s) = done(0); (l, handle, s) },
                Some(h) => (
                    PawnLookup { stage: LookupStage::List { handle: h }, pending: self.entity_list, ..*self },
                    h,
                    ReadStep::Read(self.entity_list),
                ),
            },
            LookupStage::List { handle: h } => match reply {
                None => { let (l, s) = done(0); (l, handle, s) },
                Some(list) => match offset_target(list, block_pointer_offset(h)) {
                    None => { let (l, s) = done(0); (l, handle, s) },
                    Some(at) => (
                        PawnLookup { stage: LookupStage::Block { handle: h }, pending: at, ..*self },
                        handle,
                        ReadStep::Read(at),
                    ),
                },
            },
            LookupStage::Block { handle: h } => match reply {
                None => { let (l, s) = done(0); (l, handle, s) },
                Some(block) => match offset_target(block, entry_offset(h)) {
                    None => { let (l, s) = done(0); (l, handle, s) },
                    Some(at) => (
                        PawnLookup { stage: LookupStage::Pawn, pending: at, ..*self },
                        handle,
                        ReadStep::Read(at),
                    ),
                },
            },
            LookupStage::Pawn => match reply {
                None => { let (l, s) = done(0); (l, handle, s) },
                Some(pawn) => { let (l, s) = done(pawn); (l, handle, s) },
            },
            LookupStage::Finished { result } => (*self, handle, ReadStep::Done(result)),
        }
    }
}

/// The lookup driven with replies taken from `mem` for a controller at
/// `controller`, for at most `fuel` reads: the pawn address it ends with, or
/// none if it asks for more reads.
pub open spec fn run_lookup(lookup: PawnLookup, mem: Memory, controller: u64, handle: u64, fuel: nat) -> Option<u64>
    decreases fuel,
{
    let (next, next_handle, step) = lookup.advance(controller, handle, lookup.reply_from(mem));
    match step {
        ReadStep::Done(result) => Some(result),
        ReadStep::Read(_) => if fuel == 0 {
            None
        } else {
            run_lookup(next, mem, controller, next_handle, (fuel - 1) as nat)
        },
    }
}

/// Each step of a pawn lookup whose reads are answered from one fixed memory
/// either ends with the pawn that memory determines, or asks for a read at
/// the address it will wait on, keeps that result and has fewer reads left.
pub proof fn pawn_lookup_step_keeps_result(lookup: PawnLookup, mem: Memory, controller: u64, handle: u64)
    ensures
        ({
            let (next, _, step) = lookup.advance(controller, handle, lookup.reply_from(mem));
            &&& next.handle_offset() == lookup.handle_offset()
            &&& next.entity_list() == lookup.entity_list()
            &&& match step {
                ReadStep::Done(result) => result == lookup.remaining(mem, controller) && next.finished(),
                ReadStep::Read(address) => next.pending() == Some(address)
                    && next.remaining(mem, controller) == lookup.remaining(mem, controller)
                    && next.reads_left() < lookup.reads_left(),
            }
        }),
{
}

/// A fresh pawn lookup for the controller at `controller`, with every read
/// answered from one fixed memory, ends after at most four reads with the
/// pawn the controller's handle designates in that memory.
pub proof fn pawn_lookup_finds_pawn(lookup: PawnLookup, mem: Memory, controller: u64, handle: u64)
    requires
        lookup.is_fresh(),
    ensures
        run_lookup(lookup, mem, controller, handle, 4) == Some(
            pawn_address_in(mem, controller, lookup.handle_offset(), lookup.entity_list()),
        ),
{
    lemma_run_lookup(lookup, mem, controller, handle, 4);
}

/// The reply a lookup receives from a memory is that memory's word at the
/// address it waits on, and none when it waits on nothing.
pub proof fn pawn_lookup_reply_is_pending_read(lookup: PawnLookup, mem: Memory)
    ensures
        match lookup.pending() {
            None => lookup.reply_from(mem) is None,
            Some(address) => lookup.reply_from(mem) == mem(address),
        },
{
}

/// The pawn handle a controller at `controller` holds after a lookup, when
/// every read is answered from `mem`: the handle read at `handle_offset`
/// into the controller, or `handle` (what it held before) when that read
/// fails or is not made.
pub open spec fn pawn_handle_in(mem: Memory, controller: u64, handle_offset: u64, handle: u64) -> u64 {
    match offset_target(controller, handle_offset) {
        None => handle,
        Some(at) => match mem(at) {
            None => handle,
            Some(h) => h,
        },
    }
}

/// The handle field after the lookup is driven with replies taken from
/// `mem` for at most `fuel` reads.
pub open spec fn run_lookup_handle(lookup: PawnLookup, mem: Memory, controller: u64, handle: u64, fuel: nat) -> u64
    decreases fuel,
{
    let (next, next_handle, step) = lookup.advance(controller, handle, lookup.reply_from(mem));
    match step {
        ReadStep::Done(_) => next_handle,
        ReadStep::Read(_) => if fuel == 0 {
            next_handle
        } else {
            run_lookup_handle(next, mem, controller, next_handle, (fuel - 1) as nat)
        },
    }
}

/// A fresh lookup for the controller at `controller`, with every read
/// answered from one fixed memory, leaves in the controller's pawn field
/// the handle read from the controller (or the old value when that read
/// fails).
pub proof fn pawn_lookup_stores_handle(lookup: PawnLookup, mem: Memory, controller: u64, handle: u64)
    requires
        lookup.is_fresh(),
    ensures
        run_lookup_handle(lookup, mem, controller, handle, 4) == pawn_handle_in(
            mem,
            controller,
            lookup.handle_offset(),
            handle,
        ),
{
    lemma_run_lookup_handle(lookup, mem, controller, handle, 4);
}

proof fn lemma_run_lookup_handle(lookup: PawnLookup, mem: Memory, controller: u64, handle: u64, fuel: nat)
    requires
        fuel >= lookup.reads_left(),
    ensures
        run_lookup_handle(lookup, mem, controller, handle, fuel) == lookup.handle_after(
            mem,
            controller,
            handle,
        ),
    decreases fuel,
{
    let (next, next_handle, step) = lookup.advance(controller, handle, lookup.reply_from(mem));
    match step {
        ReadStep::Done(_) => {},
        ReadStep::Read(_) => {
            lemma_run_lookup_handle(next, mem, controller, next_handle, (fuel - 1) as nat);
        },
    }
}

proof fn lemma_run_lookup(lookup: PawnLookup, mem: Memory, controller: u64, handle: u64, fuel: nat)
    requires
        fuel >= lookup.reads_left(),
    ensures
        run_lookup(lookup, mem, controller, handle, fuel) == Some(lookup.remaining(mem, controller)),
    decreases fuel,
{
    pawn_lookup_step_keeps_result(lookup, mem, controller, handle);
    let (next, next_handle, step) = lookup.advance(controller, handle, lookup.reply_from(mem));
    match step {
        ReadStep::Done(_) => {},
        ReadStep::Read(_) => {
            lemma_run_lookup(next, mem, controller, next_handle, (fuel - 1) as nat);
        },
    }
}

/// The part of a player's controller the overlay reads.
#[derive(Clone, Debug)]
pub struct PlayerController {
    pub address: u64,
    pub alive_status: i32,
    pub pawn: u64,
    pub team_id: i32,
    pub health: i32,
    pub player_name: String,
}

impl PlayerController {
    /// Stores the "pawn is alive" flag read from the controller; `false`
    /// (and nothing stored) when the read failed or was not attempted.
    pub fn get_is_alive(&mut self, read: Option<i32>) -> (r: bool)
        ensures
            r == (read is Some),
            final(self).alive_status == (match read {
                Some(v) => v,
                None => old(self).alive_status,
            }),
            final(self).address == old(self).address,
            final(self).pawn == old(self).pawn,
            final(self).team_id == old(self).team_id,
            final(self).health == old(self).health,
            final(self).player_name@ == old(self).player_name@,
    {
        match read {
            Some(v) => {
                self.alive_status = v;
                true
            },
            None => false,
        }
    }

    /// Stores the team number read from the controller; `false` (and nothing
    /// stored) when the read failed or was not attempted.
    pub fn get_team_id(&mut self, read: Option<i32>) -> (r: bool)
        ensures
            r == (read is Some),
            final(self).team_id == (match read {
                Some(v) => v,
                None => old(self).team_id,
            }),
            final(self).address == old(self).address,
            final(self).pawn == old(self).pawn,
            final(self).alive_status == old(self).alive_status,
            final(self).health == old(self).health,
            final(self).player_name@ == old(self).player_name@,
    {
        match read {
            Some(v) => {
                self.team_id = v;
                true
            },
            None => false,
        }
    }

    /// Stores the health read from the controller; `false` (and nothing
    /// stored) when the read failed or was not attempted.
    pub fn get_health(&mut self, read: Option<i32>) -> (r: bool)
        ensures
            r == (read is Some),
            final(self).health == (match read {
                Some(v) => v,
                None => old(self).health,
            }),
            final(self).address == old(self).address,
            final(self).pawn == old(self).pawn,
            final(self).alive_status == old(self).alive_status,
            final(self).team_id == old(self).team_id,
            final(self).player_name@ == old(self).player_name@,
    {
        match read {
            Some(v) => {
                self.health = v;
                true
            },
            None => false,
        }
    }

    /// Stores the name from the NUL-terminated buffer read from the
    /// controller; an empty name leaves the previous one. `false` (and
    /// nothing stored) when the read failed.
    pub fn get_player_name(&mut self, buffer: Option<&[u8]>) -> (r: bool)
        ensures
            r == (buffer is Some),
            match buffer {
                Some(b) => if lossy_utf8(until_nul(b@)).len() == 0 {
                    final(self).player_name@ == old(self).player_name@
                } else {
                    final(self).player_name@ == lossy_utf8(until_nul(b@))
                },
                None => final(self).player_name@ == old(self).player_name@,
            },
            final(self).address == old(self).address,
            final(self).pawn == old(self).pawn,
            final(self).alive_status == old(self).alive_status,
            final(self).team_id == old(self).team_id,
            final(self).health == old(self).health,
    {
        match buffer {
            Some(b) => {
                let name = buffer_to_string(b);
                if name.as_str().unicode_len() != 0 {
                    self.player_name = name;
                }
                true
            },
            None => false,
        }
    }

    /// Advances the lookup of this controller's pawn: `reply` answers the
    /// read asked for last (ignored on the first call and after the end).
    /// The pawn handle read along the way is stored in `pawn`.
    pub fn get_player_pawn_address(&mut self, lookup: &mut PawnLookup, reply: Option<u64>) -> (step: ReadStep)
        ensures
            (*final(lookup), final(self).pawn, step) == old(lookup).advance(
                old(self).address,
                old(self).pawn,
                reply,
            ),
            final(self).address == old(self).address,
            final(self).alive_status == old(self).alive_status,
            final(self).team_id == old(self).team_id,
            final(self).health == old(self).health,
            final(self).player_name@ == old(self).player_name@,
    {
        match lookup.stage {
            LookupStage::Fresh => match rpm_offset(self.address, lookup.handle_offset) {
                None => {
                    lookup.stage = LookupStage::Finished { result: 0 };
                    lookup.pending = 0;
                    ReadStep::Done(0)
                },
                Some(at) => {
                    lookup.stage = LookupStage::Handle;
                    lookup.pending = at;
                    ReadStep::Read(at)
                },
            },
            LookupStage::Handle => match reply {
                None => {
                    lookup.stage = LookupStage::Finished { result: 0 };
                    lookup.pending = 0;
                    ReadStep::Done(0)
                },
                Some(h) => {
                    self.pawn = h;
                    lookup.stage = LookupStage::List { handle: h };
                    lookup.pending = lookup.entity_list;
                    ReadStep::Read(lookup.entity_list)
                },
            },
            LookupStage::List { handle } => match reply {
                None => {
                    lookup.stage = LookupStage::Finished { result: 0 };
                    lookup.pending = 0;
                    ReadStep::Done(0)
                },
                Some(list) => match rpm_offset(list, block_pointer_offset_of(handle)) {
                    None => {
                        lookup.stage = LookupStage::Finished { result: 0 };
                        lookup.pending = 0;
                        ReadStep::Done(0)
                    },
                    Some(at) => {
                        lookup.stage = LookupStage::Block { handle };
                        lookup.pending = at;
                        ReadStep::Read(at)
                    },
                },
            },
            LookupStage::Block { handle } => match reply {
                None => {
                    lookup.stage = LookupStage::Finished { result: 0 };
                    lookup.pending = 0;
                    ReadStep::Done(0)
                },
                Some(block) => match rpm_offset(block, entry_offset_of(handle)) {
                    None => {
                        lookup.stage = LookupStage::Finished { result: 0 };
                        lookup.pending = 0;
                        ReadStep::Done(0)
                    },
                    Some(at) => {
                        lookup.stage = LookupStage::Pawn;
                        lookup.pending = at;
                        ReadStep::Read(at)
                    },
                },
            },
            LookupStage::Pawn => match reply {
                None => {
                    lookup.stage = LookupStage::Finished { result: 0 };
                    lookup.pending = 0;
                    ReadStep::Done(0)
                },
                Some(pawn) => {
                    lookup.stage = LookupStage::Finished { result: pawn };
                    lookup.pending = 0;
                    ReadStep::Done(pawn)
                },
            },
            LookupStage::Finished { result } => ReadStep::Done(result),
        }
    }
}

/// Bits of a pawn's flags word.
#[derive(Clone, Copy, PartialEq, Eq, Structural, Debug)]
pub enum Flags {
    /// The pawn is off the ground.
    InAir,
}

impl Flags {
    /// The bit of the flags word this flag stands for.
    pub open spec fn bit(self) -> i32 {
        match self {
            Flags::InAir => 1,
        }
    }

    /// The bit of the flags word this flag stands for.
    pub fn value(self) -> (r: i32)
        ensures
            r == self.bit(),
    {
        match self {
            Flags::InAir => 1,
        }
    }
}

/// The integer part of a player's pawn the overlay reads.
#[derive(Clone, Debug)]
pub struct PlayerPawn {
    pub address: u64,
    pub weapon_name: String,
    pub health: i32,
    pub armor: i32,
    pub fov: i32,
    pub spotted_by_mask: u64,
    pub flags: i32,
}

/// Whether the pawn fields other than the one named by `field` are equal.
pub open spec fn pawn_same_except(a: PlayerPawn, b: PlayerPawn, field: int) -> bool {
    &&& a.address == b.address
    &&& a.weapon_name@ == b.weapon_name@
    &&& (field != 0 ==> a.health == b.health)
    &&& (field != 1 ==> a.armor == b.armor)
    &&& (field != 2 ==> a.fov == b.fov)
    &&& (field != 3 ==> a.spotted_by_mask == b.spotted_by_mask)
    &&& (field != 4 ==> a.flags == b.flags)
}

impl PlayerPawn {
    /// Stores the health read from the pawn; `false` (and nothing stored)
    /// when the read failed or was not attempted.
    pub fn get_health(&mut self, read: Option<i32>) -> (r: bool)
        ensures
            r == (read is Some),
            final(self).health == (match read {
                Some(v) => v,
                None => old(self).health,
            }),
            pawn_same_except(*final(self), *old(self), 0),
    {
        match read {
            Some(v) => {
                self.health = v;
                true
            },
            None => false,
        }
    }

    /// Stores the armor read from the pawn; `false` (and nothing stored)
    /// when the read failed or was not attempted.
    pub fn get_armor(&mut self, read: Option<i32>) -> (r: bool)
        ensures
            r == (read is Some),
            final(self).armor == (match read {
                Some(v) => v,
                None => old(self).armor,
            }),
            pawn_same_except(*final(self), *old(self), 1),
    {
        match read {
            Some(v) => {
                self.armor = v;
                true
            },
            None => false,
        }
    }

    /// Where the field of view lies: `fov_offset` bytes into the camera
    /// services, whose pointer was read from the pawn; `None` for a null
    /// pointer or an overflowing address.
    pub fn fov_address(camera_services: u64, fov_offset: u64) -> (r: Option<u64>)
        ensures
            r == offset_target(camera_services, fov_offset),
    {
        rpm_offset(camera_services, fov_offset)
    }

    /// Stores the field of view: `camera_services` is the pointer read from
    /// the pawn, `read` the word read at `fov_address(camera_services,
    /// fov_offset)`. Fails (nothing stored) when a read failed or the camera
    /// services pointer is null or overflows.
    pub fn get_fov(&mut self, camera_services: Option<u64>, fov_offset: u64, read: Option<i32>) -> (r: bool)
        ensures
            r == (camera_services is Some && offset_target(camera_services->0, fov_offset) is Some
                && read is Some),
            final(self).fov == (if r { read->0 } else { old(self).fov }),
            pawn_same_except(*final(self), *old(self), 2),
    {
        match camera_services {
            None => false,
            Some(services) => match Self::fov_address(services, fov_offset) {
                None => false,
                Some(_) => match read {
                    None => false,
                    Some(v) => {
                        self.fov = v;
                        true
                    },
                },
            },
        }
    }

    /// Stores the mask of players that have spotted the pawn; `false` (and
    /// nothing stored) when the read failed or was not attempted.
    pub fn get_spotted(&mut self, read: Option<u64>) -> (r: bool)
        ensures
            r == (read is Some),
            final(self).spotted_by_mask == (match read {
                Some(v) => v,
                None => old(self).spotted_by_mask,
            }),
            pawn_same_except(*final(self), *old(self), 3),
    {
        match read {
            Some(v) => {
                self.spotted_by_mask = v;
                true
            },
            None => false,
        }
    }

    /// Stores the pawn's flags word; `false` (and nothing stored) when the
    /// read failed or was not attempted.
    pub fn get_f_flags(&mut self, read: Option<i32>) -> (r: bool)
        ensures
            r == (read is Some),
            final(self).flags == (match read {
                Some(v) => v,
                None => old(self).flags,
            }),
            pawn_same_except(*final(self), *old(self), 4),
    {
        match read {
            Some(v) => {
                self.flags = v;
                true
            },
            None => false,
        }
    }

    /// The pointer chain to the held weapon's name: from the clipping-weapon
    /// field, `clipping_weapon_offset` bytes into the pawn, through offsets
    /// 0x10 and 0x20.
    pub fn weapon_name_trace(&self, clipping_weapon_offset: u64) -> (r: AddressTrace)
        requires
            self.address + clipping_weapon_offset <= u64::MAX,
        ensures
            r.wf(),
            r.base_address() == self.address + clipping_weapon_offset,
            r.chain() == seq![0x10u32, 0x20u32, 0x0u32],
            r.pending() is None,
            !r.finished(),
    {
        let mut chain: Vec<u32> = Vec::new();
        chain.push(0x10);
        chain.push(0x20);
        chain.push(0x0);
        AddressTrace::new(self.address + clipping_weapon_offset, chain)
    }

    /// Updates the held weapon's name: `name_address` is where the weapon
    /// name trace led (0 when it failed), `buffer` the bytes read there.
    /// When the pawn already has a name, it becomes the display name of the
    /// text read (lower-cased, without "weapon_"); an empty name stays
    /// empty. Fails (nothing stored) when the trace or the read failed.
    pub fn get_weapon_name(&mut self, name_address: u64, buffer: Option<&[u8]>) -> (r: bool)
        ensures
            r == (name_address != 0 && buffer is Some),
            final(self).weapon_name@ == (if r && old(self).weapon_name@.len() != 0 {
                weapon_display(lossy_utf8(until_nul(buffer->0@)))
            } else {
                old(self).weapon_name@
            }),
            final(self).address == old(self).address,
            final(self).health == old(self).health,
            final(self).armor == old(self).armor,
            final(self).fov == old(self).fov,
            final(self).spotted_by_mask == old(self).spotted_by_mask,
            final(self).flags == old(self).flags,
    {
        if name_address == 0 {
            return false;
        }
        match buffer {
            None => false,
            Some(b) => {
                let text = buffer_to_string(b);
                if self.weapon_name.as_str().unicode_len() != 0 {
                    self.weapon_name = weapon_display_name(text.as_str());
                }
                true
            },
        }
    }

    /// Whether the pawn's flags word has the flag's bit set.
    pub fn has_flag(&self, flag: Flags) -> (r: bool)
        ensures
            r == (self.flags & flag.bit() != 0),
    {
        self.flags & flag.value() != 0
    }
}

/// What the pawn update read, in order: whether the camera position,
/// position and view angle were read (`positions`); where the weapon name
/// trace led and the bytes read there; health; armor; the camera services
/// pointer, the field-of-view offset in it and the field of view read
/// there; the spotted mask; the flags word; and whether the bones were read.
#[derive(Clone, Debug)]
pub struct PawnReads {
    pub positions: bool,
    pub weapon_name_address: u64,
    pub weapon_name: Option<Vec<u8>>,
    pub health: Option<i32>,
    pub armor: Option<i32>,
    pub camera_services: Option<u64>,
    pub fov_offset: u64,
    pub fov: Option<i32>,
    pub spotted_by_mask: Option<u64>,
    pub flags: Option<i32>,
    pub bones: bool,
}

/// Whether the first `k` steps of a pawn update succeed: a nonzero address,
/// the positions, the weapon name, health, armor, field of view, spotted
/// mask, flags and bones.
pub open spec fn pawn_steps_ok(pawn_address: u64, reads: PawnReads, k: int) -> bool {
    &&& (k >= 1 ==> pawn_address != 0)
    &&& (k >= 2 ==> reads.positions)
    &&& (k >= 3 ==> reads.weapon_name_address != 0 && reads.weapon_name is Some)
    &&& (k >= 4 ==> reads.health is Some)
    &&& (k >= 5 ==> reads.armor is Some)
    &&& (k >= 6 ==> reads.camera_services is Some && offset_target(
        reads.camera_services->0,
        reads.fov_offset,
    ) is Some && reads.fov is Some)
    &&& (k >= 7 ==> reads.spotted_by_mask is Some)
    &&& (k >= 8 ==> reads.flags is Some)
    &&& (k >= 9 ==> reads.bones)
}

/// A player: its controller and its pawn.
#[derive(Clone, Debug)]
pub struct Entity {
    pub controller: PlayerController,
    pub pawn: PlayerPawn,
}

impl Entity {
    /// Points the entity at the controller at `controller_address` and
    /// stores what was read from it: `alive`, `team` and `name` are the
    /// reads of the alive flag, the team number and the name buffer. A null
    /// address, or the first failed read, stops the update and fails; the
    /// fields stored before it stay. The pawn lookup follows separately.
    pub fn update_controller(
        &mut self,
        controller_address: u64,
        alive: Option<i32>,
        team: Option<i32>,
        name: Option<&[u8]>,
    ) -> (r: bool)
        ensures
            r == (controller_address != 0 && alive is Some && team is Some && name is Some),
            final(self).controller.address == (if controller_address != 0 {
                controller_address
            } else {
                old(self).controller.address
            }),
            final(self).controller.alive_status == (if controller_address != 0 && alive is Some {
                alive->0
            } else {
                old(self).controller.alive_status
            }),
            final(self).controller.team_id == (if controller_address != 0 && alive is Some
                && team is Some {
                team->0
            } else {
                old(self).controller.team_id
            }),
            final(self).controller.player_name@ == (if r && lossy_utf8(until_nul(name->0@)).len()
                != 0 {
                lossy_utf8(until_nul(name->0@))
            } else {
                old(self).controller.player_name@
            }),
            final(self).controller.pawn == old(self).controller.pawn,
            final(self).controller.health == old(self).controller.health,
            final(self).pawn.address == old(self).pawn.address,
            final(self).pawn.weapon_name@ == old(self).pawn.weapon_name@,
            final(self).pawn.health == old(self).pawn.health,
            final(self).pawn.armor == old(self).pawn.armor,
            final(self).pawn.fov == old(self).pawn.fov,
            final(self).pawn.spotted_by_mask == old(self).pawn.spotted_by_mask,
            final(self).pawn.flags == old(self).pawn.flags,
    {
        if controller_address == 0 {
            return false;
        }
        self.controller.address = controller_address;
        if !self.controller.get_is_alive(alive) {
            return false;
        }
        if !self.controller.get_team_id(team) {
            return false;
        }
        self.controller.get_player_name(name)
    }

    /// Points the entity at the pawn at `pawn_address` and stores what was
    /// read from it, in the order the reads are made. A null address, or
    /// the first failed step, stops the update and fails; the fields stored
    /// before it stay.
    pub fn update_pawn(&mut self, pawn_address: u64, reads: &PawnReads) -> (r: bool)
        ensures
            r == pawn_steps_ok(pawn_address, *reads, 9),
            final(self).pawn.address == (if pawn_address != 0 {
                pawn_address
            } else {
                old(self).pawn.address
            }),
            final(self).pawn.weapon_name@ == (if pawn_steps_ok(pawn_address, *reads, 3)
                && old(self).pawn.weapon_name@.len() != 0 {
                weapon_display(lossy_utf8(until_nul(reads.weapon_name->0@)))
            } else {
                old(self).pawn.weapon_name@
            }),
            final(self).pawn.health == (if pawn_steps_ok(pawn_address, *reads, 4) {
                reads.health->0
            } else {
                old(self).pawn.health
            }),
            final(self).pawn.armor == (if pawn_steps_ok(pawn_address, *reads, 5) {
                reads.armor->0
            } else {
                old(self).pawn.armor
            }),
            final(self).pawn.fov == (if pawn_steps_ok(pawn_address, *reads, 6) {
                reads.fov->0
            } else {
                old(self).pawn.fov
            }),
            final(self).pawn.spotted_by_mask == (if pawn_steps_ok(pawn_address, *reads, 7) {
                reads.spotted_by_mask->0
            } else {
                old(self).pawn.spotted_by_mask
            }),
            final(self).pawn.flags == (if pawn_steps_ok(pawn_address, *reads, 8) {
                reads.flags->0
            } else {
                old(self).pawn.flags
            }),
            final(self).controller.address == old(self).controller.address,
            final(self).controller.alive_status == old(self).controller.alive_status,
            final(self).controller.team_id == old(self).controller.team_id,
            final(self).controller.pawn == old(self).controller.pawn,
            final(self).controller.health == old(self).controller.health,
            final(self).controller.player_name@ == old(self).controller.player_name@,
    {
        if pawn_address == 0 {
            return false;
        }
        self.pawn.address = pawn_address;
        if !reads.positions {
            return false;
        }
        let name = match &reads.weapon_name {
            Some(v) => Some(v.as_slice()),
            None => None,
        };
        if !self.pawn.get_weapon_name(reads.weapon_name_address, name) {
            return false;
        }
        if !self.pawn.get_health(reads.health) {
            return false;
        }
        if !self.pawn.get_armor(reads.armor) {
            return false;
        }
        if !self.pawn.get_fov(reads.camera_services, reads.fov_offset, reads.fov) {
            return false;
        }
        if !self.pawn.get_spotted(reads.spotted_by_mask) {
            return false;
        }
        if !self.pawn.get_f_flags(reads.flags) {
            return false;
        }
        reads.bones
    }

    /// Advances the lookup of the controller's pawn, as the controller
    /// update ends: `reply` answers the read asked for last. The pawn handle
    /// read on the way is stored in the controller; when the lookup ends,
    /// the pawn it found (0 when none) becomes the pawn's address.
    pub fn update_pawn_address(&mut self, lookup: &mut PawnLookup, reply: Option<u64>) -> (step: ReadStep)
        ensures
            (*final(lookup), final(self).controller.pawn, step) == old(lookup).advance(
                old(self).controller.address,
                old(self).controller.pawn,
                reply,
            ),
            final(self).pawn.address == (match step {
                ReadStep::Done(pawn) => pawn,
                ReadStep::Read(_) => old(self).pawn.address,
            }),
            final(self).controller.address == old(self).controller.address,
            final(self).controller.alive_status == old(self).controller.alive_status,
            final(self).controller.team_id == old(self).controller.team_id,
            final(self).controller.health == old(self).controller.health,
            final(self).controller.player_name@ == old(self).controller.player_name@,
            final(self).pawn.weapon_name@ == old(self).pawn.weapon_name@,
            final(self).pawn.health == old(self).pawn.health,
            final(self).pawn.armor == old(self).pawn.armor,
            final(self).pawn.fov == old(self).pawn.fov,
            final(self).pawn.spotted_by_mask == old(self).pawn.spotted_by_mask,
            final(self).pawn.flags == old(self).pawn.flags,
    {
        let step = self.controller.get_player_pawn_address(lookup, reply);
        if let ReadStep::Done(pawn) = step {
            self.pawn.address = pawn;
        }
        step
    }

    /// Whether the player is alive: the controller says its pawn lives and
    /// the pawn has health left.
    pub fn is_alive(&self) -> (r: bool)
        ensures
            r == (self.controller.alive_status == 1 && self.pawn.health > 0),
    {
        self.controller.alive_status == 1 && self.pawn.health > 0
    }
}

/// Whether bit `index` of `mask` is set.
pub open spec fn mask_has(mask: u64, index: u64) -> bool {
    (mask >> index) % 2 == 1
}

/// Whether an enemy counts as visible: the enemy's spotted mask has the
/// local player's bit, or the local player's spotted mask has the enemy's
/// index `i`.
pub fn is_enemy_visible(b_spotted_by_mask: u64, local_b_spotted_by_mask: u64, local_player_controller_index: u64, i: u64) -> (r: bool)
    requires
        local_player_controller_index < 64,
        i < 64,
    ensures
        r == (mask_has(b_spotted_by_mask, local_player_controller_index) || mask_has(
            local_b_spotted_by_mask,
            i,
        )),
{
    let a = b_spotted_by_mask & (1u64 << local_player_controller_index);
    let b = local_b_spotted_by_mask & (1u64 << i);
    proof {
        let k = local_player_controller_index;
        let m = b_spotted_by_mask;
        assert((m & (1u64 << k) != 0) == ((m >> k) % 2 == 1)) by (bit_vector)
            requires k < 64;
        let n = local_b_spotted_by_mask;
        assert((n & (1u64 << i) != 0) == ((n >> i) % 2 == 1)) by (bit_vector)
            requires i < 64;
    }
    a != 0 || b != 0
}

/// A growable array of the game: its element count and the address of its
/// elements.
#[derive(Clone, Copy, PartialEq, Eq, Structural, Debug)]
pub struct CUtlVector {
    pub count: u64,
    pub data: u64,
}

/// Size in bytes of one entry of the aim-punch cache (three 32-bit floats).
pub const PUNCH_ENTRY_SIZE: u64 = 12;

/// Whether an aim-punch cache's count is usable: at least one entry and at
/// most 0xFFFF.
pub open spec fn punch_count_ok(cache: CUtlVector) -> bool {
    0 < cache.count <= 0xFFFF
}

/// Where the latest aim punch lies: the last entry of the cache; `None`
/// when the count is unusable.
pub fn punch_address(cache: &CUtlVector) -> (r: Option<u64>)
    requires
        punch_count_ok(*cache) ==> cache.data + (cache.count - 1) * PUNCH_ENTRY_SIZE <= u64::MAX,
    ensures
        r == (if punch_count_ok(*cache) {
            Some((cache.data + (cache.count - 1) * PUNCH_ENTRY_SIZE) as u64)
        } else {
            None
        }),
{
    if cache.count == 0 || cache.count > 0xFFFF {
        None
    } else {
        Some(cache.data + (cache.count - 1) * PUNCH_ENTRY_SIZE)
    }
}

} // verus!
