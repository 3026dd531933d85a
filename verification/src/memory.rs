use vstd::prelude::*;

verus! {

/// Largest value of a 64-bit address plus one.
pub open spec fn address_space() -> int {
    0x1_0000_0000_0000_0000
}

/// `a + b` wrapped around the 64-bit address space.
pub open spec fn wrap_add(a: u64, b: u64) -> u64 {
    if a + b > u64::MAX {
        (a + b - address_space()) as u64
    } else {
        (a + b) as u64
    }
}

/// The address `offset` bytes past `address`, or none where no read is
/// attempted: a null base, or a sum past the end of the address space.
pub open spec fn offset_target(address: u64, offset: u64) -> Option<u64> {
    if address == 0 || address + offset > u64::MAX {
        None
    } else {
        Some((address + offset) as u64)
    }
}

/// Where to read a field `offset` bytes into the object at `address`;
/// `None` when the read must not be attempted (null base or overflow).
pub fn rpm_offset(address: u64, offset: u64) -> (r: Option<u64>)
    ensures
        r == offset_target(address, offset),
{
    match address.checked_add(offset) {
        Some(sum) => {
            if address != 0 {
                Some(sum)
            } else {
                None
            }
        },
        None => None,
    }
}

/// A view of another process's memory: the 64-bit word at an address, or
/// none where the read fails.
pub type Memory = spec_fn(u64) -> Option<u64>;

/// Following a pointer chain from the word `value` just read, with the
/// offsets from index `k` on: each offset but the last is added to the
/// current pointer and the word there read; the last is added to the final
/// pointer. Any failed read, null pointer or overflow ends the chain at 0.
pub open spec fn walk(mem: Memory, value: u64, offsets: Seq<u32>, k: int) -> u64
    decreases offsets.len() - k,
{
    if k + 1 >= offsets.len() {
        if value == 0 {
            0
        } else {
            wrap_add(value, offsets.last() as u64)
        }
    } else {
        match offset_target(value, offsets[k] as u64) {
            None => 0,
            Some(target) => match mem(target) {
                None => 0,
                Some(next) => walk(mem, next, offsets, k + 1),
            },
        }
    }
}

/// The address a pointer chain leads to: with no offsets the base itself,
/// otherwise the word at the base followed through the offsets, 0 on failure.
pub open spec fn trace_result(mem: Memory, base: u64, offsets: Seq<u32>) -> u64 {
    if offsets.len() == 0 {
        base
    } else {
        match mem(base) {
            None => 0,
            Some(value) => walk(mem, value, offsets, 0),
        }
    }
}

/// What a read-driven computation asks of its caller next.
#[derive(Clone, Copy, PartialEq, Eq, Structural, Debug)]
pub enum ReadStep {
    /// Read the word at this address and pass it to the next step.
    Read(u64),
    /// The computation is done with this result.
    Done(u64),
}

#[derive(Clone, Copy, PartialEq, Eq, Structural, Debug)]
enum TracePhase {
    Fresh,
    Awaiting { address: u64, replies: usize },
    Finished { result: u64 },
}

/// A pointer chain being followed one read at a time: the caller performs
/// each requested read and hands back its result.
#[derive(Debug)]
pub struct AddressTrace {
    base: u64,
    offsets: Vec<u32>,
    phase: TracePhase,
}

impl AddressTrace {
    /// The address the chain starts from.
    pub closed spec fn base_address(&self) -> u64 {
        self.base
    }

    /// The offsets the chain follows.
    pub closed spec fn chain(&self) -> Seq<u32> {
        self.offsets@
    }

    /// Phases are consistent with the chain's length.
    pub closed spec fn wf(&self) -> bool {
        &&& self.offsets@.len() <= usize::MAX
        &&& match self.phase {
            TracePhase::Awaiting { replies, .. } => self.offsets@.len() >= 1 && replies + 1
                <= self.offsets@.len(),
            _ => true,
        }
    }

    /// The address whose word the trace waits for, if any.
    pub closed spec fn pending(&self) -> Option<u64> {
        match self.phase {
            TracePhase::Awaiting { address, .. } => Some(address),
            _ => None,
        }
    }

    /// Whether the trace has delivered its result.
    pub closed spec fn finished(&self) -> bool {
        self.phase is Finished
    }

    /// The result the trace ends with when every read is answered from `mem`.
    pub closed spec fn remaining(&self, mem: Memory) -> u64 {
        match self.phase {
            TracePhase::Fresh => trace_result(mem, self.base, self.offsets@),
            TracePhase::Awaiting { address, replies } => match mem(address) {
                None => 0,
                Some(value) => walk(mem, value, self.offsets@, replies as int),
            },
            TracePhase::Finished { result } => result,
        }
    }

    /// How many reads the trace may still ask for.
    pub closed spec fn reads_left(&self) -> nat {
        match self.phase {
            TracePhase::Fresh => self.offsets@.len(),
            TracePhase::Awaiting { replies, .. } => (self.offsets@.len() - 1 - replies) as nat,
            TracePhase::Finished { .. } => 0,
        }
    }

    /// The reply the trace receives when reads are answered from `mem`.
    pub closed spec fn reply_from(&self, mem: Memory) -> Option<u64> {
        match self.phase {
            TracePhase::Awaiting { address, .. } => mem(address),
            _ => None,
        }
    }

    /// One step: the trace state after receiving `reply` and what it asks next.
    pub closed spec fn advance(&self, reply: Option<u64>) -> (AddressTrace, ReadStep) {
        match self.phase {
            TracePhase::Fresh => {
                if self.offsets@.len() == 0 {
                    (
                        AddressTrace { phase: TracePhase::Finished { result: self.base }, ..*self },
                        ReadStep::Done(self.base),
                    )
                } else {
                    (
                        AddressTrace {
                            phase: TracePhase::Awaiting { address: self.base, replies: 0 },
                            ..*self
                        },
                        ReadStep::Read(self.base),
                    )
                }
            },
            TracePhase::Awaiting { address, replies } => match reply {
                None => (
                    AddressTrace { phase: TracePhase::Finished { result: 0 }, ..*self },
                    ReadStep::Done(0),
                ),
                Some(value) => {
                    if replies + 1 >= self.offsets@.len() {
                        let result = if value == 0 {
                            0
                        } else {
                            wrap_add(value, self.offsets@.last() as u64)
                        };
                        (
                            AddressTrace { phase: TracePhase::Finished { result }, ..*self },
                            ReadStep::Done(result),
                        )
                    } else {
                        match offset_target(value, self.offsets@[replies as int] as u64) {
                            None => (
                                AddressTrace { phase: TracePhase::Finished { result: 0 }, ..*self },
                                ReadStep::Done(0),
                            ),
                            Some(target) => (
                                AddressTrace {
                                    phase: TracePhase::Awaiting {
                                        address: target,
                                        replies: (replies + 1) as usize,
                                    },
                                    ..*self
                                },
                                ReadStep::Read(target),
                            ),
                        }
                    }
                },
            },
            TracePhase::Finished { result } => (*self, ReadStep::Done(result)),
        }
    }

    /// Starts following the chain `offsets` from `base_address`.
    pub fn new(base_address: u64, offsets: Vec<u32>) -> (r: AddressTrace)
        ensures
            r.wf(),
            r.base_address() == base_address,
            r.chain() == offsets@,
            r.pending() is None,
            !r.finished(),
            forall|mem: Memory| r.remaining(mem) == trace_result(mem, base_address, offsets@),
            r.reads_left() == offsets@.len(),
    {
        let count = offsets.len();
        assert(count == offsets@.len());
        AddressTrace { base: base_address, offsets, phase: TracePhase::Fresh }
    }
}

/// Advances a pointer-chain trace: `reply` answers the read the trace asked
/// for last (it is ignored on the first call and after the end), and the
/// result says what to read next or where the chain led.
pub fn trace_address(trace: &mut AddressTrace, reply: Option<u64>) -> (step: ReadStep)
    requires
        old(trace).wf(),
    ensures
        final(trace).wf(),
        (*final(trace), step) == old(trace).advance(reply),
{
    match trace.phase {
        TracePhase::Fresh => {
            if trace.offsets.len() == 0 {
                trace.phase = TracePhase::Finished { result: trace.base };
                ReadStep::Done(trace.base)
            } else {
                trace.phase = TracePhase::Awaiting { address: trace.base, replies: 0 };
                ReadStep::Read(trace.base)
            }
        },
        TracePhase::Awaiting { address: _, replies } => match reply {
            None => {
                trace.phase = TracePhase::Finished { result: 0 };
                ReadStep::Done(0)
            },
            Some(value) => {
                let n = trace.offsets.len();
                if replies + 1 >= n {
                    let result = if value == 0 {
                        0
                    } else {
                        value.wrapping_add(trace.offsets[n - 1] as u64)
                    };
                    trace.phase = TracePhase::Finished { result };
                    ReadStep::Done(result)
                } else {
                    match rpm_offset(value, trace.offsets[replies] as u64) {
                        None => {
                            trace.phase = TracePhase::Finished { result: 0 };
                            ReadStep::Done(0)
                        },
                        Some(target) => {
                            trace.phase = TracePhase::Awaiting { address: target, replies: replies + 1 };
                            ReadStep::Read(target)
                        },
                    }
                }
            },
        },
        TracePhase::Finished { result } => ReadStep::Done(result),
    }
}

/// The trace driven with replies taken from `mem`, for at most `fuel` reads:
/// the address it ends with, or none if it asks for more reads.
pub open spec fn run_trace(trace: AddressTrace, mem: Memory, fuel: nat) -> Option<u64>
    decreases fuel,
{
    let (next, step) = trace.advance(trace.reply_from(mem));
    match step {
        ReadStep::Done(result) => Some(result),
        ReadStep::Read(_) => if fuel == 0 {
            None
        } else {
            run_trace(next, mem, (fuel - 1) as nat)
        },
    }
}

/// Each step of a trace whose reads are answered from one fixed memory
/// either ends with the result that memory determines, or asks for a read
/// at the address it will wait on, keeps that result and has fewer reads left.
pub proof fn trace_step_keeps_result(trace: AddressTrace, mem: Memory)
    requires
        trace.wf(),
    ensures
        ({
            let (next, step) = trace.advance(trace.reply_from(mem));
            &&& next.wf()
            &&& match step {
                ReadStep::Done(result) => result == trace.remaining(mem) && next.finished()
                    && next.remaining(mem) == result,
                ReadStep::Read(address) => next.pending() == Some(address)
                    && next.remaining(mem) == trace.remaining(mem) && next.reads_left()
                    < trace.reads_left(),
            }
        }),
{
}

/// The reply a trace receives from a memory is that memory's word at the
/// address it waits on, and none when it waits on nothing.
pub proof fn trace_reply_is_pending_read(trace: AddressTrace, mem: Memory)
    ensures
        match trace.pending() {
            None => trace.reply_from(mem) is None,
            Some(address) => trace.reply_from(mem) == mem(address),
        },
{
}

/// A trace started on `base` and `offsets`, with every read answered from
/// one fixed memory, ends after at most `offsets.len()` reads with the
/// address the pointer chain leads to in that memory.
pub proof fn trace_address_follows_chain(base: u64, offsets: Seq<u32>, trace: AddressTrace, mem: Memory)
    requires
        trace.wf(),
        trace.pending() is None,
        !trace.finished(),
        trace.base_address() == base,
        trace.chain() == offsets,
    ensures
        run_trace(trace, mem, offsets.len()) == Some(trace_result(mem, base, offsets)),
{
    lemma_run_trace(trace, mem, offsets.len());
}

proof fn lemma_run_trace(trace: AddressTrace, mem: Memory, fuel: nat)
    requires
        trace.wf(),
        fuel >= trace.reads_left(),
    ensures
        run_trace(trace, mem, fuel) == Some(trace.remaining(mem)),
    decreases fuel,
{
    trace_step_keeps_result(trace, mem);
    let (next, step) = trace.advance(trace.reply_from(mem));
    match step {
        ReadStep::Done(_) => {},
        ReadStep::Read(_) => {
            lemma_run_trace(next, mem, (fuel - 1) as nat);
        },
    }
}

/// The game process the overlay is attached to.
#[derive(Clone, Copy, PartialEq, Eq, Structural, Debug)]
pub struct Process {
    pub attached: bool,
    /// The raw value of the process handle (0 when none is open).
    pub h_process: isize,
    pub process_id: u32,
    pub module_address: u64,
}

impl Process {
    /// A process record that is not attached to anything.
    pub fn detached() -> (r: Process)
        ensures
            r == (Process { attached: false, h_process: 0, process_id: 0, module_address: 0 }),
    {
        Process { attached: false, h_process: 0, process_id: 0, module_address: 0 }
    }
}

/// Whether a raw handle value refers to an open handle: neither null nor
/// the `INVALID_HANDLE_VALUE` sentinel (-1).
pub open spec fn handle_is_valid(handle: isize) -> bool {
    handle != 0 && handle != -1
}

/// Detaching: the record afterwards, and the handle to close, if the one
/// held is valid.
pub open spec fn detach_step(process: Process) -> (Process, Option<isize>) {
    (
        Process { attached: false, h_process: 0, process_id: 0, module_address: 0 },
        if handle_is_valid(process.h_process) {
            Some(process.h_process)
        } else {
            None
        },
    )
}

/// Forgets the attached process: every field is reset, and the handle that
/// was held is returned for closing when it is a valid one.
pub fn detach_process(process: &mut Process) -> (r: Option<isize>)
    ensures
        (*final(process), r) == detach_step(*old(process)),
{
    let handle = process.h_process;
    *process = Process::detached();
    if handle != 0 && handle != -1 {
        Some(handle)
    } else {
        None
    }
}

/// Detaching twice closes the handle at most once: the second detach
/// finds the record reset and nothing to close.
pub proof fn detach_is_idempotent(process: Process)
    ensures
        detach_step(detach_step(process).0) == (detach_step(process).0, None::<isize>),
{
}

} // verus!
