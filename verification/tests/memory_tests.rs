use proext::memory::{detach_process, rpm_offset, trace_address, AddressTrace, Process, ReadStep};
use std::collections::HashMap;

fn run(trace: &mut AddressTrace, mem: &HashMap<u64, u64>) -> (u64, usize) {
    let mut reply = None;
    let mut reads = 0;
    loop {
        match trace_address(trace, reply) {
            ReadStep::Done(result) => return (result, reads),
            ReadStep::Read(address) => {
                reads += 1;
                reply = mem.get(&address).copied();
            }
        }
    }
}

#[test]
fn rpm_offset_adds_offset() {
    assert_eq!(rpm_offset(0x1000, 0x20), Some(0x1020));
}

#[test]
fn rpm_offset_refuses_null_base() {
    assert_eq!(rpm_offset(0, 0x20), None);
}

#[test]
fn rpm_offset_refuses_overflow() {
    assert_eq!(rpm_offset(u64::MAX, 1), None);
    assert_eq!(rpm_offset(u64::MAX, 0), Some(u64::MAX));
}

#[test]
fn trace_without_offsets_is_base() {
    let mut trace = AddressTrace::new(0x1234, vec![]);
    let mem = HashMap::new();
    assert_eq!(run(&mut trace, &mem), (0x1234, 0));
}

#[test]
fn trace_follows_pointer_chain() {
    // base -> 0x2000; 0x2000 + 0x10 -> 0x3000; 0x3000 + 0x20 -> 0x4000; last offset 0 added.
    let mut mem = HashMap::new();
    mem.insert(0x1000, 0x2000);
    mem.insert(0x2010, 0x3000);
    mem.insert(0x3020, 0x4000);
    let mut trace = AddressTrace::new(0x1000, vec![0x10, 0x20, 0x0]);
    assert_eq!(run(&mut trace, &mem), (0x4000, 3));
}

#[test]
fn trace_adds_last_offset_to_final_pointer() {
    let mut mem = HashMap::new();
    mem.insert(0x1000, 0x2000);
    let mut trace = AddressTrace::new(0x1000, vec![0x8]);
    assert_eq!(run(&mut trace, &mem), (0x2008, 1));
}

#[test]
fn trace_failed_read_gives_zero() {
    let mut mem = HashMap::new();
    mem.insert(0x1000, 0x2000);
    let mut trace = AddressTrace::new(0x1000, vec![0x10, 0x20, 0x0]);
    assert_eq!(run(&mut trace, &mem), (0, 2));
}

#[test]
fn trace_null_pointer_gives_zero() {
    let mut mem = HashMap::new();
    mem.insert(0x1000, 0x0);
    let mut trace = AddressTrace::new(0x1000, vec![0x10, 0x0]);
    assert_eq!(run(&mut trace, &mem), (0, 1));
}

#[test]
fn trace_done_stays_done() {
    let mut trace = AddressTrace::new(0x55, vec![]);
    assert_eq!(trace_address(&mut trace, None), ReadStep::Done(0x55));
    assert_eq!(trace_address(&mut trace, Some(9)), ReadStep::Done(0x55));
}

#[test]
fn detach_resets_process() {
    let mut process = Process { attached: true, h_process: 42, process_id: 7, module_address: 0x1000 };
    assert_eq!(detach_process(&mut process), Some(42));
    assert_eq!(process, Process::detached());
    assert_eq!(detach_process(&mut process), None);
    let mut invalid = Process { attached: true, h_process: -1, process_id: 7, module_address: 1 };
    assert_eq!(detach_process(&mut invalid), None);
    assert_eq!(invalid, Process::detached());
}
