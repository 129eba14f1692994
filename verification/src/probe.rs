//! The two probes of a training run: resident memory of the current process,
//! read through `sysinfo`, and elapsed wall-clock time, read from a
//! monotonic clock.
//!
//! What the machine reports depends on the machine and the moment, so the
//! items below that stand for outside functions promise nothing of it. What
//! they do state is what a snapshot of the system holds when it is new, and
//! that a look into a snapshot returns what the snapshot holds.

use vstd::prelude::*;

verus! {

/// `sysinfo::System`, the snapshot of system information that the memory
/// probe refreshes and queries. Opaque here.
#[verifier::external_type_specification]
#[verifier::external_body]
pub struct ExSystem(sysinfo::System);

/// `std::time::Instant`, a reading of the monotonic clock. Opaque here.
#[verifier::external_type_specification]
#[verifier::external_body]
pub struct ExInstant(std::time::Instant);

/// What is known of the processes of a snapshot: the resident memory in
/// bytes of each process that it holds, under the number of the process.
pub type Processes = Map<u32, u64>;

/// The processes that a snapshot holds: under each number whose identifier
/// `sysinfo::Pid::from_u32` the snapshot holds a process for, the resident
/// memory of that process in bytes, as `sysinfo::System::process` finds it
/// and `sysinfo::Process::memory` returns it.
pub uninterp spec fn snapshot_memory(system: sysinfo::System) -> Map<u32, u64>;

/// `sysinfo::System::new` returns a snapshot with nothing loaded: it holds
/// no process.
pub assume_specification[ sysinfo::System::new ]() -> (system: sysinfo::System)
    ensures
        snapshot_memory(system) == Processes::empty(),
;

/// `sysinfo::System::refresh_all` reloads system and process information
/// into the snapshot. Nothing is claimed of the snapshot afterwards.
pub assume_specification[ sysinfo::System::refresh_all ](system: &mut sysinfo::System)
;

/// `sysinfo::get_current_pid`, with the identifier that it returns turned
/// into its number by `sysinfo::Pid::as_u32`, and the error of a platform
/// that it does not support turned into `None`. Nothing is claimed of which
/// it is.
#[verifier::external_body]
fn current_process_number() -> (number: Option<u32>) {
    sysinfo::get_current_pid().ok().map(sysinfo::Pid::as_u32)
}

/// `sysinfo::System::process` on the identifier of `number`, made by
/// `sysinfo::Pid::from_u32`, with the process that it finds turned into its
/// resident memory by `sysinfo::Process::memory`: the memory that the
/// snapshot holds under `number`, and `None` where it holds no process
/// there.
#[verifier::external_body]
fn recorded_memory(system: &sysinfo::System, number: u32) -> (bytes: Option<u64>)
    ensures
        bytes == reading_in(snapshot_memory(*system), Some(number)),
{
    system.process(sysinfo::Pid::from_u32(number)).map(sysinfo::Process::memory)
}

/// `std::time::Instant::now` reads the monotonic clock. Nothing is claimed
/// of the reading.
pub assume_specification[ std::time::Instant::now ]() -> (now: std::time::Instant)
;

/// `std::time::Instant::elapsed` returns the time that has passed since the
/// reading was taken. Nothing is claimed of the span.
pub assume_specification[ std::time::Instant::elapsed ](start: &std::time::Instant) -> (span:
    std::time::Duration)
;

/// `std::time::Duration::as_nanos` returns the whole span in nanoseconds.
/// The span is opaque here, so nothing is claimed of the number.
pub assume_specification[ std::time::Duration::as_nanos ](span: &std::time::Duration) -> (nanos:
    u128)
;

/// What a memory reading counts as: the bytes read, or zero where no
/// reading could be had.
pub open spec fn reading_or_zero(reading: Option<u64>) -> u64 {
    match reading {
        Some(bytes) => bytes,
        None => 0,
    }
}

/// Degrades a memory reading that could not be had to zero bytes.
pub fn memory_or_zero(reading: Option<u64>) -> (bytes: u64)
    ensures
        bytes == reading_or_zero(reading),
{
    match reading {
        Some(bytes) => bytes,
        None => 0,
    }
}

/// What a look into a snapshot gives for a process: the memory that the
/// snapshot holds under the number of the process, and nothing where the
/// number is not known or the snapshot holds no process under it.
pub open spec fn reading_in(snapshot: Processes, number: Option<u32>) -> Option<u64> {
    match number {
        Some(number) => if snapshot.contains_key(number) {
            Some(snapshot[number])
        } else {
            None
        },
        None => None,
    }
}

/// Reads the resident memory of the current process.
pub(crate) struct MemoryProbe {
    system: sysinfo::System,
}

impl View for MemoryProbe {
    type V = Processes;

    /// The processes that the probe's snapshot holds, each with its resident
    /// memory.
    closed spec fn view(&self) -> Processes {
        snapshot_memory(self.system)
    }
}

impl MemoryProbe {
    /// A probe with nothing loaded yet: its snapshot holds no process.
    pub(crate) fn new() -> (probe: MemoryProbe)
        ensures
            probe@ == Processes::empty(),
    {
        MemoryProbe { system: sysinfo::System::new() }
    }

    /// Reloads the system information that `read` looks into.
    pub(crate) fn refresh(&mut self) {
        self.system.refresh_all();
    }

    /// The resident memory of the current process in bytes, as of the last
    /// `refresh`. Whatever number the platform gives the current process,
    /// the reading is what the snapshot holds under it: `None` where the
    /// platform gives none or the snapshot holds no process there, and so
    /// always `None` before the first `refresh`.
    pub(crate) fn read(&self) -> (reading: Option<u64>)
        ensures
            exists|number: Option<u32>| reading == #[trigger] reading_in(self@, number),
            self@ == Processes::empty() ==> reading is None,
    {
        match current_process_number() {
            Some(number) => recorded_memory(&self.system, number),
            None => {
                assert(reading_in(self@, None) is None);
                None
            },
        }
    }
}

/// Measures the time that has passed since it was started.
pub(crate) struct Stopwatch {
    started: std::time::Instant,
}

impl Stopwatch {
    /// A stopwatch started now.
    pub(crate) fn start() -> (stopwatch: Stopwatch) {
        Stopwatch { started: std::time::Instant::now() }
    }

    /// The nanoseconds that have passed since the start.
    pub(crate) fn elapsed_nanos(&self) -> (nanos: u128) {
        self.started.elapsed().as_nanos()
    }
}

} // verus!
