//! Decisions of the time-boxed benchmark loop.

use vstd::prelude::*;

verus! {

/// Which upload path a PUT operation takes.
#[derive(Clone, Copy, PartialEq, Eq, Structural, Debug)]
pub enum PutPath {
    Simple,
    Multipart,
}

/// Chooses the upload path: multipart exactly when it is not disabled and the
/// object is at least one part long; otherwise the single-shot path.
pub fn select_put_path(disable_multipart: bool, object_size: usize, part_size: usize) -> (r:
    PutPath)
    ensures
        r == PutPath::Multipart <==> (!disable_multipart && object_size >= part_size),
{
    if disable_multipart || object_size < part_size {
        PutPath::Simple
    } else {
        PutPath::Multipart
    }
}

/// Which download shape a GET operation takes.
#[derive(Clone, Copy, PartialEq, Eq, Structural, Debug)]
pub enum GetPath {
    Full,
    Ranged,
}

/// Chooses the download shape: a ranged read exactly when a range length is
/// configured; otherwise the whole object.
pub fn select_get_path(range_bytes: &Option<u64>) -> (r: GetPath)
    ensures
        r == GetPath::Ranged <==> range_bytes is Some,
{
    match range_bytes {
        Option::Some(_) => GetPath::Ranged,
        Option::None => GetPath::Full,
    }
}

/// A GET run cannot start without targets.
#[derive(Clone, Copy, PartialEq, Eq, Structural, Debug)]
pub enum SetupError {
    NoObjectsFound,
}

/// Fails a GET run fast, before its timed loop, when the pre-enumerated
/// listing under the configured prefix holds no objects.
pub fn validate_get_targets(objects: &Vec<String>) -> (r: Result<(), SetupError>)
    ensures
        r is Ok <==> objects@.len() > 0,
        r is Err ==> r->Err_0 == SetupError::NoObjectsFound,
{
    if objects.len() == 0 {
        Result::Err(SetupError::NoObjectsFound)
    } else {
        Result::Ok(())
    }
}

/// The round-robin target of operation number `counter` over the
/// pre-enumerated objects: uniform, deterministic coverage of the set.
pub fn round_robin_index(counter: u64, object_count: usize) -> (r: usize)
    requires
        object_count >= 1,
    ensures
        r == counter as int % object_count as int,
        r < object_count,
{
    (counter % (object_count as u64)) as usize
}

/// Phase of one benchmark run.
#[derive(Clone, Copy, PartialEq, Eq, Structural, Debug)]
pub enum Phase {
    Idle,
    Running,
    Draining,
    Done,
}

/// What the driver observes at one step of the run.
pub enum DriverEvent {
    /// The run begins; the caller records the start timestamp.
    Start,
    /// The issuing loop looks at the clock: how long the run has been going.
    Tick { elapsed_micros: u64 },
    /// Every launched operation has finished and delivered its outcome.
    Drained,
}

/// What the driver does next.
#[derive(Clone, Copy, PartialEq, Eq, Structural, Debug)]
pub enum DriverAction {
    /// Acquire an admission slot and launch the next operation.
    Launch,
    /// Stop issuing and wait for the in-flight operations.
    StopIssuing,
    /// Aggregate the outcomes and report.
    Report,
    /// Nothing: the event does not apply to the current phase.
    Hold,
}

/// The run's phase machine: Idle, then Running while the elapsed time is
/// under the configured duration, then Draining until every in-flight
/// operation has finished, then Done.
pub struct DriverState {
    pub phase: Phase,
    pub ops_issued: u64,
}

impl DriverState {
    /// A run that has not started.
    pub fn new() -> (r: DriverState)
        ensures
            r.phase == Phase::Idle,
            r.ops_issued == 0,
    {
        DriverState { phase: Phase::Idle, ops_issued: 0 }
    }

    /// One transition. While Running, a tick under the configured duration
    /// launches the next operation (and numbers it), and a tick at or past
    /// the duration stops issuing; nothing but Drained ends the drain; any
    /// event that does not apply leaves the state unchanged.
    pub fn step(&mut self, event: &DriverEvent, duration_micros: u64) -> (r: DriverAction)
        requires
            old(self).ops_issued < u64::MAX,
        ensures
            old(self).phase == Phase::Idle && event is Start ==> final(self).phase
                == Phase::Running && final(self).ops_issued == old(self).ops_issued && r
                == DriverAction::Hold,
            (event matches DriverEvent::Tick { elapsed_micros } && old(self).phase
                == Phase::Running && elapsed_micros < duration_micros) ==> final(self).phase
                == Phase::Running && final(self).ops_issued == old(self).ops_issued + 1 && r
                == DriverAction::Launch,
            (event matches DriverEvent::Tick { elapsed_micros } && old(self).phase
                == Phase::Running && elapsed_micros >= duration_micros) ==> final(self).phase
                == Phase::Draining && final(self).ops_issued == old(self).ops_issued && r
                == DriverAction::StopIssuing,
            old(self).phase == Phase::Draining && event is Drained ==> final(self).phase
                == Phase::Done && final(self).ops_issued == old(self).ops_issued && r
                == DriverAction::Report,
            !(old(self).phase == Phase::Idle && event is Start) && !(old(self).phase
                == Phase::Running && event is Tick) && !(old(self).phase == Phase::Draining
                && event is Drained) ==> *final(self) == *old(self) && r == DriverAction::Hold,
    {
        match (self.phase, event) {
            (Phase::Idle, DriverEvent::Start) => {
                self.phase = Phase::Running;
                DriverAction::Hold
            },
            (Phase::Running, DriverEvent::Tick { elapsed_micros }) => {
                if *elapsed_micros < duration_micros {
                    self.ops_issued = self.ops_issued + 1;
                    DriverAction::Launch
                } else {
                    self.phase = Phase::Draining;
                    DriverAction::StopIssuing
                }
            },
            (Phase::Draining, DriverEvent::Drained) => {
                self.phase = Phase::Done;
                DriverAction::Report
            },
            _ => DriverAction::Hold,
        }
    }
}

} // verus!
