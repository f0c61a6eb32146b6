//! The engine handle: a single-occupancy slot that owns at most one
//! running engine process, with atomic start/stop/status transitions.
//!
//! The handle is the decision core of the supervisor. The unverified
//! shell performs the actual process spawn, the non-blocking exit check
//! on the occupant, and the health probe, and hands their outcomes in as
//! plain values; every slot transition and every status value is decided
//! here. The shell must guard the handle with a mutual-exclusion lock so
//! that start, stop and the shutdown hook hold exclusive access to the
//! slot for their full duration; each transition below is a pure
//! function of one fully committed prior state, so under that lock no
//! call can observe or leave a half-written slot.

use vstd::prelude::*;

verus! {

/// Status reported by the supervisor: whether the engine answers, the
/// configured port, and the chat endpoint URL (empty when not running).
pub struct RappOsStatus {
    pub running: bool,
    pub port: u16,
    pub endpoint: String,
}

/// The chat endpoint URL for a given port.
pub open spec fn api_endpoint(port: u16) -> Seq<char> {
    crate::text::loopback_url(port, "/api/rapp"@)
}

/// A status value that reports the engine running on the given port.
pub open spec fn is_running_status(st: RappOsStatus, port: u16) -> bool {
    &&& st.running
    &&& st.port == port
    &&& st.endpoint@ == api_endpoint(port)
}

/// A status value that reports the engine stopped on the given port.
pub open spec fn is_stopped_status(st: RappOsStatus, port: u16) -> bool {
    &&& !st.running
    &&& st.port == port
    &&& st.endpoint@ == Seq::<char>::empty()
}

/// The slot after the occupancy check that opens a start: an occupant
/// that is still alive is kept; an exited occupant, or an empty slot,
/// leaves the slot empty and ready for a fresh spawn.
pub open spec fn prepared_slot(slot: Option<u32>, occupant_alive: bool) -> Option<u32> {
    if slot is Some && occupant_alive {
        slot
    } else {
        None
    }
}

/// Whether a start call finds the engine already running and returns
/// idempotently instead of spawning a second process.
pub open spec fn start_already_running(slot: Option<u32>, occupant_alive: bool) -> bool {
    slot is Some && occupant_alive
}

/// The slot after a stop, whatever it held before.
pub open spec fn stopped_slot(slot: Option<u32>) -> Option<u32> {
    None
}

/// The port the engine is bound to unless configured otherwise.
pub const DEFAULT_PORT: u16 = 7071;

/// The handle to the engine process: the single-occupancy slot (the
/// occupant's process id) and the fixed port the engine is bound to.
pub struct EngineHandle {
    pub slot: Option<u32>,
    pub port: u16,
}

impl Default for EngineHandle {
    /// A fresh handle on the default port: empty slot.
    fn default() -> (h: EngineHandle)
        ensures
            h.slot is None,
            h.port == DEFAULT_PORT,
    {
        EngineHandle { slot: None, port: DEFAULT_PORT }
    }
}

/// What a status call observes: liveness and endpoint text. Defined
/// over the whole handle so that independence from the slot is a
/// provable statement, not an artifact of the signature.
pub open spec fn status_obs(h: EngineHandle, probe_ok: bool) -> (bool, Seq<char>) {
    (probe_ok, if probe_ok {
        api_endpoint(h.port)
    } else {
        Seq::<char>::empty()
    })
}

impl EngineHandle {
    /// A fresh handle: empty slot, fixed port.
    pub fn new(port: u16) -> (h: EngineHandle)
        ensures
            h.slot is None,
            h.port == port,
    {
        EngineHandle { slot: None, port }
    }

    /// Whether the slot currently holds a process reference. The shell
    /// uses this to know whether an exit check on the occupant is due.
    pub fn is_occupied(&self) -> (r: bool)
        ensures
            r == (self.slot is Some),
    {
        self.slot.is_some()
    }

    /// Opens a start: given the outcome of the non-blocking exit check
    /// on the occupant (ignored when the slot is empty), either keeps a
    /// live occupant and reports the start as already satisfied, or
    /// clears a stale reference so the caller may spawn.
    ///
    /// Liveness here is deliberately the process-exit check, not the
    /// health probe: while holding exclusive access a start must not
    /// wait on the network, and an occupant that is alive but not yet
    /// listening must not be spawned a second time. `status` answers
    /// the different question — is the service answering — with the
    /// probe.
    pub fn start_prepare(&mut self, occupant_alive: bool) -> (already: bool)
        ensures
            already == start_already_running(old(self).slot, occupant_alive),
            final (self).slot == prepared_slot(old(self).slot, occupant_alive),
            final (self).port == old(self).port,
    {
        match self.slot {
            Some(_) => {
                if occupant_alive {
                    true
                } else {
                    self.slot = None;
                    false
                }
            },
            None => false,
        }
    }

    /// Commits a fresh spawn into the slot. Only an empty slot may be
    /// committed to: a live occupant is never overwritten.
    pub fn start_commit(&mut self, pid: u32) -> (st: RappOsStatus)
        requires
            old(self).slot is None,
        ensures
            final (self).slot == Some(pid),
            final (self).port == old(self).port,
            is_running_status(st, old(self).port),
    {
        self.slot = Some(pid);
        self.running_status()
    }

    /// The status a successful or idempotent start reports.
    pub fn running_status(&self) -> (st: RappOsStatus)
        ensures
            is_running_status(st, self.port),
    {
        RappOsStatus {
            running: true,
            port: self.port,
            endpoint: crate::text::build_loopback_url(self.port, "/api/rapp"),
        }
    }

    /// Stops the engine: clears the slot unconditionally and reports
    /// not running. The shell's best-effort terminate-and-wait on the
    /// occupant happens before this call; its failure does not matter,
    /// since a handle to a process that refuses to die is no longer
    /// useful. Idempotent: with an empty slot this is a no-op that
    /// still reports `running == false` and cannot fail.
    pub fn stop(&mut self) -> (st: RappOsStatus)
        ensures
            final (self).slot == stopped_slot(old(self).slot),
            final (self).port == old(self).port,
            is_stopped_status(st, old(self).port),
    {
        self.slot = None;
        RappOsStatus { running: false, port: self.port, endpoint: String::new() }
    }

    /// Reports liveness from the health-probe outcome alone: the slot
    /// is not consulted, so a crashed engine whose stale reference
    /// still occupies the slot is reported as not running.
    pub fn status(&self, probe_ok: bool) -> (st: RappOsStatus)
        ensures
            st.running == status_obs(*self, probe_ok).0,
            st.endpoint@ == status_obs(*self, probe_ok).1,
            st.port == self.port,
    {
        if probe_ok {
            self.running_status()
        } else {
            RappOsStatus { running: false, port: self.port, endpoint: String::new() }
        }
    }
}

/// Picks the engine's entry point from the ordered candidate list:
/// given, for each candidate location in order, whether a file exists
/// there, returns the index of the first existing one. The order is
/// significant — later entries are fallbacks for differing install
/// layouts — and a start with no existing candidate fails with
/// `EngineNotFound`.
pub fn first_existing(exists: &Vec<bool>) -> (r: Option<usize>)
    ensures
        (match r {
            Some(i) => i < exists@.len() && exists@[i as int] && (forall|j: int|
                0 <= j < i ==> !exists@[j]),
            None => forall|j: int| 0 <= j < exists@.len() ==> !exists@[j],
        }),
{
    let mut i: usize = 0;
    while i < exists.len()
        invariant
            i <= exists@.len(),
            forall|j: int| 0 <= j < i ==> !exists@[j],
        decreases exists@.len() - i,
    {
        if exists[i] {
            return Some(i);
        }
        i += 1;
    }
    None
}

/// Start is non-duplicating: while the first-spawned occupant remains
/// alive, every further start finds the slot already occupied, keeps
/// the same occupant, and spawns nothing — applying the start
/// transition any second time changes nothing.
pub proof fn lemma_start_non_duplicating(slot: Option<u32>, pid: u32)
    requires
        slot == Some(pid),
    ensures
        start_already_running(slot, true),
        prepared_slot(slot, true) == Some(pid),
        start_already_running(prepared_slot(slot, true), true),
        prepared_slot(prepared_slot(slot, true), true) == Some(pid),
{
}

/// Both of two starts that find the engine alive report the identical
/// observable status: running, on the same port, with the same
/// endpoint text.
pub proof fn lemma_running_status_identical(st1: RappOsStatus, st2: RappOsStatus, port: u16)
    requires
        is_running_status(st1, port),
        is_running_status(st2, port),
    ensures
        st1.running == st2.running,
        st1.port == st2.port,
        st1.endpoint@ == st2.endpoint@,
{
}

/// Status reflects true liveness, not slot occupancy: what a status
/// call observes depends only on the probe outcome and the configured
/// port. Two handles that differ arbitrarily in their slots — one
/// empty, one holding a reference to a process that exited out of band
/// — observe the same status; in particular a failed probe reports not
/// running even while a stale reference still occupies the slot.
pub proof fn lemma_status_ignores_slot(h1: EngineHandle, h2: EngineHandle, probe_ok: bool)
    requires
        h1.port == h2.port,
    ensures
        status_obs(h1, probe_ok) == status_obs(h2, probe_ok),
        !probe_ok ==> !status_obs(h1, probe_ok).0,
{
}

/// Every transition commits a whole slot state: the slot after a
/// start-prepare is either empty or still the prior occupant (never a
/// second reference beside it), the slot after a stop is empty whatever
/// it held, and stopping twice is the same as stopping once.
pub proof fn lemma_slot_transitions_commit(slot: Option<u32>, occupant_alive: bool)
    ensures
        prepared_slot(slot, occupant_alive) is None || prepared_slot(slot, occupant_alive) == slot,
        stopped_slot(slot) is None,
        stopped_slot(stopped_slot(slot)) == stopped_slot(slot),
{
}

} // verus!
