//! The selection cache, the dispatch mapping and the deferred diagnostics.
//!
//! A `RuntimeAllocator` is the process-wide selection state made explicit: a
//! write-once cell for the chosen back-end identifier, a once-only flag for
//! the diagnostic record, and a single-slot mailbox that keeps the decision
//! explanation until a structured logger is ready to take it.  The cell is
//! monotonic: once it holds a live identifier it is never overwritten, and
//! because the decision procedure is deterministic, callers racing to make
//! the first transition all publish the same value.
//!
//! The caller embeds this state in whatever shared cell its platform offers
//! (a single atomic word suffices, since the stored identifier is one byte)
//! and performs the raw allocation calls; the methods here decide, record
//! and explain.

use vstd::prelude::*;
use vstd::string::StringExecFns;
use crate::choice::{
    is_valid_allocator_id, spec_choice_of_id, AllocatorType, EMBEDDED_ID, MIMALLOC_ID,
    MIMALLOC_SECURE_ID,
};
use crate::decision::{lemma_select_id_valid, select_allocator_by_hardware, spec_select_id};
use crate::info::{
    hw_cores_mem, hw_mem, make_reason, spec_hw_cores_mem, spec_hw_mem, spec_with_hw, SystemInfo,
};
use crate::platform::{can_use_mimalloc, can_use_mimalloc_secure, spec_can_use_mimalloc,
    spec_can_use_mimalloc_secure, OsClass, PlatformConfig};
use std::io::Write;

verus! {

/// Relies on `std::io::Stderr` via `writeln!`: prints one line on the
/// standard error stream, the lowest-level unbuffered diagnostic channel
/// available to a hosted process.
#[verifier::external_body]
fn emit_stderr_line(msg: &str) {
    let _ = writeln!(std::io::stderr(), "{}", msg);
}

/// The selection-and-diagnostics state of one process.
///
/// `allocator_id` is the selection cell: `0` while no back-end is chosen,
/// afterwards the identifier of the live back-end, never overwritten.
/// `logged` notes that the decision has been recorded once; `pending_message`
/// holds the recorded explanation until `try_flush_pending_log` hands it
/// out; `flushed` notes that the handoff has happened, after which flushing
/// is a no-op forever.
pub struct RuntimeAllocator {
    /// The capability table registered at startup.
    pub config: PlatformConfig,
    /// The selection cell: 0, or the identifier of the live back-end.
    pub allocator_id: u8,
    /// The decision has been recorded in the diagnostics slot.
    pub logged: bool,
    /// The recorded explanation has been handed to the logging facility.
    pub flushed: bool,
    /// The explanation waiting for the logging facility, if any.
    pub pending_message: Option<String>,
}

/// The identifier a call observes on a given state: the cached one where the
/// cell is live, else the one the decision procedure computes from the
/// snapshot.
pub open spec fn spec_selected_id(st: RuntimeAllocator, cpu_cores: nat) -> u8 {
    if st.allocator_id != 0 {
        st.allocator_id
    } else {
        spec_select_id(st.config, cpu_cores)
    }
}

/// The short name under which a back-end identifier is reported.
pub open spec fn spec_log_name(id: u8) -> Seq<char> {
    if id == MIMALLOC_SECURE_ID {
        "mimalloc-secure"@
    } else if id == MIMALLOC_ID {
        "mimalloc"@
    } else if id == EMBEDDED_ID {
        "embedded-alloc"@
    } else {
        "system"@
    }
}

/// The explanation recorded for a decision: why this identifier, on this
/// build, with this hardware.
pub open spec fn spec_log_reason(id: u8, config: PlatformConfig, cores: int, mem: u64) -> Seq<char> {
    if id == MIMALLOC_SECURE_ID {
        spec_with_hw("security-hardened choice - runtime detected"@, spec_hw_cores_mem(cores, mem))
    } else if id == MIMALLOC_ID {
        spec_with_hw("optimal performance choice - runtime detected"@, spec_hw_cores_mem(cores, mem))
    } else if id == EMBEDDED_ID {
        spec_with_hw("embedded platform - compile-time selected"@, spec_hw_mem(mem))
    } else if config.debug {
        spec_with_hw("debug build - compile-time selected"@, spec_hw_cores_mem(cores, mem))
    } else if config.wasm {
        spec_with_hw("WASM environment - compile-time selected"@, spec_hw_mem(mem))
    } else if config.os == OsClass::Android {
        spec_with_hw(
            "Android Scudo allocator - compile-time selected (security-first policy)"@,
            spec_hw_cores_mem(cores, mem),
        )
    } else if config.os == OsClass::Ios {
        spec_with_hw(
            "iOS libmalloc allocator - compile-time selected (Apple optimized)"@,
            spec_hw_cores_mem(cores, mem),
        )
    } else if config.os == OsClass::FreeBsd || config.os == OsClass::NetBsd {
        spec_with_hw(
            "BSD native jemalloc - compile-time selected (platform optimized)"@,
            spec_hw_cores_mem(cores, mem),
        )
    } else if config.os == OsClass::OpenBsd {
        spec_with_hw(
            "OpenBSD security-hardened allocator - compile-time selected"@,
            spec_hw_cores_mem(cores, mem),
        )
    } else if config.os == OsClass::Solaris || config.os == OsClass::Illumos {
        spec_with_hw(
            "Solaris libumem allocator - compile-time selected (enterprise grade)"@,
            spec_hw_cores_mem(cores, mem),
        )
    } else {
        spec_with_hw(
            "runtime fallback - single-core or mimalloc unavailable"@,
            spec_hw_cores_mem(cores, mem),
        )
    }
}

/// The full line recorded when a decision is made.
pub open spec fn spec_decision_message(
    id: u8,
    config: PlatformConfig,
    cores: int,
    mem: u64,
) -> Seq<char> {
    "Auto-allocator: "@ + spec_log_name(id) + " selected - "@ + spec_log_reason(
        id,
        config,
        cores,
        mem,
    )
}

/// The back-end the dispatch layer forwards a call to for a stored
/// identifier: the named back-end where it is compiled in and eligible on
/// this build, else the native allocator, which is always available.
pub open spec fn spec_dispatch_backend(id: u8, config: PlatformConfig) -> AllocatorType {
    if id == MIMALLOC_SECURE_ID && spec_can_use_mimalloc_secure(config) {
        AllocatorType::MimallocSecure
    } else if id == MIMALLOC_ID && spec_can_use_mimalloc(config) {
        AllocatorType::Mimalloc
    } else if id == EMBEDDED_ID && config.embedded {
        AllocatorType::EmbeddedHeap
    } else {
        AllocatorType::System
    }
}

/// Maps a stored identifier to the back-end that must serve the call, with
/// the native allocator as the fallback for anything not compiled in.
pub fn dispatch_backend(id: u8, config: &PlatformConfig) -> (t: AllocatorType)
    ensures
        t == spec_dispatch_backend(id, *config),
{
    if id == MIMALLOC_SECURE_ID && can_use_mimalloc_secure(config) {
        AllocatorType::MimallocSecure
    } else if id == MIMALLOC_ID && can_use_mimalloc(config) {
        AllocatorType::Mimalloc
    } else if id == EMBEDDED_ID && is_embedded(config) {
        AllocatorType::EmbeddedHeap
    } else {
        AllocatorType::System
    }
}

/// Whether the capability table marks the target as embedded.
fn is_embedded(config: &PlatformConfig) -> (r: bool)
    ensures
        r == config.embedded,
{
    config.embedded
}

/// An identifier the decision procedure chose is always dispatched to the
/// very back-end it names: the procedure never selects a back-end that the
/// build cannot serve.
pub proof fn lemma_dispatch_matches_selection(config: PlatformConfig, cpu_cores: nat)
    ensures
        spec_dispatch_backend(spec_select_id(config, cpu_cores), config) == spec_choice_of_id(
            spec_select_id(config, cpu_cores),
        ),
{
}

impl RuntimeAllocator {
    /// The state's internal invariant: the cell holds nothing or a live
    /// identifier, and the diagnostics flags only ever move forward.
    pub open spec fn wf(self) -> bool {
        &&& self.allocator_id == 0 || is_valid_allocator_id(self.allocator_id)
        &&& self.flushed ==> self.logged
        &&& self.flushed ==> self.pending_message is None
        &&& self.pending_message is Some ==> self.logged
    }

    /// A fresh state for a process that has not allocated yet: nothing
    /// selected, nothing recorded, nothing flushed.
    pub fn new(config: PlatformConfig) -> (st: Self)
        ensures
            st.wf(),
            st.config == config,
            st.allocator_id == 0,
            !st.logged,
            !st.flushed,
            st.pending_message is None,
    {
        RuntimeAllocator {
            config,
            allocator_id: 0,
            logged: false,
            flushed: false,
            pending_message: None,
        }
    }

    /// Reads the selection cell; on the first call, runs the decision
    /// procedure on the snapshot, publishes the result, and records the
    /// explanation once.  Every later call returns the cached identifier
    /// unchanged: the cell never regresses and is never overwritten.
    pub fn get_allocator_id(&mut self, info: &SystemInfo) -> (id: u8)
        requires
            old(self).wf(),
        ensures
            final(self).wf(),
            final(self).config == old(self).config,
            final(self).flushed == old(self).flushed,
            id == spec_selected_id(*old(self), info.cpu_cores as nat),
            final(self).allocator_id == id,
            is_valid_allocator_id(id),
            old(self).allocator_id != 0 ==> *final(self) == *old(self),
            old(self).allocator_id == 0 ==> final(self).logged,
            old(self).allocator_id == 0 && !old(self).logged ==> (final(self).pending_message
                matches Some(m) && m@ == spec_decision_message(
                id,
                old(self).config,
                info.cpu_cores as int,
                info.total_memory_bytes,
            )),
            old(self).allocator_id == 0 && old(self).logged ==> final(self).pending_message
                == old(self).pending_message,
    {
        let current_id = self.allocator_id;
        if current_id == 0 {
            let selected_id = select_allocator_by_hardware(&self.config, info.cpu_cores);
            self.allocator_id = selected_id;
            self.log_allocator_selection(selected_id, info);
            selected_id
        } else {
            current_id
        }
    }

    /// Records the decision explanation, once: the first call stores and
    /// emits it, every later call leaves the state untouched.
    pub fn log_allocator_selection(&mut self, allocator_id: u8, info: &SystemInfo)
        requires
            old(self).wf(),
        ensures
            final(self).wf(),
            final(self).config == old(self).config,
            final(self).allocator_id == old(self).allocator_id,
            final(self).flushed == old(self).flushed,
            final(self).logged,
            old(self).logged ==> *final(self) == *old(self),
            !old(self).logged ==> (final(self).pending_message matches Some(m) && m@
                == spec_decision_message(
                allocator_id,
                old(self).config,
                info.cpu_cores as int,
                info.total_memory_bytes,
            )),
    {
        if !self.logged {
            self.logged = true;
            let name_reason = Self::get_allocator_log_info(allocator_id, &self.config, info);
            self.record_allocator_selection(name_reason.0, name_reason.1.as_str());
        }
    }

    /// The name and explanation under which a decision is reported, from the
    /// identifier, the capability table and the snapshot the decision saw.
    pub fn get_allocator_log_info(
        allocator_id: u8,
        config: &PlatformConfig,
        info: &SystemInfo,
    ) -> (r: (&'static str, String))
        ensures
            r.0@ == spec_log_name(allocator_id),
            r.1@ == spec_log_reason(
                allocator_id,
                *config,
                info.cpu_cores as int,
                info.total_memory_bytes,
            ),
    {
        let cores = info.cpu_cores;
        let mem = info.total_memory_bytes;
        if allocator_id == MIMALLOC_SECURE_ID {
            let h = hw_cores_mem(cores, mem);
            ("mimalloc-secure", make_reason("security-hardened choice - runtime detected", h.as_str()))
        } else if allocator_id == MIMALLOC_ID {
            let h = hw_cores_mem(cores, mem);
            ("mimalloc", make_reason("optimal performance choice - runtime detected", h.as_str()))
        } else if allocator_id == EMBEDDED_ID {
            let h = hw_mem(mem);
            ("embedded-alloc", make_reason("embedded platform - compile-time selected", h.as_str()))
        } else if config.debug {
            let h = hw_cores_mem(cores, mem);
            ("system", make_reason("debug build - compile-time selected", h.as_str()))
        } else if config.wasm {
            let h = hw_mem(mem);
            ("system", make_reason("WASM environment - compile-time selected", h.as_str()))
        } else if config.os == OsClass::Android {
            let h = hw_cores_mem(cores, mem);
            (
                "system",
                make_reason(
                    "Android Scudo allocator - compile-time selected (security-first policy)",
                    h.as_str(),
                ),
            )
        } else if config.os == OsClass::Ios {
            let h = hw_cores_mem(cores, mem);
            (
                "system",
                make_reason(
                    "iOS libmalloc allocator - compile-time selected (Apple optimized)",
                    h.as_str(),
                ),
            )
        } else if config.os == OsClass::FreeBsd || config.os == OsClass::NetBsd {
            let h = hw_cores_mem(cores, mem);
            (
                "system",
                make_reason(
                    "BSD native jemalloc - compile-time selected (platform optimized)",
                    h.as_str(),
                ),
            )
        } else if config.os == OsClass::OpenBsd {
            let h = hw_cores_mem(cores, mem);
            (
                "system",
                make_reason(
                    "OpenBSD security-hardened allocator - compile-time selected",
                    h.as_str(),
                ),
            )
        } else if config.os == OsClass::Solaris || config.os == OsClass::Illumos {
            let h = hw_cores_mem(cores, mem);
            (
                "system",
                make_reason(
                    "Solaris libumem allocator - compile-time selected (enterprise grade)",
                    h.as_str(),
                ),
            )
        } else {
            let h = hw_cores_mem(cores, mem);
            (
                "system",
                make_reason("runtime fallback - single-core or mimalloc unavailable", h.as_str()),
            )
        }
    }

    /// Stores the decision explanation in the pending slot and emits it at
    /// once on the unbuffered diagnostic channel.
    pub(crate) fn record_allocator_selection(&mut self, allocator_name: &str, reason: &str)
        requires
            old(self).wf(),
            old(self).logged,
            !old(self).flushed,
        ensures
            final(self).wf(),
            final(self).config == old(self).config,
            final(self).allocator_id == old(self).allocator_id,
            final(self).logged == old(self).logged,
            final(self).flushed == old(self).flushed,
            final(self).pending_message matches Some(m) && m@ == "Auto-allocator: "@
                + allocator_name@ + " selected - "@ + reason@,
    {
        let mut message = String::from_str("Auto-allocator: ");
        message.append(allocator_name);
        message.append(" selected - ");
        message.append(reason);
        let mut line = String::from_str("[INFO] ");
        line.append(message.as_str());
        emit_stderr_line(line.as_str());
        self.pending_message = Some(message);
    }

    /// Takes the pending explanation out for the structured logging
    /// facility, at most once ever: the first successful take sets the
    /// flushed flag, after which the call is a no-op forever.  The caller
    /// hands the returned message to its logging facility.
    pub fn try_flush_pending_log(&mut self) -> (msg: Option<String>)
        requires
            old(self).wf(),
        ensures
            final(self).wf(),
            final(self).config == old(self).config,
            final(self).allocator_id == old(self).allocator_id,
            final(self).logged == old(self).logged,
            final(self).pending_message is None,
            old(self).flushed ==> *final(self) == *old(self) && msg is None,
            !old(self).flushed ==> msg == old(self).pending_message && final(self).flushed == (
            old(self).pending_message is Some),
    {
        if self.flushed {
            return None;
        }
        let mut taken: Option<String> = None;
        core::mem::swap(&mut self.pending_message, &mut taken);
        if taken.is_some() {
            self.flushed = true;
        }
        taken
    }

    /// Flushes opportunistically: returns at once where the handoff has
    /// already happened, else behaves as `try_flush_pending_log`.
    pub fn smart_try_flush_log(&mut self) -> (msg: Option<String>)
        requires
            old(self).wf(),
        ensures
            final(self).wf(),
            final(self).config == old(self).config,
            final(self).allocator_id == old(self).allocator_id,
            final(self).logged == old(self).logged,
            final(self).pending_message is None,
            old(self).flushed ==> *final(self) == *old(self) && msg is None,
            !old(self).flushed ==> msg == old(self).pending_message && final(self).flushed == (
            old(self).pending_message is Some),
    {
        if self.flushed {
            return None;
        }
        self.try_flush_pending_log()
    }
}

/// Once a first call has settled the selection, every later call observes
/// that same identifier, whatever snapshot it brings: the cell makes exactly
/// one transition and never regresses to the unselected state.
pub proof fn lemma_selection_stable(st: RuntimeAllocator, cores1: nat, cores2: nat)
    requires
        st.wf(),
    ensures
        spec_selected_id(st, cores1) != 0,
        spec_selected_id(
            (RuntimeAllocator { allocator_id: spec_selected_id(st, cores1), ..st }),
            cores2,
        ) == spec_selected_id(st, cores1),
{
    lemma_select_id_valid(st.config, cores1);
}

/// The identifiers that a series of callers observe when they take their
/// turns at the selection cell, each bringing its own snapshot.  Concurrent
/// first-time callers act on the cell in some linearized order; this is that
/// order made explicit.
pub open spec fn spec_observed_ids(st: RuntimeAllocator, snapshots: Seq<nat>) -> Seq<u8>
    decreases snapshots.len(),
{
    if snapshots.len() == 0 {
        Seq::empty()
    } else {
        let id = spec_selected_id(st, snapshots[0]);
        seq![id] + spec_observed_ids(
            (RuntimeAllocator { allocator_id: id, ..st }),
            snapshots.drop_first(),
        )
    }
}

/// On a cell that is already settled, every caller observes the settled
/// identifier, whatever snapshot it brings.
pub proof fn lemma_settled_observations(st: RuntimeAllocator, snapshots: Seq<nat>)
    requires
        st.allocator_id != 0,
    ensures
        spec_observed_ids(st, snapshots).len() == snapshots.len(),
        forall|i: int|
            0 <= i < snapshots.len() ==> #[trigger] spec_observed_ids(st, snapshots)[i]
                == st.allocator_id,
    decreases snapshots.len(),
{
    if snapshots.len() > 0 {
        lemma_settled_observations(st, snapshots.drop_first());
    }
}

/// However many callers race on the first allocation, exactly one final
/// identifier is observed by all of them: the first turn settles the cell,
/// every later turn returns that same live value, and no caller ever sees
/// the cell regress to the unselected state.
pub proof fn lemma_single_transition(st: RuntimeAllocator, snapshots: Seq<nat>)
    requires
        st.wf(),
    ensures
        spec_observed_ids(st, snapshots).len() == snapshots.len(),
        forall|i: int|
            0 <= i < snapshots.len() ==> #[trigger] spec_observed_ids(st, snapshots)[i] != 0,
        forall|i: int|
            0 < i < snapshots.len() ==> #[trigger] spec_observed_ids(st, snapshots)[i]
                == spec_observed_ids(st, snapshots)[0],
{
    if snapshots.len() > 0 {
        let id = spec_selected_id(st, snapshots[0]);
        lemma_select_id_valid(st.config, snapshots[0]);
        lemma_settled_observations(
            (RuntimeAllocator { allocator_id: id, ..st }),
            snapshots.drop_first(),
        );
    }
}

} // verus!
