//! The public query surface over the selection state.
//!
//! These functions are what consumers call: read the live choice (selecting
//! it first if no allocation has happened yet), explain it, and compare it
//! against what a fresh run of the decision logic would recommend.

use vstd::prelude::*;
use vstd::string::StringExecFns;
use crate::choice::{
    allocator_type_from_id, spec_choice_of_id, AllocatorType, MIMALLOC_ID, MIMALLOC_SECURE_ID,
};
use crate::decision::spec_select_id;
use crate::info::{
    get_allocator_selection_result, hw_cores_mem, make_reason, spec_hw_cores_mem,
    spec_recommendation_reason, spec_with_hw, AllocatorInfo, SystemInfo,
};
use crate::platform::PlatformConfig;
use crate::state::{spec_selected_id, RuntimeAllocator};

verus! {

/// The reason string reported for the live choice: how the runtime analysis
/// explains a high-performance selection, and the recommendation's own
/// wording for everything the compile-time table settled.
pub open spec fn spec_info_reason(id: u8, config: PlatformConfig, cores: int, mem: u64) -> Seq<char> {
    if id == MIMALLOC_SECURE_ID {
        spec_with_hw(
            "mimalloc-secure selected by runtime hardware analysis"@,
            spec_hw_cores_mem(cores, mem),
        )
    } else if id == MIMALLOC_ID {
        spec_with_hw(
            "mimalloc selected by runtime hardware analysis"@,
            spec_hw_cores_mem(cores, mem),
        )
    } else {
        spec_recommendation_reason(config, cores, mem)
    }
}

/// The name under which a back-end appears in an optimization suggestion.
pub open spec fn spec_type_label(t: AllocatorType) -> Seq<char> {
    match t {
        AllocatorType::MimallocSecure => "MimallocSecure"@,
        AllocatorType::Mimalloc => "Mimalloc"@,
        AllocatorType::EmbeddedHeap => "EmbeddedHeap"@,
        AllocatorType::System => "System"@,
    }
}

/// The suggestion reported when the live choice differs from the
/// recommended one.
pub open spec fn spec_suggestion(
    current: AllocatorType,
    recommended: AllocatorType,
    reason: Seq<char>,
) -> Seq<char> {
    "Current: "@ + spec_type_label(current) + ", Recommended: "@ + spec_type_label(recommended)
        + " ("@ + reason + ")"@
}

/// The name under which a back-end appears in an optimization suggestion.
pub fn allocator_type_label(t: AllocatorType) -> (r: &'static str)
    ensures
        r@ == spec_type_label(t),
{
    match t {
        AllocatorType::MimallocSecure => "MimallocSecure",
        AllocatorType::Mimalloc => "Mimalloc",
        AllocatorType::EmbeddedHeap => "EmbeddedHeap",
        AllocatorType::System => "System",
    }
}

/// Builds the reason string reported for the live choice.
fn build_info_reason(id: u8, config: &PlatformConfig, info: &SystemInfo) -> (s: String)
    ensures
        s@ == spec_info_reason(id, *config, info.cpu_cores as int, info.total_memory_bytes),
{
    if id == MIMALLOC_SECURE_ID {
        let h = hw_cores_mem(info.cpu_cores, info.total_memory_bytes);
        make_reason("mimalloc-secure selected by runtime hardware analysis", h.as_str())
    } else if id == MIMALLOC_ID {
        let h = hw_cores_mem(info.cpu_cores, info.total_memory_bytes);
        make_reason("mimalloc selected by runtime hardware analysis", h.as_str())
    } else {
        let r = get_allocator_selection_result(config, info);
        r.1
    }
}

/// Makes sure the selection has been performed and recorded, so that later
/// queries only read cached state.
pub fn ensure_allocator_info_ready(state: &mut RuntimeAllocator, info: &SystemInfo)
    requires
        old(state).wf(),
    ensures
        final(state).wf(),
        final(state).config == old(state).config,
        final(state).allocator_id == spec_selected_id(*old(state), info.cpu_cores as nat),
        final(state).allocator_id != 0,
{
    let _id: u8 = state.get_allocator_id(info);
}

/// The live back-end, selecting it first where no allocation has triggered
/// the decision yet.
pub fn get_allocator_type(state: &mut RuntimeAllocator, info: &SystemInfo) -> (t: AllocatorType)
    requires
        old(state).wf(),
    ensures
        final(state).wf(),
        final(state).config == old(state).config,
        final(state).allocator_id == spec_selected_id(*old(state), info.cpu_cores as nat),
        t == spec_choice_of_id(spec_selected_id(*old(state), info.cpu_cores as nat)),
        old(state).allocator_id != 0 ==> *final(state) == *old(state),
{
    let id = state.get_allocator_id(info);
    allocator_type_from_id(id)
}

/// The live back-end together with the reason it was chosen and the
/// snapshot handed in.  The first call triggers the selection; the choice
/// and its explanation are deterministic in the snapshot, so repeated calls
/// agree.
pub fn get_allocator_info(state: &mut RuntimeAllocator, info: SystemInfo) -> (r: AllocatorInfo)
    requires
        old(state).wf(),
    ensures
        final(state).wf(),
        final(state).config == old(state).config,
        final(state).allocator_id == spec_selected_id(*old(state), info.cpu_cores as nat),
        r.allocator_type == spec_choice_of_id(spec_selected_id(*old(state), info.cpu_cores as nat)),
        r.reason@ == spec_info_reason(
            spec_selected_id(*old(state), info.cpu_cores as nat),
            old(state).config,
            info.cpu_cores as int,
            info.total_memory_bytes,
        ),
        r.system_info == info,
{
    let id = state.get_allocator_id(&info);
    let allocator_type = allocator_type_from_id(id);
    let reason = build_info_reason(id, &state.config, &info);
    AllocatorInfo { allocator_type, reason, system_info: info }
}

/// Compares the live choice against a fresh recommendation for the given
/// snapshot: optimal exactly where the two agree, else a non-empty
/// suggestion naming both and the recommendation's reason.
pub fn check_allocator_optimization(state: &mut RuntimeAllocator, info: &SystemInfo) -> (r: (
    bool,
    Option<String>,
))
    requires
        old(state).wf(),
    ensures
        final(state).wf(),
        final(state).config == old(state).config,
        final(state).allocator_id == spec_selected_id(*old(state), info.cpu_cores as nat),
        r.0 == (spec_choice_of_id(spec_selected_id(*old(state), info.cpu_cores as nat))
            == spec_choice_of_id(spec_select_id(old(state).config, info.cpu_cores as nat))),
        r.0 ==> r.1 is None,
        !r.0 ==> (r.1 matches Some(s) && s@ == spec_suggestion(
            spec_choice_of_id(spec_selected_id(*old(state), info.cpu_cores as nat)),
            spec_choice_of_id(spec_select_id(old(state).config, info.cpu_cores as nat)),
            spec_recommendation_reason(
                old(state).config,
                info.cpu_cores as int,
                info.total_memory_bytes,
            ),
        ) && s@.len() > 0),
{
    let current = get_allocator_type(state, info);
    let rec = get_allocator_selection_result(&state.config, info);
    if current == rec.0 {
        (true, None)
    } else {
        let mut s = String::from_str("Current: ");
        s.append(allocator_type_label(current));
        s.append(", Recommended: ");
        s.append(allocator_type_label(rec.0));
        s.append(" (");
        s.append(rec.1.as_str());
        s.append(")");
        proof {
            reveal_strlit("Current: ");
        }
        (false, Some(s))
    }
}

/// Whenever the live choice was settled from the same capability table and
/// snapshot that the recommendation sees (or is still unsettled, so that the
/// same decision runs now), the optimization check must find the two equal
/// and report the configuration optimal.
pub proof fn lemma_optimization_consistent(st: RuntimeAllocator, cpu_cores: nat)
    requires
        st.wf(),
        st.allocator_id == 0 || st.allocator_id == spec_select_id(st.config, cpu_cores),
    ensures
        spec_choice_of_id(spec_selected_id(st, cpu_cores)) == spec_choice_of_id(
            spec_select_id(st.config, cpu_cores),
        ),
{
}

} // verus!
