//! The engine's general laws, stated over the abstract model and proved
//! once and for all. Each law speaks of every state, every input or every
//! run of inputs; concrete scenarios live in the crate's tests.

use vstd::prelude::*;

use crate::direction::{delta_of, InputDirection};
use crate::model::{position_of, reset_model, run_model, step_model, SimModel};
use crate::vec2::Vec2;

verus! {

/// The fresh state is well formed.
pub proof fn lemma_init_wf()
    ensures
        SimModel::init().wf(),
{
}

/// One tick preserves well-formedness, advances the counter by exactly one
/// and appends exactly one ledger record and one log entry.
pub proof fn lemma_step_wf(m: SimModel, entity_id: u32, direction: InputDirection)
    requires
        m.wf(),
    ensures
        step_model(m, entity_id, direction).wf(),
        step_model(m, entity_id, direction).tick == m.tick + 1,
        step_model(m, entity_id, direction).history.len() == m.history.len() + 1,
        step_model(m, entity_id, direction).inputs.len() == m.inputs.len() + 1,
{
}

/// After any run of ticks the counter and the ledger have grown by exactly
/// the number of inputs; from the fresh state the tick count therefore
/// equals the number of calls made.
pub proof fn lemma_tick_count_counts_calls(m: SimModel, calls: Seq<(u32, InputDirection)>)
    ensures
        run_model(m, calls).tick == m.tick + calls.len(),
        run_model(m, calls).history.len() == m.history.len() + calls.len(),
        run_model(m, calls).inputs.len() == m.inputs.len() + calls.len(),
    decreases calls.len(),
{
    if calls.len() > 0 {
        lemma_tick_count_counts_calls(m, calls.drop_last());
    }
}

/// Ledger records never change once written: a run only appends, so every
/// record the starting state already had is still there, unchanged.
pub proof fn lemma_history_is_append_only(
    m: SimModel,
    calls: Seq<(u32, InputDirection)>,
    k: int,
)
    requires
        0 <= k < m.history.len(),
    ensures
        run_model(m, calls).history[k] == m.history[k],
    decreases calls.len(),
{
    lemma_tick_count_counts_calls(m, calls);
    if calls.len() > 0 {
        lemma_tick_count_counts_calls(m, calls.drop_last());
        lemma_history_is_append_only(m, calls.drop_last(), k);
    }
}

/// Each ledger record holds the live mapping exactly as it stood right
/// after the tick it closed: record `k` of a run equals the live mapping
/// after the first `k + 1` inputs of that run.
pub proof fn lemma_history_records_live_state(
    m: SimModel,
    calls: Seq<(u32, InputDirection)>,
    k: int,
)
    requires
        0 <= k < calls.len(),
    ensures
        run_model(m, calls).history[m.history.len() + k] == run_model(
            m,
            calls.take(k + 1),
        ).positions,
    decreases calls.len(),
{
    lemma_tick_count_counts_calls(m, calls.drop_last());
    if k == calls.len() - 1 {
        assert(calls.take(k + 1) =~= calls);
    } else {
        lemma_history_records_live_state(m, calls.drop_last(), k);
        assert(calls.drop_last().take(k + 1) =~= calls.take(k + 1));
    }
}

/// From the fresh state: after any run of inputs, ledger record `k` is the
/// live mapping exactly as it stood right after the `k`-th call.
pub proof fn lemma_fresh_run_history(calls: Seq<(u32, InputDirection)>, k: int)
    requires
        0 <= k < calls.len(),
    ensures
        run_model(SimModel::init(), calls).history[k] == run_model(
            SimModel::init(),
            calls.take(k + 1),
        ).positions,
{
    lemma_history_records_live_state(SimModel::init(), calls, k);
}

/// The record a tick has just appended is the live mapping itself: the
/// ledger's last record always matches the state it snapshotted.
pub proof fn lemma_snapshot_matches_live(m: SimModel, entity_id: u32, direction: InputDirection)
    ensures
        step_model(m, entity_id, direction).history.last() == step_model(
            m,
            entity_id,
            direction,
        ).positions,
{
}

/// Reset yields the documented defaults whatever the state was: tick
/// counter zero, empty ledger, empty log, and the zero vector for every
/// entity.
pub proof fn lemma_reset_defaults(m: SimModel, entity_id: u32)
    ensures
        reset_model(m).tick == 0,
        reset_model(m).history.len() == 0,
        reset_model(m).inputs.len() == 0,
        position_of(reset_model(m).positions, entity_id) == Vec2::spec_zero(),
{
}

/// Resetting twice in a row is the same as resetting once.
pub proof fn lemma_reset_idempotent(m: SimModel)
    ensures
        reset_model(reset_model(m)) == reset_model(m),
{
}

/// For a registered entity one tick sets — it does not accumulate — the
/// position to the direction's delta, whatever the position was before.
pub proof fn lemma_tick_sets_delta(m: SimModel, entity_id: u32, direction: InputDirection)
    requires
        m.positions.dom().contains(entity_id),
    ensures
        position_of(step_model(m, entity_id, direction).positions, entity_id) == delta_of(
            direction,
        ),
{
}

/// Driving an unregistered entity creates nothing: the mapping is left
/// exactly as it was, while the tick still counts and a record capturing
/// the unchanged state is still appended.
pub proof fn lemma_unknown_entity_is_safe(m: SimModel, entity_id: u32, direction: InputDirection)
    requires
        !m.positions.dom().contains(entity_id),
    ensures
        step_model(m, entity_id, direction).positions == m.positions,
        step_model(m, entity_id, direction).tick == m.tick + 1,
        step_model(m, entity_id, direction).history.last() == m.positions,
{
}

/// Advancing one entity leaves every other entity's live and freshly
/// recorded position unchanged.
pub proof fn lemma_entity_isolation(
    m: SimModel,
    entity_id: u32,
    direction: InputDirection,
    other: u32,
)
    requires
        other != entity_id,
    ensures
        position_of(step_model(m, entity_id, direction).positions, other) == position_of(
            m.positions,
            other,
        ),
        position_of(step_model(m, entity_id, direction).history.last(), other) == position_of(
            m.positions,
            other,
        ),
{
}

} // verus!
