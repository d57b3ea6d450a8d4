use vstd::prelude::*;

use crate::direction::{delta_of, InputDirection};
use crate::vec2::Vec2;

verus! {

/// One logged input as the abstract state records it: the tick at which it
/// was applied, the entity it addressed and the direction it carried.
pub struct InputRecord {
    pub tick: nat,
    pub entity_id: u32,
    pub direction: InputDirection,
}

/// The abstract state of the engine: the tick counter, the live
/// entity-position mapping, the ledger of full per-tick snapshots and the
/// log of inputs, one of each per completed tick.
#[verifier::ext_equal]
pub struct SimModel {
    pub tick: nat,
    pub positions: Map<u32, Vec2>,
    pub history: Seq<Map<u32, Vec2>>,
    pub inputs: Seq<InputRecord>,
}

impl SimModel {
    /// The fresh state: tick zero, no entities, empty ledger, empty log.
    pub open spec fn init() -> SimModel {
        SimModel {
            tick: 0,
            positions: Map::empty(),
            history: Seq::empty(),
            inputs: Seq::empty(),
        }
    }

    /// Every reachable state keeps exactly one ledger record and one logged
    /// input per completed tick, each logged at the tick it closed.
    pub open spec fn wf(self) -> bool {
        &&& self.history.len() == self.tick
        &&& self.inputs.len() == self.tick
        &&& forall|i: int| 0 <= i < self.inputs.len() ==> (#[trigger] self.inputs[i]).tick == i
    }
}

/// The position of `id` in mapping `m`, or the zero vector when `id` is
/// absent — the defined fallback of every position query.
pub open spec fn position_of(m: Map<u32, Vec2>, id: u32) -> Vec2 {
    if m.dom().contains(id) {
        m[id]
    } else {
        Vec2::spec_zero()
    }
}

/// One tick. When `entity_id` is registered its position is set — not
/// accumulated — to the direction's delta; an unregistered entity is left
/// alone and none is created. Either way the tick counter grows by exactly
/// one, the input is logged, and a full snapshot of the resulting mapping
/// is appended to the ledger.
pub open spec fn step_model(m: SimModel, entity_id: u32, direction: InputDirection) -> SimModel {
    let positions = if m.positions.dom().contains(entity_id) {
        m.positions.insert(entity_id, delta_of(direction))
    } else {
        m.positions
    };
    SimModel {
        tick: m.tick + 1,
        positions,
        history: m.history.push(positions),
        inputs: m.inputs.push(InputRecord { tick: m.tick, entity_id, direction }),
    }
}

/// Registration inserts or overwrites one entity's position and touches
/// neither the tick counter, the ledger, nor the input log: records already
/// written stay immutable, and the new position shows up first in the next
/// tick's snapshot.
pub open spec fn register_model(m: SimModel, entity_id: u32, x: u32, y: u32) -> SimModel {
    SimModel { positions: m.positions.insert(entity_id, Vec2 { x, y }), ..m }
}

/// Reset discards everything: from any state it yields the fresh state.
pub open spec fn reset_model(m: SimModel) -> SimModel {
    SimModel::init()
}

/// The state after applying a whole sequence of tick inputs in order, each
/// given as the driven entity and its direction.
pub open spec fn run_model(m: SimModel, calls: Seq<(u32, InputDirection)>) -> SimModel
    decreases calls.len(),
{
    if calls.len() == 0 {
        m
    } else {
        step_model(run_model(m, calls.drop_last()), calls.last().0, calls.last().1)
    }
}

} // verus!
