use vstd::prelude::*;

use crate::direction::InputDirection;
use crate::model::{position_of, register_model, reset_model, step_model, InputRecord, SimModel};
use crate::table::PositionTable;
use crate::vec2::Vec2;

verus! {

/// One ledger entry: the index of the tick it closed and a full copy of
/// the entity-position mapping immediately after that tick was applied.
/// Created once, never mutated, removed only by a reset.
pub struct TickState {
    pub tick: usize,
    pub positions: PositionTable,
}

/// One logged input: the tick at which it was applied, the entity it
/// addressed and the direction it carried.
#[derive(Copy, Clone)]
pub struct TickInput {
    pub tick: usize,
    pub entity_id: u32,
    pub direction: InputDirection,
}

/// The simulation engine: a caller-constructed handle owning the live
/// entity-position mapping, the tick counter, the append-only history
/// ledger and the input log. Its abstract state is a [`SimModel`], and
/// every operation's contract is stated against the model's transition
/// functions.
pub struct Simulation {
    current_tick: usize,
    positions: PositionTable,
    history: Vec<TickState>,
    inputs: Vec<TickInput>,
}

impl View for Simulation {
    type V = SimModel;

    closed spec fn view(&self) -> SimModel {
        SimModel {
            tick: self.current_tick as nat,
            positions: self.positions@,
            history: self.history@.map_values(|t: TickState| t.positions@),
            inputs: self.inputs@.map_values(
                |t: TickInput|
                    InputRecord {
                        tick: t.tick as nat,
                        entity_id: t.entity_id,
                        direction: t.direction,
                    },
            ),
        }
    }
}

impl Simulation {
    /// Representation invariant: the live table and every snapshot are well
    /// formed, the ledger and the log hold one entry per completed tick,
    /// and entry `i` of each closed tick `i`.
    pub closed spec fn inv(self) -> bool {
        &&& self.positions.wf()
        &&& self.history@.len() == self.current_tick
        &&& self.inputs@.len() == self.current_tick
        &&& forall|i: int|
            0 <= i < self.history@.len() ==> (#[trigger] self.history@[i]).tick == i
                && self.history@[i].positions.wf()
        &&& forall|i: int| 0 <= i < self.inputs@.len() ==> (#[trigger] self.inputs@[i]).tick == i
    }

    /// Builds a fresh engine in the initial state.
    pub fn new() -> (s: Simulation)
        ensures
            s.inv(),
            s@ == SimModel::init(),
    {
        let s = Simulation {
            current_tick: 0,
            positions: PositionTable::new(),
            history: Vec::new(),
            inputs: Vec::new(),
        };
        proof {
            assert(s@ =~~= SimModel::init());
        }
        s
    }

    /// Clears the tick counter, the entity mapping, the ledger and the
    /// input log in one step; always succeeds, from any state.
    pub fn reset_simulation(&mut self)
        ensures
            final(self).inv(),
            final(self)@ == reset_model(old(self)@),
    {
        self.current_tick = 0;
        self.positions.clear();
        self.history.clear();
        self.inputs.clear();
        proof {
            assert(self@ =~~= SimModel::init());
        }
    }

    /// Inserts or overwrites the position of `entity_id` with the given
    /// component bit patterns. The tick counter and the ledger are
    /// untouched: a registration made after some ticks have run shows up
    /// in the next snapshot, never retroactively.
    pub fn register_entity(&mut self, entity_id: u32, x: u32, y: u32)
        requires
            old(self).inv(),
        ensures
            final(self).inv(),
            final(self)@ == register_model(old(self)@, entity_id, x, y),
    {
        self.positions.insert(entity_id, Vec2 { x, y });
        proof {
            assert(self@ =~~= register_model(old(self)@, entity_id, x, y));
        }
    }

    /// Applies one tick driven by `entity_id` and `direction`: a registered
    /// entity's position is set to the direction's delta, an unregistered
    /// one is left alone (and not created); the tick counter then grows by
    /// one, the input is logged, and a full snapshot of the resulting
    /// mapping is appended to the ledger.
    ///
    /// The counter must not be saturated; with one ledger record per tick
    /// that bound is unreachable in practice, and the host checks it before
    /// calling.
    pub fn advance_tick(&mut self, entity_id: u32, direction: InputDirection)
        requires
            old(self).inv(),
            old(self)@.tick < usize::MAX,
        ensures
            final(self).inv(),
            final(self)@ == step_model(old(self)@, entity_id, direction),
    {
        let delta = direction.delta();
        if self.positions.contains_key(entity_id) {
            self.positions.insert(entity_id, delta);
        }
        let current_tick = self.current_tick;
        let snapshot = self.positions.snapshot();
        self.inputs.push(TickInput { tick: current_tick, entity_id, direction });
        self.history.push(TickState { tick: current_tick, positions: snapshot });
        self.current_tick = current_tick + 1;
        proof {
            assert(self@ =~~= step_model(old(self)@, entity_id, direction));
        }
    }

    /// Returns the current position of `entity_id`, or the zero vector when
    /// it is not registered. Never fails.
    pub fn get_position(&self, entity_id: u32) -> (r: Vec2)
        requires
            self.inv(),
        ensures
            r == position_of(self@.positions, entity_id),
    {
        match self.positions.get(entity_id) {
            Some(p) => p,
            None => Vec2::zero(),
        }
    }

    /// Returns the number of completed ticks, i.e. the ledger's length.
    /// Never fails.
    pub fn get_tick_count(&self) -> (r: usize)
        requires
            self.inv(),
        ensures
            r == self@.tick,
            r == self@.history.len(),
    {
        self.history.len()
    }

    /// Returns the position of `entity_id` as the ledger recorded it at
    /// tick `index` (the zero vector if the entity was absent from that
    /// snapshot). An `index` that is not a completed tick is not an error:
    /// the query falls back to the current live position.
    pub fn get_position_at_tick(&self, entity_id: u32, index: usize) -> (r: Vec2)
        requires
            self.inv(),
        ensures
            index < self@.history.len() ==> r == position_of(
                self@.history[index as int],
                entity_id,
            ),
            index >= self@.history.len() ==> r == position_of(self@.positions, entity_id),
    {
        if index < self.history.len() {
            let record = &self.history[index];
            match record.positions.get(entity_id) {
                Some(p) => p,
                None => Vec2::zero(),
            }
        } else {
            self.get_position(entity_id)
        }
    }
}

} // verus!
