//! The shared state store and the per-frame entry point.
//!
//! One value of [`SharedState`] holds the latest cluster snapshot, the
//! interactive state and the current stage. Snapshots arriving from the
//! synchronization loop replace the held one wholesale, in receipt order —
//! the last received wins. Each frame the application drains pending
//! snapshots, applies one frame of input, and then renders.

use vstd::prelude::*;
use crate::descriptor::{random_unit_id, Descriptor, DescriptorModel};
use crate::model::{count_kind, count_units, ClusterSnapshot, SnapshotModel, UnitKind};
use crate::nav::{
    playing_frame, playing_frame_spec, stage_step, stage_step_spec, state_wf, GameStage, GameState,
    GameStateModel, Input, StageEffect,
};

verus! {

/// The process-wide state the render loop and the background routines share.
pub struct SharedState {
    /// The coarse stage of the front-end.
    pub stage: GameStage,
    /// The latest cluster snapshot received.
    pub snapshot: ClusterSnapshot,
    /// The interactive navigation and economy state.
    pub game: GameState,
}

impl SharedState {
    /// The starting state: main menu, fresh interactive state, and the
    /// first snapshot fetched before the loops began.
    pub fn new(snapshot: ClusterSnapshot) -> (s: SharedState)
        ensures
            s.stage is MainMenu,
            s.game@ == crate::nav::initial_state(),
            state_wf(s.game@),
            s.snapshot == snapshot,
    {
        SharedState { stage: GameStage::MainMenu, snapshot, game: GameState::new() }
    }

    /// Replaces the held snapshot wholesale; nothing else changes.
    pub fn store_snapshot(&mut self, snapshot: ClusterSnapshot)
        ensures
            final (self).snapshot == snapshot,
            final (self).stage == old(self).stage,
            final (self).game == old(self).game,
    {
        self.snapshot = snapshot;
    }

    /// Applies a drained batch of snapshots in receipt order: the last one
    /// received wins, and an empty batch changes nothing.
    pub fn apply_snapshots(&mut self, batch: Vec<ClusterSnapshot>)
        ensures
            batch@.len() == 0 ==> final (self).snapshot == old(self).snapshot,
            batch@.len() > 0 ==> final (self).snapshot == batch@.last(),
            final (self).stage == old(self).stage,
            final (self).game == old(self).game,
    {
        let ghost orig = batch@;
        let mut rest = batch;
        let mut applied: usize = 0;
        while rest.len() > 0
            invariant
                applied + rest.len() == orig.len(),
                applied + rest.len() <= usize::MAX,
                rest@ =~= orig.subrange(applied as int, orig.len() as int),
                applied == 0 ==> self.snapshot == old(self).snapshot,
                applied > 0 ==> self.snapshot == orig[applied - 1],
                self.stage == old(self).stage,
                self.game == old(self).game,
            decreases rest.len(),
        {
            let s = rest.remove(0);
            self.store_snapshot(s);
            applied = applied + 1;
        }
    }
}

/// What one frame hands back to the application: at most one creation
/// command to queue for submission, and the stage transition's effect.
pub struct FrameOutcome {
    /// The creation command this frame emitted, if any.
    pub command: Option<Descriptor>,
    /// What the application must do after the stage transition.
    pub effect: StageEffect,
}

/// One whole frame over the shared state: the unit prices are refreshed
/// from the live counts of the held snapshot in every stage, the stage
/// machine steps, and while playing the navigation machine steps and the
/// selected index is reclamped to the snapshot's node count.
pub open spec fn frame_spec(
    stage: GameStage,
    m: GameStateModel,
    snapshot: SnapshotModel,
    input: Input,
    id: nat,
) -> (GameStage, GameStateModel, Option<DescriptorModel>, StageEffect) {
    let miner_count = count_kind(snapshot.workloads, UnitKind::Miner);
    let processor_count = count_kind(snapshot.workloads, UnitKind::Processor);
    let (next_stage, effect) = stage_step_spec(stage, input);
    if stage is Playing {
        let (m2, cmd) = playing_frame_spec(
            m,
            input,
            snapshot.nodes.len(),
            miner_count,
            processor_count,
            id,
        );
        (next_stage, m2, cmd, effect)
    } else {
        (
            next_stage,
            GameStateModel { miner_price: miner_count, processor_price: processor_count, ..m },
            None,
            effect,
        )
    }
}

impl SharedState {
    /// One frame of input, with the creation suffix supplied by the caller.
    pub fn frame_with_id(&mut self, input: Input, unit_id: u32) -> (r: FrameOutcome)
        requires
            state_wf(old(self).game@),
        ensures
            final (self).stage == frame_spec(
                old(self).stage,
                old(self).game@,
                old(self).snapshot@,
                input,
                unit_id as nat,
            ).0,
            final (self).game@ == frame_spec(
                old(self).stage,
                old(self).game@,
                old(self).snapshot@,
                input,
                unit_id as nat,
            ).1,
            r.command.deep_view() == frame_spec(
                old(self).stage,
                old(self).game@,
                old(self).snapshot@,
                input,
                unit_id as nat,
            ).2,
            r.effect == frame_spec(
                old(self).stage,
                old(self).game@,
                old(self).snapshot@,
                input,
                unit_id as nat,
            ).3,
            final (self).snapshot == old(self).snapshot,
            state_wf(final (self).game@),
    {
        let miner_count = count_units(&self.snapshot.workloads, UnitKind::Miner);
        let processor_count = count_units(&self.snapshot.workloads, UnitKind::Processor);
        let (next_stage, effect) = stage_step(self.stage, input);
        let playing = match self.stage {
            GameStage::Playing => true,
            _ => false,
        };
        let command = if playing {
            let node_count = self.snapshot.nodes.len();
            playing_frame(&mut self.game, input, node_count, miner_count, processor_count, unit_id)
        } else {
            self.game.miner_price = miner_count;
            self.game.processor_price = processor_count;
            None
        };
        self.stage = next_stage;
        FrameOutcome { command, effect }
    }

    /// One frame of input. If the input completes a creation, the emitted
    /// command carries a freshly drawn pseudo-random suffix.
    pub fn frame(&mut self, input: Input) -> (r: FrameOutcome)
        requires
            state_wf(old(self).game@),
        ensures
            exists|id: nat|
                {
                    &&& final (self).stage == frame_spec(
                        old(self).stage,
                        old(self).game@,
                        old(self).snapshot@,
                        input,
                        id,
                    ).0
                    &&& final (self).game@ == frame_spec(
                        old(self).stage,
                        old(self).game@,
                        old(self).snapshot@,
                        input,
                        id,
                    ).1
                    &&& r.command.deep_view() == frame_spec(
                        old(self).stage,
                        old(self).game@,
                        old(self).snapshot@,
                        input,
                        id,
                    ).2
                    &&& r.effect == #[trigger] frame_spec(
                        old(self).stage,
                        old(self).game@,
                        old(self).snapshot@,
                        input,
                        id,
                    ).3
                },
            final (self).snapshot == old(self).snapshot,
            state_wf(final (self).game@),
    {
        let unit_id = random_unit_id();
        let r = self.frame_with_id(input, unit_id);
        proof {
            let id = unit_id as nat;
            assert(r.effect == frame_spec(
                old(self).stage,
                old(self).game@,
                old(self).snapshot@,
                input,
                id,
            ).3);
        }
        r
    }
}

} // verus!
