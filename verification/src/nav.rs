//! The interactive state machine: game stages, navigation modes, and the
//! input-driven transitions of the per-frame update, including the
//! unit-creation flow that emits workload descriptors.

use vstd::prelude::*;
use crate::descriptor::{
    build_descriptor, descriptor_model, CreateTarget, Descriptor, DescriptorModel,
};
use crate::text::{pop_char, push_char};

verus! {

/// The coarse stage of the front-end.
#[derive(Clone, Copy, Debug, PartialEq, Eq, Structural)]
pub enum GameStage {
    MainMenu,
    Playing,
    Paused,
    GameOver,
}

/// What user input currently means, active while the stage is `Playing`.
#[derive(Clone, Copy, Debug, PartialEq, Eq, Structural)]
pub enum NavigationMode {
    /// Browsing the cluster's nodes.
    Cluster,
    /// Browsing one node.
    Node,
    /// Building a new unit.
    Create,
}

/// One frame's worth of user input, already stripped of key-binding detail.
#[derive(Clone, Copy, Debug, PartialEq, Eq, Structural)]
pub enum Input {
    /// Select the next node.
    Right,
    /// Select the previous node.
    Left,
    /// Confirm: enter node mode, or submit the creation in progress.
    Confirm,
    /// Leave the current mode.
    Escape,
    /// Remove the last character of the address being typed.
    Backspace,
    /// Enter the creation flow.
    CreateKey,
    /// Choose a miner as the unit to create.
    MinerKey,
    /// Choose a processor as the unit to create.
    ProcessorKey,
    /// A printable character typed into the address buffer.
    Character(char),
    /// No input this frame.
    Tick,
}

/// What the application must do after a stage transition.
#[derive(Clone, Copy, Debug, PartialEq, Eq, Structural)]
pub enum StageEffect {
    /// Nothing beyond rendering.
    Nothing,
    /// Play began: start the periodic economy routines.
    StartEconomy,
    /// The user asked to leave the program.
    ExitRequested,
}

/// Mathematical image of a [`GameState`].
pub struct GameStateModel {
    pub index: nat,
    pub mode: NavigationMode,
    pub target: Option<CreateTarget>,
    pub buf: Seq<char>,
    pub credits: nat,
    pub miner_price: nat,
    pub processor_price: nat,
}

/// The interactive cursor and economy state, replaced whole once per frame.
pub struct GameState {
    /// Selected node, reclamped to the node list every frame.
    pub selected_node_index: usize,
    /// Current navigation mode.
    pub navigation_mode: NavigationMode,
    /// In the creation flow: the chosen unit kind, once chosen.
    pub create_target: Option<CreateTarget>,
    /// In the creation flow: the target address being typed.
    pub create_text_buf: String,
    /// Spendable credits; saturating, never negative.
    pub credits: usize,
    /// Current price of a miner (the live miner count).
    pub miner_price: usize,
    /// Current price of a processor (the live processor count).
    pub processor_price: usize,
}

impl View for GameState {
    type V = GameStateModel;

    open spec fn view(&self) -> GameStateModel {
        GameStateModel {
            index: self.selected_node_index as nat,
            mode: self.navigation_mode,
            target: self.create_target,
            buf: self.create_text_buf@,
            credits: self.credits as nat,
            miner_price: self.miner_price as nat,
            processor_price: self.processor_price as nat,
        }
    }
}

/// A character the address buffer accepts: a decimal digit or a dot.
pub open spec fn addr_char(c: char) -> bool {
    c == '.' || (48 <= c as u32 && c as u32 <= 57)
}

/// Every character of the buffer is one the buffer accepts.
pub open spec fn buf_wf(s: Seq<char>) -> bool {
    forall|i: int| 0 <= i < s.len() ==> addr_char(s[i])
}

/// Well-formedness of the interactive state: a creation target exists only
/// inside the creation flow, and the address buffer holds only characters
/// typed through it.
pub open spec fn state_wf(m: GameStateModel) -> bool {
    &&& !(m.mode is Create) ==> m.target is None
    &&& buf_wf(m.buf)
}

/// The state every session starts from.
pub open spec fn initial_state() -> GameStateModel {
    GameStateModel {
        index: 0,
        mode: NavigationMode::Cluster,
        target: None,
        buf: Seq::empty(),
        credits: 0,
        miner_price: 0,
        processor_price: 0,
    }
}

impl GameState {
    /// The initial interactive state.
    pub fn new() -> (s: GameState)
        ensures
            s@ == initial_state(),
            state_wf(s@),
    {
        let s = GameState {
            selected_node_index: 0,
            navigation_mode: NavigationMode::Cluster,
            create_target: None,
            create_text_buf: String::new(),
            credits: 0,
            miner_price: 0,
            processor_price: 0,
        };
        proof {
            assert(s@ =~= initial_state());
        }
        s
    }
}

/// Incrementing the selected index saturates at the machine limit.
pub open spec fn sat_inc(i: nat) -> nat {
    if i >= usize::MAX {
        usize::MAX as nat
    } else {
        i + 1
    }
}

/// Decrementing the selected index saturates at zero.
pub open spec fn sat_dec(i: nat) -> nat {
    if i == 0 {
        0
    } else {
        (i - 1) as nat
    }
}

/// The selected-index policy: a valid index whenever nodes exist, and 0 on an
/// empty cluster, where node navigation is effectively disabled.
pub open spec fn clamp_index(i: nat, n: nat) -> nat {
    if n == 0 {
        0
    } else if i >= n {
        (n - 1) as nat
    } else {
        i
    }
}

/// The price of creating a unit of the chosen kind.
pub open spec fn price_of(m: GameStateModel, kind: CreateTarget) -> nat {
    match kind {
        CreateTarget::Miner => m.miner_price,
        CreateTarget::Processor => m.processor_price,
    }
}

/// One transition of the navigation state machine. `id` is the numeric
/// suffix a creation command emitted by this step would carry.
pub open spec fn nav_step_spec(m: GameStateModel, input: Input, id: nat) -> (GameStateModel, Option<
    DescriptorModel,
>) {
    match m.mode {
        NavigationMode::Cluster => match input {
            Input::Right => (GameStateModel { index: sat_inc(m.index), ..m }, None),
            Input::Left => (GameStateModel { index: sat_dec(m.index), ..m }, None),
            Input::Confirm => (GameStateModel { mode: NavigationMode::Node, ..m }, None),
            Input::CreateKey => (
                GameStateModel {
                    mode: NavigationMode::Create,
                    target: None,
                    buf: Seq::empty(),
                    ..m
                },
                None,
            ),
            _ => (m, None),
        },
        NavigationMode::Node => match input {
            Input::Escape => (GameStateModel { mode: NavigationMode::Cluster, ..m }, None),
            _ => (m, None),
        },
        NavigationMode::Create => match m.target {
            None => match input {
                Input::Escape => (GameStateModel { mode: NavigationMode::Cluster, ..m }, None),
                Input::MinerKey => (
                    GameStateModel { target: Some(CreateTarget::Miner), ..m },
                    None,
                ),
                Input::ProcessorKey => (
                    GameStateModel { target: Some(CreateTarget::Processor), ..m },
                    None,
                ),
                _ => (m, None),
            },
            Some(kind) => if kind is Processor || input is Confirm {
                let back = GameStateModel { mode: NavigationMode::Cluster, target: None, ..m };
                if m.credits >= price_of(m, kind) {
                    (
                        GameStateModel {
                            credits: (m.credits - price_of(m, kind)) as nat,
                            ..back
                        },
                        Some(descriptor_model(kind, m.buf, id)),
                    )
                } else {
                    (back, None)
                }
            } else {
                match input {
                    Input::Escape => (
                        GameStateModel { mode: NavigationMode::Cluster, target: None, ..m },
                        None,
                    ),
                    Input::Backspace => (
                        GameStateModel {
                            buf: if m.buf.len() > 0 {
                                m.buf.drop_last()
                            } else {
                                m.buf
                            },
                            ..m
                        },
                        None,
                    ),
                    Input::Character(c) => (
                        GameStateModel {
                            buf: if addr_char(c) {
                                m.buf.push(c)
                            } else {
                                m.buf
                            },
                            ..m
                        },
                        None,
                    ),
                    _ => (m, None),
                }
            },
        },
    }
}

/// One whole frame of the `Playing` stage: refresh the unit prices from the
/// live counts, apply the navigation transition, then reclamp the selected
/// index against the node count.
pub open spec fn playing_frame_spec(
    m: GameStateModel,
    input: Input,
    node_count: nat,
    miner_count: nat,
    processor_count: nat,
    id: nat,
) -> (GameStateModel, Option<DescriptorModel>) {
    let priced = GameStateModel { miner_price: miner_count, processor_price: processor_count, ..m };
    let (stepped, cmd) = nav_step_spec(priced, input, id);
    (GameStateModel { index: clamp_index(stepped.index, node_count), ..stepped }, cmd)
}

/// One transition of the stage machine.
pub open spec fn stage_step_spec(stage: GameStage, input: Input) -> (GameStage, StageEffect) {
    match stage {
        GameStage::MainMenu => match input {
            Input::Confirm => (GameStage::Playing, StageEffect::StartEconomy),
            Input::Escape => (GameStage::MainMenu, StageEffect::ExitRequested),
            _ => (GameStage::MainMenu, StageEffect::Nothing),
        },
        GameStage::Playing => (GameStage::Playing, StageEffect::Nothing),
        GameStage::Paused => match input {
            Input::Confirm => (GameStage::Playing, StageEffect::Nothing),
            _ => (GameStage::Paused, StageEffect::Nothing),
        },
        GameStage::GameOver => match input {
            Input::Confirm => (GameStage::MainMenu, StageEffect::Nothing),
            _ => (GameStage::GameOver, StageEffect::Nothing),
        },
    }
}

/// Applies the stage machine to one frame of input.
pub fn stage_step(stage: GameStage, input: Input) -> (r: (GameStage, StageEffect))
    ensures
        r == stage_step_spec(stage, input),
{
    match stage {
        GameStage::MainMenu => match input {
            Input::Confirm => (GameStage::Playing, StageEffect::StartEconomy),
            Input::Escape => (GameStage::MainMenu, StageEffect::ExitRequested),
            _ => (GameStage::MainMenu, StageEffect::Nothing),
        },
        GameStage::Playing => (GameStage::Playing, StageEffect::Nothing),
        GameStage::Paused => match input {
            Input::Confirm => (GameStage::Playing, StageEffect::Nothing),
            _ => (GameStage::Paused, StageEffect::Nothing),
        },
        GameStage::GameOver => match input {
            Input::Confirm => (GameStage::MainMenu, StageEffect::Nothing),
            _ => (GameStage::GameOver, StageEffect::Nothing),
        },
    }
}

/// Clamps a selected index to the current node count: the last valid index
/// when the cursor ran past the end, and 0 on an empty cluster.
pub fn clamp_selected(i: usize, node_count: usize) -> (r: usize)
    ensures
        r == clamp_index(i as nat, node_count as nat),
        node_count > 0 ==> r < node_count,
        node_count == 0 ==> r == 0,
{
    if node_count == 0 {
        0
    } else if i >= node_count {
        node_count - 1
    } else {
        i
    }
}

/// Applies one navigation transition to the interactive state. `unit_id` is
/// the generated numeric suffix used if this input completes a creation.
pub fn nav_step(state: &mut GameState, input: Input, unit_id: u32) -> (cmd: Option<Descriptor>)
    requires
        state_wf(old(state)@),
    ensures
        final (state)@ == nav_step_spec(old(state)@, input, unit_id as nat).0,
        cmd.deep_view() == nav_step_spec(old(state)@, input, unit_id as nat).1,
        state_wf(final (state)@),
{
    match state.navigation_mode {
        NavigationMode::Cluster => {
            match input {
                Input::Right => {
                    state.selected_node_index = if state.selected_node_index == usize::MAX {
                        usize::MAX
                    } else {
                        state.selected_node_index + 1
                    };
                },
                Input::Left => {
                    state.selected_node_index = if state.selected_node_index == 0 {
                        0
                    } else {
                        state.selected_node_index - 1
                    };
                },
                Input::Confirm => {
                    state.navigation_mode = NavigationMode::Node;
                },
                Input::CreateKey => {
                    state.navigation_mode = NavigationMode::Create;
                    state.create_target = None;
                    state.create_text_buf = String::new();
                },
                _ => {},
            }
            None
        },
        NavigationMode::Node => {
            match input {
                Input::Escape => {
                    state.navigation_mode = NavigationMode::Cluster;
                },
                _ => {},
            }
            None
        },
        NavigationMode::Create => match state.create_target {
            None => {
                match input {
                    Input::Escape => {
                        state.navigation_mode = NavigationMode::Cluster;
                    },
                    Input::MinerKey => {
                        state.create_target = Some(CreateTarget::Miner);
                    },
                    Input::ProcessorKey => {
                        state.create_target = Some(CreateTarget::Processor);
                    },
                    _ => {},
                }
                None
            },
            Some(kind) => {
                let auto_confirm = match kind {
                    CreateTarget::Processor => true,
                    CreateTarget::Miner => false,
                };
                let confirm = match input {
                    Input::Confirm => true,
                    _ => false,
                };
                if auto_confirm || confirm {
                    let price = match kind {
                        CreateTarget::Miner => state.miner_price,
                        CreateTarget::Processor => state.processor_price,
                    };
                    let cmd = if state.credits >= price {
                        let d = build_descriptor(kind, state.create_text_buf.as_str(), unit_id);
                        state.credits = state.credits - price;
                        Some(d)
                    } else {
                        None
                    };
                    state.navigation_mode = NavigationMode::Cluster;
                    state.create_target = None;
                    cmd
                } else {
                    match input {
                        Input::Escape => {
                            state.navigation_mode = NavigationMode::Cluster;
                            state.create_target = None;
                        },
                        Input::Backspace => {
                            pop_char(&mut state.create_text_buf);
                        },
                        Input::Character(c) => {
                            let code = c as u32;
                            if (48 <= code && code <= 57) || c == '.' {
                                push_char(&mut state.create_text_buf, c);
                            }
                        },
                        _ => {},
                    }
                    None
                }
            },
        },
    }
}

/// One whole `Playing` frame: prices refreshed from the live unit counts,
/// one navigation transition, and the selected index reclamped so that it is
/// valid whenever nodes exist.
pub fn playing_frame(
    state: &mut GameState,
    input: Input,
    node_count: usize,
    miner_count: usize,
    processor_count: usize,
    unit_id: u32,
) -> (cmd: Option<Descriptor>)
    requires
        state_wf(old(state)@),
    ensures
        final (state)@ == playing_frame_spec(
            old(state)@,
            input,
            node_count as nat,
            miner_count as nat,
            processor_count as nat,
            unit_id as nat,
        ).0,
        cmd.deep_view() == playing_frame_spec(
            old(state)@,
            input,
            node_count as nat,
            miner_count as nat,
            processor_count as nat,
            unit_id as nat,
        ).1,
        state_wf(final (state)@),
        node_count > 0 ==> final (state)@.index < node_count,
        node_count == 0 ==> final (state)@.index == 0,
{
    state.miner_price = miner_count;
    state.processor_price = processor_count;
    let cmd = nav_step(state, input, unit_id);
    state.selected_node_index = clamp_selected(state.selected_node_index, node_count);
    cmd
}

/// The state after a whole sequence of `Playing` frames against one fixed
/// snapshot: `node_count`, the unit counts and the generated suffixes `ids`
/// (one per frame) stay fixed while the inputs are applied in order.
pub open spec fn run_playing(
    m: GameStateModel,
    inputs: Seq<Input>,
    ids: Seq<nat>,
    node_count: nat,
    miner_count: nat,
    processor_count: nat,
) -> GameStateModel
    decreases inputs.len(),
{
    if inputs.len() == 0 {
        m
    } else {
        let next = playing_frame_spec(
            m,
            inputs[0],
            node_count,
            miner_count,
            processor_count,
            ids[0],
        ).0;
        run_playing(
            next,
            inputs.subrange(1, inputs.len() as int),
            ids.subrange(1, ids.len() as int),
            node_count,
            miner_count,
            processor_count,
        )
    }
}

/// Whenever the snapshot has at least one node, the selected node index
/// stays a valid index — in `[0, node_count - 1]` — across any sequence of
/// frames, whatever was pressed in each of them.
pub proof fn lemma_selection_in_range(
    m: GameStateModel,
    inputs: Seq<Input>,
    ids: Seq<nat>,
    node_count: nat,
    miner_count: nat,
    processor_count: nat,
)
    requires
        node_count > 0,
        inputs.len() == ids.len(),
        m.index < node_count,
    ensures
        run_playing(m, inputs, ids, node_count, miner_count, processor_count).index < node_count,
    decreases inputs.len(),
{
    if inputs.len() > 0 {
        let next = playing_frame_spec(
            m,
            inputs[0],
            node_count,
            miner_count,
            processor_count,
            ids[0],
        ).0;
        lemma_selection_in_range(
            next,
            inputs.subrange(1, inputs.len() as int),
            ids.subrange(1, ids.len() as int),
            node_count,
            miner_count,
            processor_count,
        );
    }
}

/// The empty-cluster policy: with no nodes in the snapshot, the selected
/// index is pinned to 0 after every frame, rather than left undefined.
pub proof fn lemma_empty_cluster_selection(
    m: GameStateModel,
    inputs: Seq<Input>,
    ids: Seq<nat>,
    miner_count: nat,
    processor_count: nat,
)
    requires
        inputs.len() == ids.len(),
        inputs.len() > 0,
    ensures
        run_playing(m, inputs, ids, 0, miner_count, processor_count).index == 0,
    decreases inputs.len(),
{
    let next = playing_frame_spec(m, inputs[0], 0, miner_count, processor_count, ids[0]).0;
    if inputs.len() == 1 {
        assert(run_playing(
            next,
            inputs.subrange(1, inputs.len() as int),
            ids.subrange(1, ids.len() as int),
            0,
            miner_count,
            processor_count,
        ) == next);
    }
    if inputs.len() > 1 {
        lemma_empty_cluster_selection(
            next,
            inputs.subrange(1, inputs.len() as int),
            ids.subrange(1, ids.len() as int),
            miner_count,
            processor_count,
        );
    }
}

/// Confirming a creation without enough credits changes no credits and
/// emits no command, but still returns to cluster mode.
pub proof fn lemma_creation_insufficient(m: GameStateModel, input: Input, kind: CreateTarget, id: nat)
    requires
        m.mode is Create,
        m.target == Some(kind),
        kind is Processor || input is Confirm,
        m.credits < price_of(m, kind),
    ensures
        nav_step_spec(m, input, id).0.credits == m.credits,
        nav_step_spec(m, input, id).0.mode is Cluster,
        nav_step_spec(m, input, id).1 is None,
{
}

/// Confirming a creation with enough credits deducts exactly the price of
/// the chosen kind and emits exactly one creation command, built from the
/// kind and the typed address, then returns to cluster mode.
pub proof fn lemma_creation_sufficient(m: GameStateModel, input: Input, kind: CreateTarget, id: nat)
    requires
        m.mode is Create,
        m.target == Some(kind),
        kind is Processor || input is Confirm,
        m.credits >= price_of(m, kind),
    ensures
        nav_step_spec(m, input, id).0.credits == m.credits - price_of(m, kind),
        nav_step_spec(m, input, id).0.mode is Cluster,
        nav_step_spec(m, input, id).1 == Some(descriptor_model(kind, m.buf, id)),
{
}

} // verus!
