//! The state machine that sequences pipeline compilation, the seeding pass
//! and the alternating update passes.

use vstd::prelude::*;
use crate::dispatch::{dispatch_for, spec_dispatch, Dispatch, ShaderPass};
use crate::images::{spec_image_binding, spec_present, spec_read_by, spec_written_by, ImageSlot};

verus! {

/// What the host reports of a pipeline that was queued for compilation.
#[derive(Clone, Copy, Debug, PartialEq, Eq, Structural)]
pub enum PipelineStatus {
    /// Queued or still compiling.
    Pending,
    /// Compiled successfully.
    Ready,
    /// Compilation failed.
    Failed,
}

/// Where the scheduler stands.
#[derive(Clone, Copy, Debug, PartialEq, Eq, Structural)]
pub enum ComputeShaderState {
    /// Waiting for the init pipeline.
    Loading,
    /// Seeding the accumulation image, waiting for the update pipeline.
    Init,
    /// Steady state; the index names the image pairing of this tick.
    Update(usize),
}

/// What the host reports at the start of one tick.
#[derive(Clone, Copy, Debug, PartialEq, Eq, Structural)]
pub struct TickInput {
    /// Whether the bind groups of this frame exist.
    pub bindings_ready: bool,
    pub init_pipeline: PipelineStatus,
    pub update_pipeline: PipelineStatus,
}

/// Why a tick could not be taken.
#[derive(Clone, Copy, Debug, PartialEq, Eq, Structural)]
pub enum SchedulerError {
    /// The init pipeline failed to compile; there is nothing to fall back to.
    InitPipelineFailed,
}

impl ComputeShaderState {
    /// An update index is 0 or 1.
    pub open spec fn wf(self) -> bool {
        self matches ComputeShaderState::Update(i) ==> i < 2
    }

    /// The poll is fatal: the init pipeline failed while it was waited for.
    pub open spec fn spec_fatal(self, init: PipelineStatus) -> bool {
        self == ComputeShaderState::Loading && init == PipelineStatus::Failed
    }

    /// The state after one poll of the two pipelines.
    pub open spec fn spec_next(self, init: PipelineStatus, update: PipelineStatus) -> ComputeShaderState {
        match self {
            ComputeShaderState::Loading => if init == PipelineStatus::Ready {
                ComputeShaderState::Init
            } else {
                ComputeShaderState::Loading
            },
            ComputeShaderState::Init => if update == PipelineStatus::Ready {
                ComputeShaderState::Update(1)
            } else {
                ComputeShaderState::Init
            },
            ComputeShaderState::Update(i) => if i == 0 {
                ComputeShaderState::Update(1)
            } else {
                ComputeShaderState::Update(0)
            },
        }
    }

    /// The state after one tick: a fatal poll and a frame without bind groups
    /// both leave it as it was; otherwise the poll decides.
    pub open spec fn spec_tick(self, input: TickInput) -> ComputeShaderState {
        if self.spec_fatal(input.init_pipeline) || !input.bindings_ready {
            self
        } else {
            self.spec_next(input.init_pipeline, input.update_pipeline)
        }
    }

    /// What one tick dispatches: nothing on a fatal poll or without bind
    /// groups; otherwise what the state reached by the poll calls for.
    pub open spec fn spec_tick_dispatch(self, input: TickInput, width: u32, height: u32) -> Option<Dispatch> {
        if self.spec_fatal(input.init_pipeline) || !input.bindings_ready {
            None
        } else {
            self.spec_tick(input).spec_run(width, height)
        }
    }

    /// Position in the order loading, seeding, updating.
    pub open spec fn phase(self) -> nat {
        match self {
            ComputeShaderState::Loading => 0,
            ComputeShaderState::Init => 1,
            ComputeShaderState::Update(_) => 2,
        }
    }

    /// What a tick in this state dispatches for an output of `width` by
    /// `height` pixels: nothing while loading, the init pass against pairing 0
    /// while seeding, the update pass against pairing `i` in `Update(i)`.
    pub open spec fn spec_run(self, width: u32, height: u32) -> Option<Dispatch> {
        match self {
            ComputeShaderState::Loading => None,
            ComputeShaderState::Init => Some(spec_dispatch(ShaderPass::Init, 0, width, height)),
            ComputeShaderState::Update(i) => Some(spec_dispatch(ShaderPass::Update, i, width, height)),
        }
    }
}

/// The scheduler: the only owner and mutator of its state.
#[derive(Clone, Copy, Debug)]
pub struct ComputeShaderNode {
    state: ComputeShaderState,
}

impl ComputeShaderNode {
    #[verifier::type_invariant]
    spec fn inv(self) -> bool {
        self.state.wf()
    }

    /// The state of the scheduler.
    pub closed spec fn view(&self) -> ComputeShaderState {
        self.state
    }

    /// A scheduler that waits for the init pipeline.
    pub fn new() -> (node: ComputeShaderNode)
        ensures
            node@ == ComputeShaderState::Loading,
    {
        ComputeShaderNode { state: ComputeShaderState::Loading }
    }

    /// Returns the current state, whose update index, if any, is 0 or 1.
    pub fn state(&self) -> (state: ComputeShaderState)
        ensures
            state == self@,
            state.wf(),
    {
        proof {
            use_type_invariant(self);
        }
        self.state
    }

    /// Polls the two pipelines and moves to the next state. Fails, leaving the
    /// state as it was, exactly when the init pipeline has failed while the
    /// scheduler was still loading.
    pub fn update(&mut self, init: PipelineStatus, update: PipelineStatus) -> (polled: Result<(), SchedulerError>)
        ensures
            final(self)@.wf(),
            polled is Err <==> old(self)@.spec_fatal(init),
            polled matches Err(e) ==> e == SchedulerError::InitPipelineFailed && final(self)@ == old(self)@,
            polled is Ok ==> final(self)@ == old(self)@.spec_next(init, update),
    {
        proof {
            use_type_invariant(&*self);
        }
        match self.state {
            ComputeShaderState::Loading => match init {
                PipelineStatus::Ready => {
                    self.state = ComputeShaderState::Init;
                    Ok(())
                },
                PipelineStatus::Failed => Err(SchedulerError::InitPipelineFailed),
                PipelineStatus::Pending => Ok(()),
            },
            ComputeShaderState::Init => {
                match update {
                    PipelineStatus::Ready => {
                        self.state = ComputeShaderState::Update(1);
                    },
                    _ => {},
                }
                Ok(())
            },
            ComputeShaderState::Update(i) => {
                if i == 0 {
                    self.state = ComputeShaderState::Update(1);
                } else {
                    self.state = ComputeShaderState::Update(0);
                }
                Ok(())
            },
        }
    }

    /// Decides the dispatch of this tick for an output of `width` by `height`
    /// pixels. The state is not changed.
    pub fn run(&self, width: u32, height: u32) -> (dispatch: Option<Dispatch>)
        ensures
            dispatch == self@.spec_run(width, height),
            dispatch matches Some(d) ==> d.image_set < 2,
    {
        proof {
            use_type_invariant(self);
        }
        match self.state {
            ComputeShaderState::Loading => None,
            ComputeShaderState::Init => Some(dispatch_for(ShaderPass::Init, 0, width, height)),
            ComputeShaderState::Update(i) => Some(dispatch_for(ShaderPass::Update, i, width, height)),
        }
    }

    /// Runs one tick: polls the pipelines, advances, and decides the dispatch.
    ///
    /// A failed init pipeline while loading is reported as an error on every
    /// tick that polls it. A frame whose bind groups do not exist yet is
    /// skipped whole: nothing is dispatched and the state stays, so that the
    /// image pairing of the next dispatch still follows the last one.
    pub fn tick(&mut self, input: &TickInput, width: u32, height: u32) -> (outcome: Result<
        Option<Dispatch>,
        SchedulerError,
    >)
        ensures
            final(self)@ == old(self)@.spec_tick(*input),
            final(self)@.wf(),
            outcome is Err <==> old(self)@.spec_fatal(input.init_pipeline),
            outcome matches Err(e) ==> e == SchedulerError::InitPipelineFailed,
            outcome matches Ok(dispatch) ==> dispatch == old(self)@.spec_tick_dispatch(*input, width, height),
            outcome matches Ok(Some(d)) ==> d.image_set < 2,
    {
        proof {
            use_type_invariant(&*self);
        }
        if !input.bindings_ready {
            match (self.state, input.init_pipeline) {
                (ComputeShaderState::Loading, PipelineStatus::Failed) => Err(SchedulerError::InitPipelineFailed),
                _ => Ok(None),
            }
        } else {
            match self.update(input.init_pipeline, input.update_pipeline) {
                Ok(()) => Ok(self.run(width, height)),
                Err(e) => Err(e),
            }
        }
    }
}

impl Default for ComputeShaderNode {
    /// A scheduler that waits for the init pipeline.
    fn default() -> (node: ComputeShaderNode)
        ensures
            node@ == ComputeShaderState::Loading,
    {
        ComputeShaderNode::new()
    }
}

/// The state after the first `n` ticks of `inputs`, starting from loading.
pub open spec fn state_after(inputs: Seq<TickInput>, n: nat) -> ComputeShaderState
    recommends
        n <= inputs.len(),
    decreases n,
{
    if n == 0 {
        ComputeShaderState::Loading
    } else {
        state_after(inputs, (n - 1) as nat).spec_tick(inputs[n - 1])
    }
}

/// What tick number `n` of `inputs` dispatches, counting from 0.
pub open spec fn dispatch_at(inputs: Seq<TickInput>, n: nat, width: u32, height: u32) -> Option<Dispatch>
    recommends
        n < inputs.len(),
{
    state_after(inputs, n).spec_tick_dispatch(inputs[n as int], width, height)
}

/// The image on display while tick number `n` runs: image A at first, then
/// whatever the latest dispatch before tick `n` wrote.
pub open spec fn shown_at(inputs: Seq<TickInput>, n: nat, width: u32, height: u32) -> ImageSlot
    recommends
        n <= inputs.len(),
    decreases n,
{
    if n == 0 {
        ImageSlot::A
    } else {
        spec_present(
            shown_at(inputs, (n - 1) as nat, width, height),
            dispatch_at(inputs, (n - 1) as nat, width, height),
        )
    }
}

/// The image that the latest dispatch before tick number `n` wrote, if any
/// tick before it dispatched.
pub open spec fn last_written(inputs: Seq<TickInput>, n: nat, width: u32, height: u32) -> Option<ImageSlot>
    recommends
        n <= inputs.len(),
    decreases n,
{
    if n == 0 {
        None
    } else {
        match dispatch_at(inputs, (n - 1) as nat, width, height) {
            Some(d) => Some(spec_written_by(d)),
            None => last_written(inputs, (n - 1) as nat, width, height),
        }
    }
}

/// The state that every tick reaches when none is held back: `loading` ticks
/// of loading, seeding up to tick `seeding`, then updates that start at
/// pairing 1 and alternate.
pub open spec fn pattern_state(loading: nat, seeding: nat, k: nat) -> ComputeShaderState {
    if k < loading {
        ComputeShaderState::Loading
    } else if k < seeding {
        ComputeShaderState::Init
    } else if (k - seeding) % 2 == 0 {
        ComputeShaderState::Update(1)
    } else {
        ComputeShaderState::Update(0)
    }
}

/// The first `n` ticks of `inputs` visit exactly the states of the pattern
/// with the given two lengths.
pub open spec fn follows_pattern(inputs: Seq<TickInput>, n: nat, loading: nat, seeding: nat) -> bool {
    &&& loading < seeding
    &&& forall|k: nat| k <= n ==> #[trigger] state_after(inputs, k) == pattern_state(loading, seeding, k)
}

/// Every state that a run of ticks reaches has an update index of 0 or 1.
pub proof fn lemma_states_well_formed(inputs: Seq<TickInput>, n: nat)
    requires
        n <= inputs.len(),
    ensures
        state_after(inputs, n).wf(),
    decreases n,
{
    if n > 0 {
        lemma_states_well_formed(inputs, (n - 1) as nat);
    }
}

/// One tick either leaves the state as it was or moves it to its one
/// successor: loading to seeding, seeding to `Update(1)`, and each update to
/// the update of the other pairing.
pub proof fn lemma_tick_stays_or_succeeds(inputs: Seq<TickInput>, n: nat)
    requires
        n < inputs.len(),
    ensures
        ({
            let before = state_after(inputs, n);
            let after = state_after(inputs, n + 1);
            ||| after == before
            ||| before == ComputeShaderState::Loading && after == ComputeShaderState::Init
            ||| before == ComputeShaderState::Init && after == ComputeShaderState::Update(1)
            ||| before == ComputeShaderState::Update(1) && after == ComputeShaderState::Update(0)
            ||| before == ComputeShaderState::Update(0) && after == ComputeShaderState::Update(1)
        }),
{
    lemma_states_well_formed(inputs, n);
    assert(state_after(inputs, n + 1) == state_after(inputs, n).spec_tick(inputs[n as int]));
}

/// The scheduler never goes back: a later tick is never in an earlier phase.
pub proof fn lemma_phase_never_decreases(inputs: Seq<TickInput>, i: nat, j: nat)
    requires
        i <= j <= inputs.len(),
    ensures
        state_after(inputs, i).phase() <= state_after(inputs, j).phase(),
    decreases j,
{
    if i < j {
        lemma_phase_never_decreases(inputs, i, (j - 1) as nat);
        lemma_tick_stays_or_succeeds(inputs, (j - 1) as nat);
    }
}

/// No update is reached before seeding: whenever a tick ends in an update
/// state, an earlier tick ended in the seeding state.
pub proof fn lemma_update_follows_init(inputs: Seq<TickInput>, j: nat)
    requires
        j <= inputs.len(),
        state_after(inputs, j).phase() == 2,
    ensures
        exists|i: nat| i < j && #[trigger] state_after(inputs, i) == ComputeShaderState::Init,
    decreases j,
{
    if j > 0 {
        let before = state_after(inputs, (j - 1) as nat);
        lemma_tick_stays_or_succeeds(inputs, (j - 1) as nat);
        if before == ComputeShaderState::Init {
            assert(state_after(inputs, (j - 1) as nat) == ComputeShaderState::Init);
        } else {
            lemma_update_follows_init(inputs, (j - 1) as nat);
            let i = choose|i: nat| i < j - 1 && #[trigger] state_after(inputs, i) == ComputeShaderState::Init;
            assert(i < j && state_after(inputs, i) == ComputeShaderState::Init);
        }
    }
}

/// No update pass is dispatched before seeding: whenever a tick dispatches
/// the update pass, an earlier tick ended in the seeding state.
pub proof fn lemma_update_dispatch_follows_init(inputs: Seq<TickInput>, n: nat, width: u32, height: u32)
    requires
        n < inputs.len(),
        dispatch_at(inputs, n, width, height) matches Some(d) && d.pass == ShaderPass::Update,
    ensures
        exists|i: nat| i <= n && #[trigger] state_after(inputs, i) == ComputeShaderState::Init,
{
    assert(state_after(inputs, n + 1) == state_after(inputs, n).spec_tick(inputs[n as int]));
    lemma_update_follows_init(inputs, n + 1);
    let i = choose|i: nat| i < n + 1 && #[trigger] state_after(inputs, i) == ComputeShaderState::Init;
    assert(i <= n && state_after(inputs, i) == ComputeShaderState::Init);
}

/// Finds the two lengths of the pattern that the first `n` ticks follow.
proof fn lemma_pattern_lengths(inputs: Seq<TickInput>, n: nat) -> (lengths: (nat, nat))
    requires
        n <= inputs.len(),
        forall|k: int| 0 <= k < n ==> (#[trigger] inputs[k]).bindings_ready,
    ensures
        follows_pattern(inputs, n, lengths.0, lengths.1),
        state_after(inputs, n) == ComputeShaderState::Loading ==> n < lengths.0,
        state_after(inputs, n) == ComputeShaderState::Init ==> lengths.0 <= n < lengths.1,
        state_after(inputs, n).phase() == 2 ==> lengths.1 <= n,
        (forall|k: int| 0 <= k < n ==> (#[trigger] inputs[k]).update_pipeline == PipelineStatus::Ready)
            ==> lengths.1 == lengths.0 + 1,
    decreases n,
{
    if n == 0 {
        (1, 2)
    } else {
        let m = (n - 1) as nat;
        let (a, b) = lemma_pattern_lengths(inputs, m);
        lemma_states_well_formed(inputs, m);
        let before = state_after(inputs, m);
        let after = state_after(inputs, n);
        assert(after == before.spec_tick(inputs[m as int]));
        assert(inputs[m as int].bindings_ready);
        let lengths: (nat, nat) = match before {
            ComputeShaderState::Loading => if after == ComputeShaderState::Loading {
                (n + 1, n + 2)
            } else {
                (n, n + 1)
            },
            ComputeShaderState::Init => if after == ComputeShaderState::Init {
                (a, n + 1)
            } else {
                (a, n)
            },
            ComputeShaderState::Update(_) => (a, b),
        };
        assert forall|k: nat| k <= n implies #[trigger] state_after(inputs, k) == pattern_state(
            lengths.0,
            lengths.1,
            k,
        ) by {
            if k < n {
                assert(state_after(inputs, k) == pattern_state(a, b, k));
            }
        }
        lengths
    }
}

/// While no tick is held back for want of bind groups, the states visited
/// are a prefix of: loading any number of times, seeding at least once, then
/// `Update(1)`, `Update(0)`, `Update(1)` and so on in strict alternation.
/// Where the update pipeline is ready at every poll, seeding is visited at
/// most once.
pub proof fn lemma_states_follow_pattern(inputs: Seq<TickInput>)
    requires
        forall|k: int| 0 <= k < inputs.len() ==> (#[trigger] inputs[k]).bindings_ready,
    ensures
        exists|loading: nat, seeding: nat| #[trigger] follows_pattern(inputs, inputs.len(), loading, seeding),
        (forall|k: int| 0 <= k < inputs.len() ==> (#[trigger] inputs[k]).update_pipeline == PipelineStatus::Ready)
            ==> exists|loading: nat| #[trigger] follows_pattern(inputs, inputs.len(), loading, loading + 1),
{
    let (a, b) = lemma_pattern_lengths(inputs, inputs.len());
    assert(follows_pattern(inputs, inputs.len(), a, b));
    if forall|k: int| 0 <= k < inputs.len() ==> (#[trigger] inputs[k]).update_pipeline == PipelineStatus::Ready {
        assert(follows_pattern(inputs, inputs.len(), a, a + 1));
    }
}

/// The display shows what the tick before wrote: while tick `n + 1` runs, the
/// image on display is the write target of tick `n`'s dispatch.
pub proof fn lemma_display_shows_previous_write(inputs: Seq<TickInput>, n: nat, width: u32, height: u32)
    requires
        n < inputs.len(),
        dispatch_at(inputs, n, width, height) is Some,
    ensures
        shown_at(inputs, n + 1, width, height) == spec_written_by(dispatch_at(inputs, n, width, height)->Some_0),
{
    assert(shown_at(inputs, n + 1, width, height) == spec_present(
        shown_at(inputs, n, width, height),
        dispatch_at(inputs, n, width, height),
    ));
}

/// The state records what was written last: nothing while loading, image B
/// while seeding, and in `Update(i)` the write target of pairing `i`.
pub proof fn lemma_state_tells_last_write(inputs: Seq<TickInput>, n: nat, width: u32, height: u32)
    requires
        n <= inputs.len(),
    ensures
        last_written(inputs, n, width, height) == (match state_after(inputs, n) {
            ComputeShaderState::Loading => None,
            ComputeShaderState::Init => Some(ImageSlot::B),
            ComputeShaderState::Update(i) => Some(spec_image_binding(i).write),
        }),
    decreases n,
{
    if n > 0 {
        let m = (n - 1) as nat;
        lemma_state_tells_last_write(inputs, m, width, height);
        lemma_states_well_formed(inputs, m);
        assert(state_after(inputs, n) == state_after(inputs, m).spec_tick(inputs[m as int]));
    }
}

/// The display shows the latest write: image A until something is
/// dispatched, and from then on the write target of the latest dispatch,
/// however many ticks were skipped since.
pub proof fn lemma_display_shows_last_write(inputs: Seq<TickInput>, n: nat, width: u32, height: u32)
    requires
        n <= inputs.len(),
    ensures
        shown_at(inputs, n, width, height) == (match last_written(inputs, n, width, height) {
            Some(written) => written,
            None => ImageSlot::A,
        }),
    decreases n,
{
    if n > 0 {
        lemma_display_shows_last_write(inputs, (n - 1) as nat, width, height);
    }
}

/// No tearing: whenever a tick dispatches the update pass, the pass reads the
/// image that the latest dispatch before it wrote, which is the image on
/// display, and writes the other one.
pub proof fn lemma_update_reads_what_is_shown(inputs: Seq<TickInput>, n: nat, width: u32, height: u32)
    requires
        n < inputs.len(),
        dispatch_at(inputs, n, width, height) matches Some(d) && d.pass == ShaderPass::Update,
    ensures
        last_written(inputs, n, width, height) == Some(spec_read_by(dispatch_at(inputs, n, width, height)->Some_0)),
        shown_at(inputs, n, width, height) == spec_read_by(dispatch_at(inputs, n, width, height)->Some_0),
        shown_at(inputs, n, width, height) != spec_written_by(dispatch_at(inputs, n, width, height)->Some_0),
{
    lemma_state_tells_last_write(inputs, n, width, height);
    lemma_display_shows_last_write(inputs, n, width, height);
    lemma_states_well_formed(inputs, n);
}

} // verus!
