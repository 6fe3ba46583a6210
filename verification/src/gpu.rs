//! The device backend.
//!
//! A run is one compute cycle followed by as many iterations as the settings
//! ask for. A compute cycle seeds the device, dispatches the kernel and reads
//! the results back into one of two batch slots. An iteration starts writing
//! the batch that was read back last, runs the next compute cycle into the
//! other slot while that write is under way, and then waits for the write.
//! The results of the last cycle are never written.
//!
//! The first half of this module is the host side of one compute cycle: the
//! seed set and the sizes the kernel is launched with. The kernel takes, in
//! this order, the seed buffer, the result buffer, the radial rate and the
//! vertical rate. The second half is the schedule: a machine that decides
//! what happens next, while the caller does it and reports how it went.
//! Nothing is retried: the first failure ends the run.

use vstd::prelude::*;
use crate::bits::ZERO;
use crate::config::{Config, COORDINATES};
use crate::source::{fresh_seed_rng, next_seed};

verus! {

/// The name the kernel is looked up by.
pub const KERNEL_NAME: &'static str = "generate_points";

/// What the host hands to the device for one compute cycle.
pub struct Launch {
    /// One seed for every work group, drawn for this cycle alone.
    pub seeds: Vec<i64>,
    /// The length of the result buffer, in coordinates.
    pub result_len: usize,
    /// The number of work items: one for every point.
    pub work_size: usize,
    /// The radial rate, as a bit pattern.
    pub radial_rate: u32,
    /// The vertical rate, as a bit pattern.
    pub vertical_rate: u32,
}

/// The number of work groups, each with a seed of its own: as many as the
/// group size goes into the point count.
pub open spec fn groups_of(config: Config) -> int {
    config.point_count() as int / config.group_size() as int
}

/// The launch is the one the settings call for.
pub open spec fn launches(launch: Launch, config: Config) -> bool {
    &&& launch.seeds.len() == groups_of(config)
    &&& launch.result_len == COORDINATES * config.point_count()
    &&& launch.work_size == config.point_count()
    &&& launch.radial_rate == config.radial_rate()
    &&& launch.vertical_rate == config.vertical_rate()
}

/// Draws a seed set of `count` seeds, one after the other, from `rng`.
pub fn draw_seeds(count: usize, rng: &turborand::rng::Rng) -> (seeds: Vec<i64>)
    ensures
        seeds.len() == count,
{
    let mut seeds: Vec<i64> = Vec::with_capacity(count);
    let mut i: usize = 0;
    while i < count
        invariant
            i <= count,
            seeds.len() == i,
        decreases count - i,
    {
        seeds.push(next_seed(rng));
        i = i + 1;
    }
    seeds
}

/// Prepares one compute cycle with seeds drawn from `rng`.
pub fn prepare_with(config: &Config, rng: &turborand::rng::Rng) -> (launch: Launch)
    ensures
        launches(launch, *config),
{
    proof {
        use_type_invariant(config);
        config.lemma_sound();
    }
    let points: usize = config.point_count();
    Launch {
        seeds: draw_seeds(points / config.group_size(), rng),
        result_len: COORDINATES * points,
        work_size: points,
        radial_rate: config.radial_rate(),
        vertical_rate: config.vertical_rate(),
    }
}

/// Prepares one compute cycle with seeds from a generator made for this
/// cycle alone.
pub fn prepare(config: &Config) -> (launch: Launch)
    ensures
        launches(launch, *config),
{
    let rng = fresh_seed_rng();
    prepare_with(config, &rng)
}

/// A batch buffer for the results of one compute cycle: three coordinates
/// for every point, all of them zero.
pub fn blank_batch(config: &Config) -> (batch: Vec<u32>)
    ensures
        batch.len() == COORDINATES * config.point_count(),
        forall|i: int| 0 <= i < batch.len() ==> batch[i] == ZERO,
{
    proof {
        use_type_invariant(config);
        config.lemma_sound();
    }
    vec![ZERO; COORDINATES * config.point_count()]
}

/// One of the two batch buffers.
#[derive(Clone, Copy, Debug, PartialEq, Eq, Structural)]
pub enum Slot {
    Front,
    Back,
}

/// Where a run stands: the step whose outcome is awaited, or how the run
/// ended.
#[derive(Clone, Copy, Debug, PartialEq, Eq, Structural)]
pub enum Stage {
    /// A seed set is being drawn and handed to the device.
    Seed,
    /// The kernel is being enqueued.
    Dispatch,
    /// The results are being read back.
    Readback,
    /// The write of the last batch read back is being started.
    StartWrite,
    /// The write under way is being waited for.
    AwaitWrite,
    /// Every batch has reached storage.
    Done,
    /// The run was cancelled between two iterations.
    Cancelled,
    /// A step failed.
    Failed,
}

/// What the caller is to do next.
#[derive(Clone, Copy, Debug, PartialEq, Eq, Structural)]
pub enum Action {
    /// Draw a fresh seed set and hand it to the device.
    Seed { cycle: usize, slot: Slot },
    /// Enqueue the kernel on the seeds just drawn.
    Dispatch { cycle: usize, slot: Slot },
    /// Wait for the kernel and copy its results into `slot`.
    Readback { cycle: usize, slot: Slot },
    /// Begin to write the batch held in `slot` to storage, without waiting.
    StartWrite { batch: usize, slot: Slot },
    /// Wait until the write of `batch` has reached storage.
    AwaitWrite { batch: usize, slot: Slot },
    /// Every batch is written: the run is over.
    Finish,
    /// The run was cancelled between two iterations.
    Stop,
    /// The step `failed` did not complete: give up.
    Abort { failed: Stage },
}

/// How the step that was asked for went.
#[derive(Clone, Copy, Debug, PartialEq, Eq, Structural)]
pub enum Outcome {
    Completed,
    Failed,
}

/// The state of a run as contracts see it.
pub struct PipelineView {
    /// Batches to write.
    pub iterations: usize,
    /// The compute cycle under way, or the last one that ran.
    pub cycle: usize,
    /// Batches that have reached storage.
    pub written: usize,
    /// The step whose outcome is awaited, or how the run ended.
    pub stage: Stage,
    /// Cancellation was asked for and waits for the next iteration boundary.
    pub cancel: bool,
    /// The step that failed, once one has.
    pub fault: Option<Stage>,
}

/// The state of a run.
#[derive(Clone, Copy, Debug)]
pub struct Pipeline {
    iterations: usize,
    cycle: usize,
    written: usize,
    stage: Stage,
    cancel: bool,
    fault: Option<Stage>,
}

/// The slot that compute cycle `index` fills and that batch `index` is
/// written from: the two alternate.
pub open spec fn slot_of(index: usize) -> Slot {
    if index % 2 == 0 {
        Slot::Front
    } else {
        Slot::Back
    }
}

/// The stage is a step of the run, not one of its ends.
pub open spec fn is_step(stage: Stage) -> bool {
    !(stage is Done || stage is Cancelled || stage is Failed)
}

/// The run has ended, one way or another.
pub open spec fn terminal(v: PipelineView) -> bool {
    !is_step(v.stage)
}

/// A compute cycle is under way.
pub open spec fn computing(v: PipelineView) -> bool {
    v.stage is Seed || v.stage is Dispatch || v.stage is Readback
}

/// The states a run can be in.
pub open spec fn wf(v: PipelineView) -> bool {
    &&& v.stage is Failed <==> v.fault is Some
    &&& v.fault matches Some(step) ==> is_step(step)
    &&& counts_fit(v)
}

/// The cycle under way and the batches written agree with the stage.
pub open spec fn counts_fit(v: PipelineView) -> bool {
    match v.stage {
        Stage::Seed | Stage::Dispatch | Stage::Readback => {
            &&& v.cycle <= v.iterations
            &&& v.cycle == 0 ==> v.written == 0
            &&& v.cycle > 0 ==> v.cycle == v.written + 1
        },
        Stage::StartWrite => v.cycle == v.written && v.written < v.iterations,
        Stage::AwaitWrite => v.cycle == v.written + 1 && v.cycle <= v.iterations,
        Stage::Done => v.cycle == v.written && v.written == v.iterations,
        Stage::Cancelled => v.cycle == v.written && v.written < v.iterations && v.cancel,
        Stage::Failed => v.written <= v.cycle <= v.iterations,
    }
}

/// The state in which a run of `iterations` batches begins.
pub open spec fn initial(iterations: usize) -> PipelineView {
    PipelineView {
        iterations,
        cycle: 0,
        written: 0,
        stage: Stage::Seed,
        cancel: false,
        fault: None,
    }
}

/// The slot the compute cycle under way is filling, if one is under way.
pub open spec fn compute_slot(v: PipelineView) -> Option<Slot> {
    if computing(v) {
        Some(slot_of(v.cycle))
    } else {
        None
    }
}

/// The slot a write is reading from, if a write has been started and not yet
/// waited for.
pub open spec fn write_slot(v: PipelineView) -> Option<Slot> {
    if v.stage is AwaitWrite || (computing(v) && v.cycle > 0) {
        Some(slot_of(v.written))
    } else {
        None
    }
}

/// What the caller is to do in state `v`.
pub open spec fn action_of(v: PipelineView) -> Action {
    match v.stage {
        Stage::Seed => Action::Seed { cycle: v.cycle, slot: slot_of(v.cycle) },
        Stage::Dispatch => Action::Dispatch { cycle: v.cycle, slot: slot_of(v.cycle) },
        Stage::Readback => Action::Readback { cycle: v.cycle, slot: slot_of(v.cycle) },
        Stage::StartWrite => Action::StartWrite { batch: v.written, slot: slot_of(v.written) },
        Stage::AwaitWrite => Action::AwaitWrite { batch: v.written, slot: slot_of(v.written) },
        Stage::Done => Action::Finish,
        Stage::Cancelled => Action::Stop,
        Stage::Failed => Action::Abort {
            failed: match v.fault {
                Some(step) => step,
                None => Stage::Failed,
            },
        },
    }
}

/// The state between two iterations, once `v.written` batches are written:
/// the end of the run, a cancellation that was waiting, or the next write.
pub open spec fn boundary(v: PipelineView) -> PipelineView {
    if v.written == v.iterations {
        PipelineView { stage: Stage::Done, ..v }
    } else if v.cancel {
        PipelineView { stage: Stage::Cancelled, ..v }
    } else {
        PipelineView { stage: Stage::StartWrite, ..v }
    }
}

/// The state that follows `v` once the step asked for in `v` has gone as
/// `outcome` says. A run that has ended stays as it is.
pub open spec fn next(v: PipelineView, outcome: Outcome) -> PipelineView {
    if terminal(v) {
        v
    } else if outcome is Failed {
        PipelineView { stage: Stage::Failed, fault: Some(v.stage), ..v }
    } else {
        match v.stage {
            Stage::Seed => PipelineView { stage: Stage::Dispatch, ..v },
            Stage::Dispatch => PipelineView { stage: Stage::Readback, ..v },
            Stage::Readback => if v.cycle == 0 {
                boundary(v)
            } else {
                PipelineView { stage: Stage::AwaitWrite, ..v }
            },
            Stage::StartWrite => PipelineView {
                stage: Stage::Seed,
                cycle: (v.cycle + 1) as usize,
                ..v
            },
            Stage::AwaitWrite => boundary(
                PipelineView { written: (v.written + 1) as usize, ..v },
            ),
            _ => v,
        }
    }
}

/// The state after cancellation has been asked for in `v`: the request is
/// noted unless the run has ended already.
pub open spec fn cancelling(v: PipelineView) -> PipelineView {
    if terminal(v) {
        v
    } else {
        PipelineView { cancel: true, ..v }
    }
}

/// The state after `steps` steps that all completed.
pub open spec fn after(v: PipelineView, steps: nat) -> PipelineView
    decreases steps,
{
    if steps == 0 {
        v
    } else {
        after(next(v, Outcome::Completed), (steps - 1) as nat)
    }
}

/// The number of steps that a run in state `v` still takes if every step
/// completes and nobody cancels.
pub open spec fn remaining(v: PipelineView) -> int {
    let left = 5 * (v.iterations - v.written);
    match v.stage {
        Stage::Seed => if v.cycle == 0 { left + 3 } else { left - 1 },
        Stage::Dispatch => if v.cycle == 0 { left + 2 } else { left - 2 },
        Stage::Readback => if v.cycle == 0 { left + 1 } else { left - 3 },
        Stage::StartWrite => left,
        Stage::AwaitWrite => left - 4,
        _ => 0,
    }
}

/// Whatever the outcome of a step, the run stays in a state it can be in.
pub proof fn lemma_next_keeps_wf(v: PipelineView, outcome: Outcome)
    requires
        wf(v),
    ensures
        wf(next(v, outcome)),
        next(v, outcome).iterations == v.iterations,
        next(v, outcome).cancel == v.cancel,
{
}

/// Asking for cancellation changes nothing but the request itself.
pub proof fn lemma_cancelling_keeps_wf(v: PipelineView)
    requires
        wf(v),
    ensures
        wf(cancelling(v)),
        cancelling(v).stage == v.stage,
        cancelling(v).cycle == v.cycle,
        cancelling(v).written == v.written,
{
}

/// Double buffering: while a write is under way, the compute cycle that
/// overlaps it fills the other slot.
pub proof fn lemma_slots_differ(v: PipelineView)
    requires
        wf(v),
        compute_slot(v) is Some,
        write_slot(v) is Some,
    ensures
        compute_slot(v) != write_slot(v),
{
}

/// A write is started only when none is under way, and it is the write of
/// the batch that the last compute cycle read back.
pub proof fn lemma_write_starts_alone(v: PipelineView)
    requires
        wf(v),
        v.stage is StartWrite,
    ensures
        write_slot(v) is None,
        compute_slot(v) is None,
        action_of(v) == (Action::StartWrite { batch: v.cycle, slot: slot_of(v.cycle) }),
{
}

/// The first failure ends the run, and a run that has ended takes no
/// further step.
pub proof fn lemma_failure_is_final(v: PipelineView, outcome: Outcome)
    ensures
        !terminal(v) ==> next(v, Outcome::Failed).stage is Failed,
        !terminal(v) ==> action_of(next(v, Outcome::Failed)) == (Action::Abort { failed: v.stage }),
        terminal(v) ==> next(v, outcome) == v,
        next(v, outcome).stage is Failed ==> v.stage is Failed || outcome is Failed,
{
}

/// The number of written batches grows only when a write has been waited
/// for, and then by one: batches reach storage one at a time, in the order
/// in which they were computed.
pub proof fn lemma_written_in_order(v: PipelineView, outcome: Outcome)
    requires
        wf(v),
    ensures
        v.stage is AwaitWrite && outcome is Completed ==> next(v, outcome).written == v.written
            + 1,
        !(v.stage is AwaitWrite && outcome is Completed) ==> next(v, outcome).written
            == v.written,
        next(v, outcome).stage is Done ==> next(v, outcome).written == v.iterations,
{
}

/// No kernel is dispatched on seeds that an earlier dispatch has used: every
/// dispatch follows the seeding of its own cycle.
pub proof fn lemma_dispatch_is_seeded(v: PipelineView, outcome: Outcome)
    requires
        wf(v),
        next(v, outcome).stage is Dispatch,
    ensures
        v.stage is Seed,
        outcome is Completed,
        next(v, outcome).cycle == v.cycle,
{
}

/// Once cancellation has been asked for, no further write is started.
pub proof fn lemma_cancel_stops_writes(v: PipelineView, outcome: Outcome)
    requires
        wf(v),
        v.cancel,
    ensures
        !(next(v, outcome).stage is StartWrite),
{
}

/// Every step that completes brings a run that nobody cancels one step
/// closer to its end, and only a run that has ended has no step left.
pub proof fn lemma_step_counts_down(v: PipelineView)
    requires
        wf(v),
    ensures
        remaining(v) >= 0,
        remaining(v) == 0 <==> terminal(v),
        !terminal(v) && !v.cancel ==> remaining(next(v, Outcome::Completed)) == remaining(v)
            - 1,
{
}

/// A run that nobody cancels and in which no step fails ends as done after
/// exactly the steps that `remaining` counts.
pub proof fn lemma_run_ends(v: PipelineView, steps: nat)
    requires
        wf(v),
        !v.cancel,
        !(v.stage is Failed),
        steps == remaining(v),
    ensures
        after(v, steps).stage is Done,
        after(v, steps).written == v.iterations,
    decreases steps,
{
    lemma_step_counts_down(v);
    if steps > 0 {
        let w = next(v, Outcome::Completed);
        lemma_next_keeps_wf(v, Outcome::Completed);
        lemma_run_ends(w, (steps - 1) as nat);
    }
}

/// From its start, a run of `iterations` batches that meets no failure takes
/// three steps for the first compute cycle and five for every iteration, and
/// ends with every batch written.
pub proof fn lemma_run_length(iterations: usize)
    ensures
        wf(initial(iterations)),
        after(initial(iterations), (3 + 5 * iterations) as nat).stage is Done,
        after(initial(iterations), (3 + 5 * iterations) as nat).written == iterations,
{
    lemma_run_ends(initial(iterations), (3 + 5 * iterations) as nat);
}

/// The two batch slots and the storage, as a caller that carries out every
/// action keeps them: what each slot holds, and the batches that have reached
/// storage, oldest first.
pub struct Store {
    pub front: Seq<u32>,
    pub back: Seq<u32>,
    pub batches: Seq<Seq<u32>>,
}

/// What a slot holds.
pub open spec fn held(store: Store, slot: Slot) -> Seq<u32> {
    match slot {
        Slot::Front => store.front,
        Slot::Back => store.back,
    }
}

/// What carrying out `action` does to slots and storage, where compute cycle
/// `c` delivers `results[c]`. A readback overwrites its slot; the wait for a
/// write ends with the slot's content in storage, taken as late as can be;
/// nothing else touches either.
pub open spec fn carried_out(store: Store, action: Action, results: Seq<Seq<u32>>) -> Store {
    match action {
        Action::Readback { cycle, slot } => match slot {
            Slot::Front => Store { front: results[cycle as int], ..store },
            Slot::Back => Store { back: results[cycle as int], ..store },
        },
        Action::AwaitWrite { batch, slot } => Store {
            batches: store.batches.push(held(store, slot)),
            ..store
        },
        _ => store,
    }
}

/// State and store after `steps` steps that were carried out and completed.
pub open spec fn after_carrying(
    v: PipelineView,
    store: Store,
    results: Seq<Seq<u32>>,
    steps: nat,
) -> (PipelineView, Store)
    decreases steps,
{
    if steps == 0 {
        (v, store)
    } else {
        after_carrying(
            next(v, Outcome::Completed),
            carried_out(store, action_of(v), results),
            results,
            (steps - 1) as nat,
        )
    }
}

/// Storage holds the results of the first cycles, one batch for each and in
/// their order, and the batch that is being written or is next to be written
/// still lies untouched in its slot.
pub open spec fn intact(v: PipelineView, store: Store, results: Seq<Seq<u32>>) -> bool {
    &&& store.batches.len() == v.written
    &&& forall|b: int| 0 <= b < v.written ==> store.batches[b] == results[b]
    &&& v.stage is StartWrite || v.stage is AwaitWrite || (computing(v) && v.cycle > 0) ==> held(
        store,
        slot_of(v.written),
    ) == results[v.written as int]
    &&& v.stage is AwaitWrite ==> held(store, slot_of(v.cycle)) == results[v.cycle as int]
}

/// A step that is carried out keeps storage and slots intact: the compute
/// cycle that overlaps a write never reaches the batch being written.
pub proof fn lemma_step_keeps_intact(v: PipelineView, store: Store, results: Seq<Seq<u32>>)
    requires
        wf(v),
        intact(v, store, results),
    ensures
        intact(
            next(v, Outcome::Completed),
            carried_out(store, action_of(v), results),
            results,
        ),
{
    if v.stage is Readback && v.cycle > 0 {
        lemma_slots_differ(v);
    }
}

/// Double buffering delivers: when a run that nobody cancels and in which no
/// step fails has ended, storage holds the results of the first `iterations`
/// compute cycles, whole, one after the other and in the order of the cycles.
pub proof fn lemma_batches_in_order(
    v: PipelineView,
    store: Store,
    results: Seq<Seq<u32>>,
    steps: nat,
)
    requires
        wf(v),
        !v.cancel,
        !(v.stage is Failed),
        intact(v, store, results),
        results.len() > v.iterations,
        steps == remaining(v),
    ensures
        after_carrying(v, store, results, steps).0.stage is Done,
        after_carrying(v, store, results, steps).1.batches =~= results.take(v.iterations as int),
    decreases steps,
{
    lemma_step_counts_down(v);
    if steps > 0 {
        lemma_next_keeps_wf(v, Outcome::Completed);
        lemma_step_keeps_intact(v, store, results);
        lemma_batches_in_order(
            next(v, Outcome::Completed),
            carried_out(store, action_of(v), results),
            results,
            (steps - 1) as nat,
        );
    }
}

/// From its start and with empty storage, a run of `iterations` batches
/// leaves in storage exactly the results of its first `iterations` compute
/// cycles, in their order.
pub proof fn lemma_run_stores_every_batch(
    iterations: usize,
    front: Seq<u32>,
    back: Seq<u32>,
    results: Seq<Seq<u32>>,
)
    requires
        results.len() > iterations,
    ensures
        after_carrying(
            initial(iterations),
            Store { front, back, batches: Seq::empty() },
            results,
            (3 + 5 * iterations) as nat,
        ).1.batches =~= results.take(iterations as int),
{
    lemma_batches_in_order(
        initial(iterations),
        Store { front, back, batches: Seq::empty() },
        results,
        (3 + 5 * iterations) as nat,
    );
}

impl View for Pipeline {
    type V = PipelineView;

    closed spec fn view(&self) -> PipelineView {
        PipelineView {
            iterations: self.iterations,
            cycle: self.cycle,
            written: self.written,
            stage: self.stage,
            cancel: self.cancel,
            fault: self.fault,
        }
    }
}

/// The slot for `index`.
fn slot(index: usize) -> (s: Slot)
    ensures
        s == slot_of(index),
{
    if index % 2 == 0 {
        Slot::Front
    } else {
        Slot::Back
    }
}

/// Starts a device run over the settings: the machine stands before the
/// seeding of the first compute cycle.
pub fn run(config: &Config) -> (p: Pipeline)
    ensures
        p@ == initial(config.iterations()),
        wf(p@),
{
    Pipeline {
        iterations: config.iterations(),
        cycle: 0,
        written: 0,
        stage: Stage::Seed,
        cancel: false,
        fault: None,
    }
}

impl Pipeline {
    #[verifier::type_invariant]
    spec fn inv(self) -> bool {
        wf(self@)
    }

    /// What the caller is to do now.
    pub fn action(&self) -> (a: Action)
        ensures
            a == action_of(self@),
            wf(self@),
    {
        proof {
            use_type_invariant(self);
        }
        match self.stage {
            Stage::Seed => Action::Seed { cycle: self.cycle, slot: slot(self.cycle) },
            Stage::Dispatch => Action::Dispatch { cycle: self.cycle, slot: slot(self.cycle) },
            Stage::Readback => Action::Readback { cycle: self.cycle, slot: slot(self.cycle) },
            Stage::StartWrite => Action::StartWrite {
                batch: self.written,
                slot: slot(self.written),
            },
            Stage::AwaitWrite => Action::AwaitWrite {
                batch: self.written,
                slot: slot(self.written),
            },
            Stage::Done => Action::Finish,
            Stage::Cancelled => Action::Stop,
            Stage::Failed => Action::Abort {
                failed: match self.fault {
                    Some(step) => step,
                    None => Stage::Failed,
                },
            },
        }
    }

    /// Takes in how the step asked for went, moves on, and says what to do
    /// next.
    pub fn advance(&mut self, outcome: Outcome) -> (a: Action)
        ensures
            final(self)@ == next(old(self)@, outcome),
            a == action_of(final(self)@),
            wf(final(self)@),
    {
        proof {
            use_type_invariant(&*self);
        }
        let live = match self.stage {
            Stage::Done | Stage::Cancelled | Stage::Failed => false,
            _ => true,
        };
        if live {
            let mut cycle: usize = self.cycle;
            let mut written: usize = self.written;
            let mut fault: Option<Stage> = None;
            let stage = match outcome {
                Outcome::Failed => {
                    fault = Some(self.stage);
                    Stage::Failed
                },
                Outcome::Completed => match self.stage {
                    Stage::Seed => Stage::Dispatch,
                    Stage::Dispatch => Stage::Readback,
                    Stage::Readback => if cycle == 0 {
                        self.between(written)
                    } else {
                        Stage::AwaitWrite
                    },
                    Stage::StartWrite => {
                        cycle = cycle + 1;
                        Stage::Seed
                    },
                    Stage::AwaitWrite => {
                        written = written + 1;
                        self.between(written)
                    },
                    _ => self.stage,
                },
            };
            *self = Pipeline {
                iterations: self.iterations,
                cycle,
                written,
                stage,
                cancel: self.cancel,
                fault,
            };
        }
        self.action()
    }

    /// The stage that stands between two iterations, once `written` batches
    /// have reached storage.
    fn between(&self, written: usize) -> (s: Stage)
        ensures
            s == boundary(PipelineView { written, ..self@ }).stage,
    {
        if written == self.iterations {
            Stage::Done
        } else if self.cancel {
            Stage::Cancelled
        } else {
            Stage::StartWrite
        }
    }

    /// Where the run stands.
    pub fn stage(&self) -> (stage: Stage)
        ensures
            stage == self@.stage,
    {
        self.stage
    }

    /// The compute cycle under way, or the last one that ran.
    pub fn cycle(&self) -> (cycle: usize)
        ensures
            cycle == self@.cycle,
    {
        self.cycle
    }

    /// The number of batches that have reached storage.
    pub fn written(&self) -> (written: usize)
        ensures
            written == self@.written,
            written <= self@.iterations,
    {
        proof {
            use_type_invariant(self);
        }
        self.written
    }

    /// Tells whether the run has ended, however it ended.
    pub fn finished(&self) -> (ended: bool)
        ensures
            ended == terminal(self@),
    {
        match self.stage {
            Stage::Done | Stage::Cancelled | Stage::Failed => true,
            _ => false,
        }
    }

    /// Asks for the run to end at the next iteration boundary. The write under
    /// way is still waited for; a run that has ended is left as it is.
    pub fn request_cancel(&mut self)
        ensures
            final(self)@ == cancelling(old(self)@),
            wf(final(self)@),
    {
        proof {
            use_type_invariant(&*self);
        }
        match self.stage {
            Stage::Done | Stage::Cancelled | Stage::Failed => {},
            _ => {
                *self = Pipeline {
                    iterations: self.iterations,
                    cycle: self.cycle,
                    written: self.written,
                    stage: self.stage,
                    cancel: true,
                    fault: self.fault,
                };
            },
        }
    }
}

} // verus!
