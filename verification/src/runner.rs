//! The registration loop as a state machine.
//!
//! The numeric work of a run (normalizing, the Gauss transform, the estimate
//! of the transform) is done by the caller. What is decided here is what
//! happens next: the caller performs the action that the runner asks for and
//! reports what came of it as an event.

use vstd::prelude::*;
use crate::config::{Parameters, RunConfig};
use crate::error::{Error, InvalidParameter};
use crate::gauss_transform::refusal;
use crate::points::PointSet;
use crate::rigid::{bandwidth_floor, floor_bandwidth, floored, lemma_floored, Transform};
use crate::scalar::Scalar;

verus! {

/// A failed run: what went wrong, and where the run stood.
#[derive(Clone, Copy, Debug, PartialEq, Eq, Structural)]
pub struct Failure {
    pub error: Error,
    /// The number of the iteration that failed, counted from one; zero for a
    /// failure before the first iteration.
    pub iteration: usize,
    /// The last bandwidth that was known; zero if none was.
    pub sigma2: Scalar,
}

/// Where a run stands.
#[derive(Clone, Copy, Debug, PartialEq, Eq, Structural)]
pub enum Phase {
    /// The inputs are being normalized and the first bandwidth computed.
    Initializing,
    /// `iterations` iterations are done and another one is due, at bandwidth
    /// `sigma2`.
    Iterating { iterations: usize, sigma2: Scalar },
    /// The last of `iterations` iterations changed less than the tolerance.
    Converged { iterations: usize, sigma2: Scalar },
    /// The run was stopped after `iterations` iterations without having
    /// converged: the limit was reached, or the caller cancelled.
    MaxIterationsReached { iterations: usize, sigma2: Scalar },
    /// A component reported an error.
    Failed { failure: Failure },
}

/// What the caller reports to the runner.
#[derive(Clone, Copy, Debug, PartialEq, Eq, Structural)]
pub enum Event {
    /// Both point sets are normalized; `sigma2` is the first bandwidth.
    Initialized { sigma2: Scalar },
    /// An iteration is done. `sigma2` is the bandwidth it estimated and
    /// `change` the relative change since the iteration before.
    Iterated { sigma2: Scalar, change: Scalar },
    /// The work that was asked for failed.
    Failed { error: Error },
    /// The caller wants the run to stop where it is.
    Cancelled,
}

/// What the runner asks the caller to do.
#[derive(Clone, Copy, Debug, PartialEq, Eq, Structural)]
pub enum Action {
    /// Normalize both point sets and compute the first bandwidth.
    Initialize,
    /// Perform one iteration at bandwidth `sigma2`.
    Iterate { sigma2: Scalar },
    /// Denormalize the result and hand it to `Runner::finish`.
    Finish { converged: bool },
    /// Give up and report the failure.
    Abort { failure: Failure },
}

/// The run has ended.
pub open spec fn terminal(phase: Phase) -> bool {
    phase is Converged || phase is MaxIterationsReached || phase is Failed
}

/// The iterations that are done: for a failed run, those before the failure.
pub open spec fn iterations_done(phase: Phase) -> int {
    match phase {
        Phase::Initializing => 0,
        Phase::Iterating { iterations, .. } => iterations as int,
        Phase::Converged { iterations, .. } => iterations as int,
        Phase::MaxIterationsReached { iterations, .. } => iterations as int,
        Phase::Failed { failure } => if failure.iteration == 0 {
            0
        } else {
            failure.iteration - 1
        },
    }
}

/// What holds of every phase that a run with these parameters goes through:
/// no more iterations are counted than the limit allows, another iteration is
/// due only below the limit, a run converges in an iteration, and the
/// bandwidth of a run that iterates is a number above zero.
pub open spec fn phase_valid(parameters: Parameters, phase: Phase) -> bool {
    match phase {
        Phase::Initializing => true,
        Phase::Iterating { iterations, sigma2 } => {
            &&& iterations < parameters.max_iterations
            &&& sigma2.is_positive()
        },
        Phase::Converged { iterations, sigma2 } => {
            &&& 1 <= iterations <= parameters.max_iterations
            &&& sigma2.is_positive()
        },
        Phase::MaxIterationsReached { iterations, sigma2 } => {
            &&& iterations <= parameters.max_iterations
            &&& sigma2.is_positive()
        },
        Phase::Failed { failure } => failure.iteration <= parameters.max_iterations,
    }
}

/// The bandwidth that a run stands at, if it has one: none while it
/// initializes, and for a failed run the last that was known.
pub open spec fn bandwidth_of(phase: Phase) -> Option<Scalar> {
    match phase {
        Phase::Initializing => None,
        Phase::Iterating { sigma2, .. } => Some(sigma2),
        Phase::Converged { sigma2, .. } => Some(sigma2),
        Phase::MaxIterationsReached { sigma2, .. } => Some(sigma2),
        Phase::Failed { failure } => Some(failure.sigma2),
    }
}

/// What holds of the bandwidths that a run in `phase` has gone through: there
/// is one for each iteration that is done, each is a number no less than
/// the least bandwidth, and the last is the bandwidth that the run stands at.
pub open spec fn trace_valid(phase: Phase, trace: Seq<Scalar>) -> bool {
    &&& trace.len() == iterations_done(phase)
    &&& forall|i: int| 0 <= i < trace.len() ==> (#[trigger] trace[i]).ge(bandwidth_floor())
    &&& trace.len() > 0 ==> bandwidth_of(phase) == Some(trace.last())
}

/// The bandwidths that a run has gone through after `event`, given those it
/// had gone through before: a finished iteration adds its bandwidth, floored.
pub open spec fn next_trace(phase: Phase, trace: Seq<Scalar>, event: Event) -> Seq<Scalar> {
    match (phase, event) {
        (Phase::Iterating { .. }, Event::Iterated { sigma2, .. }) => trace.push(floored(sigma2)),
        _ => trace,
    }
}

/// The phase that follows `phase` on `event`.
///
/// While initializing, a first bandwidth starts the iterations if it is a
/// number above zero and fails the run if not; an error fails the run. While
/// iterating, a finished iteration is counted and its bandwidth floored; the
/// run has then converged if the change is below the tolerance, else it
/// stops if the limit is reached, else it goes on. An error fails the run at
/// the iteration that was due, and a cancellation stops it with what is
/// done. Every other event leaves the phase as it is; in particular nothing
/// leads out of a phase in which the run has ended.
pub open spec fn next(parameters: Parameters, phase: Phase, event: Event) -> Phase {
    match phase {
        Phase::Initializing => match event {
            Event::Initialized { sigma2 } => if sigma2.is_positive() {
                Phase::Iterating { iterations: 0, sigma2 }
            } else {
                Phase::Failed {
                    failure: Failure {
                        error: Error::InvalidParameter(InvalidParameter::Sigma2(sigma2)),
                        iteration: 0,
                        sigma2,
                    },
                }
            },
            Event::Failed { error } => Phase::Failed {
                failure: Failure { error, iteration: 0, sigma2: Scalar::zero() },
            },
            _ => phase,
        },
        Phase::Iterating { iterations, sigma2 } => match event {
            Event::Iterated { sigma2: estimate, change } => {
                let done = (iterations + 1) as usize;
                if change.lt(parameters.tolerance) {
                    Phase::Converged { iterations: done, sigma2: floored(estimate) }
                } else if done >= parameters.max_iterations {
                    Phase::MaxIterationsReached { iterations: done, sigma2: floored(estimate) }
                } else {
                    Phase::Iterating { iterations: done, sigma2: floored(estimate) }
                }
            },
            Event::Failed { error } => Phase::Failed {
                failure: Failure { error, iteration: (iterations + 1) as usize, sigma2 },
            },
            Event::Cancelled => Phase::MaxIterationsReached { iterations, sigma2 },
            _ => phase,
        },
        _ => phase,
    }
}

/// What the caller is to do in `phase`.
pub open spec fn action_of(phase: Phase) -> Action {
    match phase {
        Phase::Initializing => Action::Initialize,
        Phase::Iterating { sigma2, .. } => Action::Iterate { sigma2 },
        Phase::Converged { .. } => Action::Finish { converged: true },
        Phase::MaxIterationsReached { .. } => Action::Finish { converged: false },
        Phase::Failed { failure } => Action::Abort { failure },
    }
}

/// The phase that a run is in after the events `events`, in order.
pub open spec fn after(parameters: Parameters, phase: Phase, events: Seq<Event>) -> Phase
    decreases events.len(),
{
    if events.len() == 0 {
        phase
    } else {
        next(parameters, after(parameters, phase, events.drop_last()), events.last())
    }
}

/// No event leads from a valid phase to an invalid one.
pub proof fn lemma_next_valid(parameters: Parameters, phase: Phase, event: Event)
    requires
        parameters.valid(),
        phase_valid(parameters, phase),
    ensures
        phase_valid(parameters, next(parameters, phase, event)),
{
    if let Event::Iterated { sigma2, change } = event {
        lemma_floored(sigma2);
    }
}

/// The bandwidths that a run has gone through stay valid with every event.
pub proof fn lemma_next_trace_valid(
    parameters: Parameters,
    phase: Phase,
    trace: Seq<Scalar>,
    event: Event,
)
    requires
        parameters.valid(),
        phase_valid(parameters, phase),
        trace_valid(phase, trace),
    ensures
        trace_valid(next(parameters, phase, event), next_trace(phase, trace, event)),
{
    if let Event::Iterated { sigma2, change } = event {
        lemma_floored(sigma2);
    }
}

/// A run that has ended stays as it is, whatever is reported.
pub proof fn lemma_terminal_absorbs(parameters: Parameters, phase: Phase, event: Event)
    requires
        terminal(phase),
    ensures
        next(parameters, phase, event) == phase,
{
}

/// The count of iterations never exceeds the limit, and another iteration
/// is asked for only while the count is below it.
pub proof fn lemma_iterations_bounded(parameters: Parameters, phase: Phase)
    requires
        phase_valid(parameters, phase),
    ensures
        0 <= iterations_done(phase) <= parameters.max_iterations,
        action_of(phase) is Iterate ==> iterations_done(phase) < parameters.max_iterations,
{
}

/// The bandwidth of an iteration that is asked for is a number above zero.
pub proof fn lemma_bandwidth_positive(parameters: Parameters, phase: Phase)
    requires
        phase_valid(parameters, phase),
    ensures
        action_of(phase) matches Action::Iterate { sigma2 } ==> sigma2.is_positive(),
{
}

/// The Gauss transform of an iteration that is asked for is never refused for
/// its parameters: the outlier weight of a valid configuration and the
/// bandwidth of the iteration are in range, both for making a transformer and
/// for transforming moving points of the fixed points' dimension.
pub proof fn lemma_iteration_accepted(parameters: Parameters, phase: Phase, dim: usize)
    requires
        parameters.valid(),
        phase_valid(parameters, phase),
        action_of(phase) is Iterate,
    ensures
        !(parameters.outlier_weight.lt(Scalar::zero()) || parameters.outlier_weight.gt(
            Scalar::one(),
        )),
        action_of(phase) matches Action::Iterate { sigma2 } && refusal(
            parameters.outlier_weight,
            sigma2,
            dim,
            dim,
        ) is None,
{
}

/// A run is reported as converged only through an iteration whose relative
/// change is below the tolerance.
pub proof fn lemma_converged_only_below_tolerance(
    parameters: Parameters,
    phase: Phase,
    event: Event,
)
    requires
        !(phase is Converged),
        next(parameters, phase, event) is Converged,
    ensures
        phase is Iterating,
        event matches Event::Iterated { change, .. } && change.lt(parameters.tolerance),
{
}

/// An event reported to a run that iterates either ends the run or is a
/// finished iteration, which raises the count by one. (An `Initialized`
/// that is reported again changes nothing.)
pub proof fn lemma_progress(parameters: Parameters, phase: Phase, event: Event)
    requires
        parameters.valid(),
        phase_valid(parameters, phase),
        phase is Iterating,
        !(event is Initialized),
    ensures
        terminal(next(parameters, phase, event)) || {
            &&& next(parameters, phase, event) is Iterating
            &&& event is Iterated
            &&& iterations_done(next(parameters, phase, event)) == iterations_done(phase) + 1
        },
{
}

/// A run ends within the limit: once a run that iterates has been reported
/// as many events, other than `Initialized`, as iterations were left to it,
/// it has ended.
pub proof fn lemma_run_ends(parameters: Parameters, phase: Phase, events: Seq<Event>)
    requires
        parameters.valid(),
        phase_valid(parameters, phase),
        phase is Iterating,
        forall|i: int| 0 <= i < events.len() ==> !(#[trigger] events[i] is Initialized),
        events.len() >= parameters.max_iterations - iterations_done(phase),
    ensures
        terminal(after(parameters, phase, events)),
{
    lemma_after(parameters, phase, events);
}

/// Where a run that iterates stands after some events other than
/// `Initialized`: in a valid phase; and if it has not ended, every event was
/// a finished iteration.
proof fn lemma_after(parameters: Parameters, phase: Phase, events: Seq<Event>)
    requires
        parameters.valid(),
        phase_valid(parameters, phase),
        phase is Iterating,
        forall|i: int| 0 <= i < events.len() ==> !(#[trigger] events[i] is Initialized),
    ensures
        phase_valid(parameters, after(parameters, phase, events)),
        terminal(after(parameters, phase, events)) || {
            &&& after(parameters, phase, events) is Iterating
            &&& iterations_done(after(parameters, phase, events)) == iterations_done(phase)
                + events.len()
        },
    decreases events.len(),
{
    if events.len() > 0 {
        let before = after(parameters, phase, events.drop_last());
        lemma_after(parameters, phase, events.drop_last());
        lemma_next_valid(parameters, before, events.last());
        if terminal(before) {
            lemma_terminal_absorbs(parameters, before, events.last());
        } else {
            lemma_progress(parameters, before, events.last());
        }
    }
}

/// The outcome of a run that ended without a failure.
#[derive(Debug, PartialEq, Eq)]
pub struct Run {
    /// The transform that takes the moving points onto the fixed ones, in the
    /// coordinates of the caller.
    pub transform: Transform,
    /// The moving points, transformed.
    pub moved: PointSet,
    /// The last bandwidth.
    pub sigma2: Scalar,
    /// The number of iterations that were done.
    pub iterations: usize,
    /// Whether the run converged; false when it was stopped at the limit or
    /// cancelled.
    pub converged: bool,
    /// The bandwidth after each iteration, in order.
    pub trace: Vec<Scalar>,
}

/// Where a run stands, with the bandwidths it has gone through.
#[derive(Debug)]
struct Progress {
    phase: Phase,
    trace: Vec<Scalar>,
}

/// Drives one registration.
#[derive(Debug)]
pub struct Runner {
    config: RunConfig,
    dim: usize,
    moving_len: usize,
    progress: Progress,
}

impl Runner {
    #[verifier::type_invariant]
    pub closed spec fn well_formed(&self) -> bool {
        &&& self.config.well_formed()
        &&& phase_valid(self.config@, self.progress.phase)
        &&& trace_valid(self.progress.phase, self.progress.trace@)
    }

    /// The parameters of the run.
    pub closed spec fn parameters(&self) -> Parameters {
        self.config@
    }

    /// Where the run stands.
    pub closed spec fn spec_phase(&self) -> Phase {
        self.progress.phase
    }

    /// The dimension of the fixed points.
    pub closed spec fn spec_dim(&self) -> usize {
        self.dim
    }

    /// The number of moving points.
    pub closed spec fn spec_moving_len(&self) -> usize {
        self.moving_len
    }

    /// The bandwidth after each iteration that is done, in order.
    pub closed spec fn spec_trace(&self) -> Seq<Scalar> {
        self.progress.trace@
    }

    /// A well-formed runner has valid parameters and stands in a valid phase.
    pub proof fn lemma_valid(&self)
        requires
            self.well_formed(),
        ensures
            self.parameters().valid(),
            phase_valid(self.parameters(), self.spec_phase()),
            trace_valid(self.spec_phase(), self.spec_trace()),
    {
        self.config.lemma_valid();
    }

    /// A runner for the registration of `moving` onto `fixed`. The run has
    /// failed from the start if the points of the two sets differ in
    /// dimension; otherwise it is initializing.
    pub fn new(config: RunConfig, fixed: &PointSet, moving: &PointSet) -> (r: Runner)
        ensures
            r.well_formed(),
            r.parameters() == config@,
            r.spec_dim() == fixed.dim(),
            r.spec_moving_len() == moving.len(),
            r.spec_trace() == Seq::<Scalar>::empty(),
            r.spec_phase() == if fixed.dim() == moving.dim() {
                Phase::Initializing
            } else {
                Phase::Failed {
                    failure: Failure {
                        error: Error::InvalidParameter(
                            InvalidParameter::Dimension {
                                expected: fixed.dim(),
                                found: moving.dim(),
                            },
                        ),
                        iteration: 0,
                        sigma2: Scalar::zero(),
                    },
                }
            },
    {
        proof {
            use_type_invariant(&config);
        }
        let phase = if fixed.dim() == moving.dim() {
            Phase::Initializing
        } else {
            Phase::Failed {
                failure: Failure {
                    error: Error::InvalidParameter(
                        InvalidParameter::Dimension { expected: fixed.dim(), found: moving.dim() },
                    ),
                    iteration: 0,
                    sigma2: Scalar::zero(),
                },
            }
        };
        Runner {
            config,
            dim: fixed.dim(),
            moving_len: moving.len(),
            progress: Progress { phase, trace: Vec::new() },
        }
    }

    /// The configuration of the run.
    pub fn config(&self) -> (r: &RunConfig)
        ensures
            r@ == self.parameters(),
    {
        &self.config
    }

    /// Where the run stands.
    #[verifier::when_used_as_spec(spec_phase)]
    pub fn phase(&self) -> (r: Phase)
        ensures
            r == self.spec_phase(),
            phase_valid(self.parameters(), r),
    {
        proof {
            use_type_invariant(self);
        }
        self.progress.phase
    }

    /// What is to be done next.
    pub fn action(&self) -> (r: Action)
        ensures
            r == action_of(self.phase()),
    {
        match self.progress.phase {
            Phase::Initializing => Action::Initialize,
            Phase::Iterating { iterations, sigma2 } => Action::Iterate { sigma2 },
            Phase::Converged { iterations, sigma2 } => Action::Finish { converged: true },
            Phase::MaxIterationsReached { iterations, sigma2 } => Action::Finish {
                converged: false,
            },
            Phase::Failed { failure } => Action::Abort { failure },
        }
    }

    /// Whether the run has ended.
    pub fn is_finished(&self) -> (r: bool)
        ensures
            r == terminal(self.phase()),
    {
        match self.progress.phase {
            Phase::Initializing => false,
            Phase::Iterating { iterations, sigma2 } => false,
            _ => true,
        }
    }

    /// The number of iterations that are done.
    pub fn iterations(&self) -> (r: usize)
        ensures
            r == iterations_done(self.phase()),
            r <= self.parameters().max_iterations,
    {
        proof {
            use_type_invariant(self);
        }
        match self.progress.phase {
            Phase::Initializing => 0,
            Phase::Iterating { iterations, sigma2 } => iterations,
            Phase::Converged { iterations, sigma2 } => iterations,
            Phase::MaxIterationsReached { iterations, sigma2 } => iterations,
            Phase::Failed { failure } => if failure.iteration == 0 {
                0
            } else {
                failure.iteration - 1
            },
        }
    }

    /// The bandwidth that the run stands at: none while it initializes, and
    /// for a failed run the last that was known.
    pub fn sigma2(&self) -> (r: Option<Scalar>)
        ensures
            r == bandwidth_of(self.phase()),
    {
        match self.progress.phase {
            Phase::Initializing => None,
            Phase::Iterating { iterations, sigma2 } => Some(sigma2),
            Phase::Converged { iterations, sigma2 } => Some(sigma2),
            Phase::MaxIterationsReached { iterations, sigma2 } => Some(sigma2),
            Phase::Failed { failure } => Some(failure.sigma2),
        }
    }

    /// The bandwidth after each iteration that is done, in order.
    pub fn trace(&self) -> (r: &Vec<Scalar>)
        ensures
            r@ == self.spec_trace(),
            trace_valid(self.phase(), r@),
    {
        proof {
            use_type_invariant(self);
        }
        &self.progress.trace
    }

    /// Takes the run from its phase to the next on `event`, and says what is
    /// to be done then.
    pub fn step(&mut self, event: Event) -> (action: Action)
        ensures
            final(self).well_formed(),
            final(self).parameters() == old(self).parameters(),
            final(self).spec_dim() == old(self).spec_dim(),
            final(self).spec_moving_len() == old(self).spec_moving_len(),
            final(self).phase() == next(old(self).parameters(), old(self).phase(), event),
            final(self).spec_trace() == next_trace(old(self).phase(), old(self).spec_trace(), event),
            action == action_of(final(self).phase()),
    {
        proof {
            use_type_invariant(&*self);
            self.config.lemma_valid();
            lemma_next_valid(self.config@, self.progress.phase, event);
            lemma_next_trace_valid(self.config@, self.progress.phase, self.progress.trace@, event);
        }
        let mut progress = Progress { phase: Phase::Initializing, trace: Vec::new() };
        std::mem::swap(&mut progress, &mut self.progress);
        let phase = match progress.phase {
            Phase::Initializing => match event {
                Event::Initialized { sigma2 } => if sigma2.is_positive() {
                    Phase::Iterating { iterations: 0, sigma2 }
                } else {
                    Phase::Failed {
                        failure: Failure {
                            error: Error::InvalidParameter(InvalidParameter::Sigma2(sigma2)),
                            iteration: 0,
                            sigma2,
                        },
                    }
                },
                Event::Failed { error } => Phase::Failed {
                    failure: Failure { error, iteration: 0, sigma2: Scalar::zero() },
                },
                _ => progress.phase,
            },
            Phase::Iterating { iterations, sigma2 } => match event {
                Event::Iterated { sigma2: estimate, change } => {
                    let done: usize = iterations + 1;
                    let floored_estimate = floor_bandwidth(estimate);
                    progress.trace.push(floored_estimate);
                    if change.lt(self.config.tolerance()) {
                        Phase::Converged { iterations: done, sigma2: floored_estimate }
                    } else if done >= self.config.max_iterations() {
                        Phase::MaxIterationsReached { iterations: done, sigma2: floored_estimate }
                    } else {
                        Phase::Iterating { iterations: done, sigma2: floored_estimate }
                    }
                },
                Event::Failed { error } => Phase::Failed {
                    failure: Failure { error, iteration: iterations + 1, sigma2 },
                },
                Event::Cancelled => Phase::MaxIterationsReached { iterations, sigma2 },
                _ => progress.phase,
            },
            _ => progress.phase,
        };
        progress.phase = phase;
        self.progress = progress;
        self.action()
    }

    /// The outcome of the run, once it has ended without a failure:
    /// `transform` and `moved`, both denormalized, with the last bandwidth,
    /// the count of iterations, and whether the run converged. There is none
    /// while the run goes on or after it failed, nor when `transform` is not
    /// of the run's dimension, scales although the scale is fixed at 1, or
    /// `moved` does not hold the moving points.
    pub fn finish(&self, transform: Transform, moved: PointSet) -> (r: Option<Run>)
        ensures
            r.is_some() <==> {
                &&& self.phase() is Converged || self.phase() is MaxIterationsReached
                &&& transform.dim() == self.spec_dim()
                &&& self.parameters().allow_scale || transform@.scale == Scalar::one()
                &&& moved.dim() == self.spec_dim()
                &&& moved.len() == self.spec_moving_len()
            },
            r matches Some(run) ==> {
                &&& run.transform == transform
                &&& run.moved == moved
                &&& run.converged == (self.phase() is Converged)
                &&& run.iterations == iterations_done(self.phase())
                &&& run.trace@ == self.spec_trace()
                &&& run.trace@.len() == run.iterations
                &&& run.iterations > 0 ==> run.trace@.last() == run.sigma2
                &&& forall|i: int|
                    0 <= i < run.trace@.len() ==> (#[trigger] run.trace@[i]).ge(bandwidth_floor())
                &&& action_of(self.phase()) == Action::Finish { converged: run.converged }
                &&& match self.phase() {
                    Phase::Converged { sigma2, .. } => run.sigma2 == sigma2,
                    Phase::MaxIterationsReached { sigma2, .. } => run.sigma2 == sigma2,
                    _ => false,
                }
            },
    {
        if transform.dim() != self.dim || moved.dim() != self.dim || moved.len() != self.moving_len {
            return None;
        }
        if !self.config.allow_scale() && transform.scale() != Scalar::one() {
            return None;
        }
        proof {
            use_type_invariant(self);
        }
        match self.progress.phase {
            Phase::Converged { iterations, sigma2 } => {
                let trace = self.progress.trace.clone();
                assert(trace@ =~= self.progress.trace@);
                Some(Run { transform, moved, sigma2, iterations, converged: true, trace })
            },
            Phase::MaxIterationsReached { iterations, sigma2 } => {
                let trace = self.progress.trace.clone();
                assert(trace@ =~= self.progress.trace@);
                Some(Run { transform, moved, sigma2, iterations, converged: false, trace })
            },
            _ => None,
        }
    }
}

} // verus!
