//! The campaign orchestrator: a bounded fuzzing run as a state machine.
//!
//! A campaign classifies an interface once, then repeats at most
//! `max_steps` steps.  Each step selects one target uniformly at random,
//! synthesizes its arguments in declared order, has the driver submit the
//! call, and then checks every property in declaration order, stopping at
//! the first that reads false.  The campaign owns the decisions; the
//! driver owns the calls.  The driver asks which move is next through the
//! phase, performs the one outstanding call, and hands the outcome back
//! through `note_submit_result` and `note_property_value`.
//!
//! Terminal statuses: `NothingToFuzz` (no target or no property; not a
//! single call is planned), `Violated` (a property read false; the
//! intended detection outcome), and `Exhausted` (the full budget ran
//! without a violation).  A fatal failure — an unsupported parameter type,
//! a rejected call, a property read of the wrong shape — aborts the run
//! immediately: the campaign keeps no terminal status for it and the error
//! is surfaced to the caller with the step index and function name.

use vstd::prelude::*;
use crate::abi::{
    FunctionSignature, SigView, properties_of, targets_of, spec_is_malformed_property,
    find_properties, find_fuzz_targets,
};
use crate::errors::FuzzError;
use crate::rng::{FuzzRng, draw_value, next_state};
use crate::value::{Value, ValueView, synth_list, synthesize, spec_synthesizable,
    lemma_synth_list_none};

verus! {

/// One executed step of the trace: the chosen target and the concrete
/// argument values handed to it.
#[derive(Clone, Debug, PartialEq, Eq)]
pub struct TraceEntry {
    pub target: String,
    pub args: Vec<Value>,
}

/// The mathematical shape of a trace entry.
#[verifier::ext_equal]
pub ghost struct CallView {
    pub target: Seq<char>,
    pub args: Seq<ValueView>,
}

impl DeepView for TraceEntry {
    type V = CallView;

    open spec fn deep_view(&self) -> CallView {
        CallView { target: self.target@, args: self.args.deep_view() }
    }
}

/// Pushing onto a vector pushes onto its deep view.
pub proof fn lemma_deep_view_push<T: DeepView>(pre: Vec<T>, post: Vec<T>, x: T)
    requires
        post@ == pre@.push(x),
    ensures
        post.deep_view() == pre.deep_view().push(x.deep_view()),
{
    assert(post.deep_view() =~= pre.deep_view().push(x.deep_view()));
}

/// Where the state machine stands between two calls of the driver.
#[derive(Clone, Copy, Debug, PartialEq, Eq, Structural)]
pub enum Phase {
    /// The next move is `plan_step`.
    Selecting,
    /// A call is planned (the last trace entry); the next move is to
    /// submit it and report through `note_submit_result`.
    Awaiting,
    /// The next move is to read the property at `next_property` and
    /// report through `note_property_value`.
    Checking,
    /// The campaign reached its one terminal status.
    Done,
    /// The campaign was aborted by a fatal failure; the error was handed
    /// to the caller and no move is left.
    Failed,
}

/// The status of a campaign.  A campaign reaches at most one terminal
/// status; an aborted campaign keeps `Running` and is told apart by its
/// phase and by the error it surfaced.
#[derive(Clone, Debug, PartialEq, Eq)]
pub enum Status {
    /// No terminal status reached yet.
    Running,
    /// No target or no property: the campaign never starts.
    NothingToFuzz,
    /// The property read false at the 1-based step `step`.
    Violated { property: String, step: usize },
    /// Every property held through all `max_steps` steps.  Explicitly not
    /// a correctness proof: no violation was found within the budget.
    Exhausted,
}

/// The step budget a campaign gets when its caller supplies none.
pub const DEFAULT_MAX_STEPS: usize = 100;

/// The index selected from `targets` by one draw from state `s`.
pub open spec fn selected_index(targets: Seq<SigView>, s: u64) -> int {
    draw_value(s) as int % targets.len() as int
}

/// The call planned from generator state `s`: one draw selects the
/// target, then its arguments are synthesized in declared order.  Nothing
/// is planned if there is no target or an argument type has no synthesis
/// rule.
pub open spec fn plan_from(targets: Seq<SigView>, s: u64) -> Option<(CallView, u64)> {
    if targets.len() == 0 {
        None
    } else {
        let sig = targets[selected_index(targets, s)];
        match synth_list(sig.inputs, next_state(s)) {
            Some((args, s2)) => Some((CallView { target: sig.name, args }, s2)),
            None => None,
        }
    }
}

/// The generator state after the first `k` planned calls, starting from
/// `seed`.
pub open spec fn states_to(targets: Seq<SigView>, seed: u64, k: nat) -> Option<u64>
    decreases k,
{
    if k == 0 {
        Some(seed)
    } else {
        match states_to(targets, seed, (k - 1) as nat) {
            None => None,
            Some(s) => match plan_from(targets, s) {
                Some((call, s2)) => Some(s2),
                None => None,
            },
        }
    }
}

/// The `k`-th call (0-based) of any campaign over `targets` seeded with
/// `seed`: a pure function of the targets and the seed alone.
pub open spec fn nth_call(targets: Seq<SigView>, seed: u64, k: nat) -> Option<CallView> {
    match states_to(targets, seed, k) {
        None => None,
        Some(s) => match plan_from(targets, s) {
            Some((call, s2)) => Some(call),
            None => None,
        },
    }
}

/// Whether a property read decodes to exactly one boolean.
pub open spec fn decode_bool(vals: Seq<ValueView>) -> Option<bool> {
    if vals.len() == 1 {
        match vals[0] {
            ValueView::Bool(b) => Some(b),
            _ => None,
        }
    } else {
        None
    }
}

/// One bounded fuzzing run against a single deployed contract.
pub struct Campaign {
    /// The mutating entry points eligible for invocation, in declaration
    /// order, fixed at construction.
    pub targets: Vec<FunctionSignature>,
    /// The checkable properties, in declaration order, fixed at
    /// construction.
    pub properties: Vec<FunctionSignature>,
    /// The step budget; at least 1.
    pub max_steps: usize,
    /// The owned random generator.
    pub rng: FuzzRng,
    /// The seed the generator started from.
    pub seed: Ghost<u64>,
    /// Completed steps.
    pub steps_done: usize,
    /// In `Checking`: the property to read next.
    pub next_property: usize,
    /// Where the state machine stands.
    pub phase: Phase,
    /// The status; the terminal one is reached at most once.
    pub status: Status,
    /// The executed calls, in order, one per started step.
    pub trace: Vec<TraceEntry>,
}

impl Campaign {
    /// Well-formedness: the machine's phases, counters, status and trace
    /// agree, and — as long as no fatal failure aborted the run — the
    /// trace and the generator state are the ones every campaign over
    /// these targets and this seed has.
    pub open spec fn wf(&self) -> bool {
        &&& self.max_steps >= 1
        &&& self.steps_done <= self.max_steps
        &&& (self.status is Running <==> self.phase != Phase::Done)
        &&& (self.phase == Phase::Selecting || self.phase == Phase::Awaiting || self.phase
            == Phase::Checking ==> self.targets.len() > 0 && self.properties.len() > 0
            && self.steps_done < self.max_steps)
        &&& (self.phase == Phase::Checking ==> self.next_property < self.properties.len())
        &&& (self.phase == Phase::Selecting ==> self.trace.len() == self.steps_done)
        &&& (self.phase == Phase::Awaiting || self.phase == Phase::Checking ==> self.trace.len()
            == self.steps_done + 1)
        &&& (self.status matches Status::Violated { property, step } ==> self.phase == Phase::Done
            && step == self.steps_done + 1 && self.trace.len() == step && step <= self.max_steps
            && (exists|i: int|
            0 <= i < self.properties.len() && property@ == self.properties.deep_view()[i].name))
        &&& (self.status is Exhausted ==> self.phase == Phase::Done && self.steps_done
            == self.max_steps && self.trace.len() == self.max_steps)
        &&& (self.status is NothingToFuzz ==> self.phase == Phase::Done && self.trace.len() == 0
            && self.steps_done == 0 && (self.targets.len() == 0 || self.properties.len() == 0))
        &&& (self.phase != Phase::Failed ==> states_to(
            self.targets.deep_view(),
            self.seed@,
            self.trace.len() as nat,
        ) == Some(self.rng.state))
        &&& (forall|i: int|
            0 <= i < self.trace.len() ==> nth_call(self.targets.deep_view(), self.seed@, i as nat)
                == Some(#[trigger] self.trace.deep_view()[i]))
    }

    /// Classify `interface` and set up a campaign with the given step
    /// budget and seed.  Fails on the first malformed property, before
    /// anything is planned.  With no target or no property the campaign
    /// is born with its terminal status `NothingToFuzz`: not a single
    /// call will be planned or performed.
    pub fn new(interface: &Vec<FunctionSignature>, max_steps: usize, seed: u64) -> (r: Result<
        Campaign,
        FuzzError,
    >)
        requires
            max_steps >= 1,
        ensures
            match r {
                Ok(c) => {
                    &&& forall|j: int|
                        0 <= j < interface.deep_view().len() ==> !spec_is_malformed_property(
                            interface.deep_view()[j],
                        )
                    &&& c.wf()
                    &&& c.targets.deep_view() == targets_of(interface.deep_view())
                    &&& c.properties.deep_view() == properties_of(interface.deep_view())
                    &&& c.max_steps == max_steps
                    &&& c.seed@ == seed
                    &&& c.rng.state == seed
                    &&& c.steps_done == 0
                    &&& c.trace.len() == 0
                    &&& (if c.targets.len() == 0 || c.properties.len() == 0 {
                        c.status is NothingToFuzz && c.phase == Phase::Done
                    } else {
                        c.status is Running && c.phase == Phase::Selecting
                    })
                },
                Err(e) => exists|i: int|
                    0 <= i < interface.deep_view().len() && spec_is_malformed_property(
                        interface.deep_view()[i],
                    ) && (forall|j: int|
                        0 <= j < i ==> !spec_is_malformed_property(interface.deep_view()[j])) && (
                    e matches FuzzError::InvariantShape { function, step } && function@
                        == interface.deep_view()[i].name && step == 0),
            },
    {
        let properties = match find_properties(interface) {
            Ok(props) => props,
            Err(e) => {
                return Err(e);
            },
        };
        let targets = find_fuzz_targets(interface);
        let nothing = targets.len() == 0 || properties.len() == 0;
        let c = Campaign {
            targets,
            properties,
            max_steps,
            rng: FuzzRng::from_seed(seed),
            seed: Ghost(seed),
            steps_done: 0,
            next_property: 0,
            phase: if nothing {
                Phase::Done
            } else {
                Phase::Selecting
            },
            status: if nothing {
                Status::NothingToFuzz
            } else {
                Status::Running
            },
            trace: Vec::new(),
        };
        Ok(c)
    }

    /// The name of the property to read next.
    pub fn next_property_name(&self) -> (n: &String)
        requires
            self.wf(),
            self.phase == Phase::Checking,
        ensures
            n@ == self.properties.deep_view()[self.next_property as int].name,
    {
        &self.properties[self.next_property].name
    }

    /// Plan one step: select a target uniformly at random, synthesize its
    /// arguments in declared order, and append the call to the trace for
    /// the driver to submit.  A parameter type without a synthesis rule
    /// aborts the whole campaign immediately — the step submits nothing —
    /// and is reported with the target's name, the 1-based step index,
    /// and the first such parameter.
    #[verifier::rlimit(60)]
    #[verifier::loop_isolation(false)]
    pub fn plan_step(&mut self) -> (r: Result<(), FuzzError>)
        requires
            old(self).wf(),
            old(self).phase == Phase::Selecting,
        ensures
            final(self).wf(),
            final(self).targets == old(self).targets,
            final(self).properties == old(self).properties,
            final(self).max_steps == old(self).max_steps,
            final(self).seed == old(self).seed,
            final(self).steps_done == old(self).steps_done,
            final(self).status == old(self).status,
            match plan_from(old(self).targets.deep_view(), old(self).rng.state) {
                Some((call, s2)) => r is Ok && final(self).phase == Phase::Awaiting && final(self).rng.state == s2 && final(self).trace.deep_view() == old(self).trace.deep_view().push(call),
                None => r matches Err(e) && final(self).phase == Phase::Failed && final(self).trace
                    == old(self).trace && ({
                    let tv = old(self).targets.deep_view();
                    let sig = tv[selected_index(tv, old(self).rng.state)];
                    &&& e matches FuzzError::UnsupportedType { function, step, parameter }
                    &&& function@ == sig.name
                    &&& step == old(self).steps_done + 1
                    &&& exists|k: int|
                        0 <= k < sig.inputs.len() && !spec_synthesizable(sig.inputs[k]) && (
                        forall|j: int| 0 <= j < k ==> spec_synthesizable(sig.inputs[j]))
                            && parameter == sig.inputs[k]
                }),
            },
    {
        let ghost t0 = self.targets.deep_view();
        let ghost s0 = self.rng.state;
        let sel = self.rng.next_u64();
        let len = self.targets.len();
        let idx = (sel % (len as u64)) as usize;
        proof {
            assert(idx as int == selected_index(t0, s0));
        }
        let ghost s1 = self.rng.state;
        let n_inputs = self.targets[idx].inputs.len();
        let mut args: Vec<Value> = Vec::new();
        let mut k: usize = 0;
        while k < n_inputs
            invariant
                self.targets == old(self).targets,
                self.properties == old(self).properties,
                self.max_steps == old(self).max_steps,
                self.seed == old(self).seed,
                self.steps_done == old(self).steps_done,
                self.status == old(self).status,
                self.trace == old(self).trace,
                self.phase == old(self).phase,
                self.next_property == old(self).next_property,
                k <= n_inputs,
                forall|j: int| 0 <= j < k ==> spec_synthesizable(t0[idx as int].inputs[j]),
                synth_list(t0[idx as int].inputs.take(k as int), s1) == Some(
                    (args.deep_view(), self.rng.state),
                ),
            decreases n_inputs - k,
        {
            let ghost args_pre = args;
            let ty = self.targets[idx].inputs[k];
            match synthesize(ty, &mut self.rng) {
                Some(v) => {
                    args.push(v);
                    proof {
                        assert(t0[idx as int].inputs.take(k + 1).drop_last() =~= t0[
                            idx as int
                        ].inputs.take(k as int));
                        assert(t0[idx as int].inputs.take(k + 1).last() == t0[
                            idx as int
                        ].inputs[k as int]);
                        lemma_deep_view_push(args_pre, args, v);
                    }
                    k = k + 1;
                },
                None => {
                    self.phase = Phase::Failed;
                    let function = self.targets[idx].name.clone();
                    proof {
                        assert(t0[idx as int].inputs.take(k + 1).drop_last() =~= t0[
                            idx as int
                        ].inputs.take(k as int));
                        assert(t0[idx as int].inputs.take(k + 1).last() == t0[
                            idx as int
                        ].inputs[k as int]);
                        assert(synth_list(t0[idx as int].inputs.take(k + 1), s1) is None);
                        lemma_synth_list_none(t0[idx as int].inputs, s1, k + 1);
                    }
                    return Err(
                        FuzzError::UnsupportedType {
                            function,
                            step: self.steps_done + 1,
                            parameter: ty,
                        },
                    );
                },
            }
        }
        let ghost args_view = args.deep_view();
        let name = self.targets[idx].name.clone();
        let ghost trace_pre = self.trace;
        let entry = TraceEntry { target: name, args };
        self.trace.push(entry);
        self.phase = Phase::Awaiting;
        proof {
            assert(t0[idx as int].inputs.take(n_inputs as int) =~= t0[idx as int].inputs);
            let call = CallView { target: t0[idx as int].name, args: args_view };
            assert(plan_from(t0, s0) == Some((call, self.rng.state)));
            lemma_deep_view_push(trace_pre, self.trace, entry);
            assert(entry.deep_view() =~= call);
            assert(states_to(t0, old(self).seed@, self.trace.len() as nat) == Some(
                self.rng.state,
            ));
            assert forall|i: int| 0 <= i < self.trace.len() implies nth_call(
                t0,
                old(self).seed@,
                i as nat,
            ) == Some(self.trace.deep_view()[i]) by {
                if i < trace_pre.len() {
                    assert(nth_call(t0, old(self).seed@, i as nat) == Some(
                        trace_pre.deep_view()[i],
                    ));
                }
            }
        }
        Ok(())
    }

    /// Record the outcome of submitting the planned call.  A rejected or
    /// failed call aborts the whole campaign — there is no retry — and is
    /// reported with the target's name and the 1-based step index.  On
    /// success the property checks of this step begin.
    pub fn note_submit_result(&mut self, success: bool) -> (r: Result<(), FuzzError>)
        requires
            old(self).wf(),
            old(self).phase == Phase::Awaiting,
        ensures
            final(self).wf(),
            final(self).targets == old(self).targets,
            final(self).properties == old(self).properties,
            final(self).max_steps == old(self).max_steps,
            final(self).rng == old(self).rng,
            final(self).seed == old(self).seed,
            final(self).steps_done == old(self).steps_done,
            final(self).status == old(self).status,
            final(self).trace == old(self).trace,
            success ==> r is Ok && final(self).phase == Phase::Checking && final(self).next_property == 0,
            !success ==> final(self).phase == Phase::Failed && (r matches Err(e) && (
            e matches FuzzError::Execution { function, step } && function@ == old(self).trace.deep_view().last().target && step == old(self).steps_done + 1)),
    {
        if success {
            self.next_property = 0;
            self.phase = Phase::Checking;
            Ok(())
        } else {
            self.phase = Phase::Failed;
            let last = self.trace.len() - 1;
            let function = self.trace[last].target.clone();
            proof {
                assert(self.trace.deep_view()[last as int] == self.trace@[last as int].deep_view());
            }
            Err(FuzzError::Execution { function, step: self.steps_done + 1 })
        }
    }

    /// Record what the property at `next_property` read.
    ///
    /// A result that is not exactly one boolean aborts the campaign with
    /// `InvariantShape`.  A false reading halts the campaign at exactly
    /// this step with `Violated`: the step budget goes no further and no
    /// later property of this step is ever asked for.  A true reading
    /// moves to the next property, or — when every property of the step
    /// held — completes the step: the campaign becomes `Exhausted` when
    /// that was the last budgeted step, and otherwise plans the next one.
    pub fn note_property_value(&mut self, values: &Vec<Value>) -> (r: Result<(), FuzzError>)
        requires
            old(self).wf(),
            old(self).phase == Phase::Checking,
        ensures
            final(self).wf(),
            final(self).targets == old(self).targets,
            final(self).properties == old(self).properties,
            final(self).max_steps == old(self).max_steps,
            final(self).rng == old(self).rng,
            final(self).seed == old(self).seed,
            final(self).trace == old(self).trace,
            ({
                let pname = old(self).properties.deep_view()[old(self).next_property as int].name;
                match decode_bool(values.deep_view()) {
                    None => final(self).phase == Phase::Failed && final(self).status == old(self).status && final(self).steps_done == old(self).steps_done && (r matches Err(e)
                        && (e matches FuzzError::InvariantShape { function, step } && function@
                        == pname && step == old(self).steps_done + 1)),
                    Some(false) => r is Ok && final(self).phase == Phase::Done && final(self).steps_done == old(self).steps_done && (final(self).status matches Status::Violated { property, step } && property@ == pname
                        && step == old(self).steps_done + 1),
                    Some(true) => r is Ok && (if old(self).next_property + 1 < old(self).properties.len() {
                        final(self).phase == Phase::Checking && final(self).next_property == old(self).next_property + 1 && final(self).steps_done == old(self).steps_done
                            && final(self).status == old(self).status
                    } else if old(self).steps_done + 1 == old(self).max_steps {
                        final(self).phase == Phase::Done && final(self).status is Exhausted
                            && final(self).steps_done == old(self).max_steps
                    } else {
                        final(self).phase == Phase::Selecting && final(self).steps_done == old(self).steps_done + 1 && final(self).status == old(self).status
                    }),
                }
            }),
    {
        let decoded: Option<bool> = if values.len() == 1 {
            match &values[0] {
                Value::Bool(b) => Some(*b),
                _ => None,
            }
        } else {
            None
        };
        proof {
            if values@.len() == 1 {
                assert(values.deep_view()[0] == values@[0].deep_view());
            }
        }
        match decoded {
            None => {
                self.phase = Phase::Failed;
                let function = self.properties[self.next_property].name.clone();
                Err(FuzzError::InvariantShape { function, step: self.steps_done + 1 })
            },
            Some(false) => {
                let property = self.properties[self.next_property].name.clone();
                self.status = Status::Violated { property, step: self.steps_done + 1 };
                self.phase = Phase::Done;
                proof {
                    assert(self.properties.deep_view()[self.next_property as int]
                        == self.properties@[self.next_property as int].deep_view());
                }
                Ok(())
            },
            Some(true) => {
                if self.next_property + 1 < self.properties.len() {
                    self.next_property = self.next_property + 1;
                    Ok(())
                } else if self.steps_done + 1 == self.max_steps {
                    self.steps_done = self.max_steps;
                    self.next_property = 0;
                    self.status = Status::Exhausted;
                    self.phase = Phase::Done;
                    Ok(())
                } else {
                    self.steps_done = self.steps_done + 1;
                    self.next_property = 0;
                    self.phase = Phase::Selecting;
                    Ok(())
                }
            },
        }
    }
}

/// Fixing the random seed fixes the step trace: two campaigns over the
/// same targets and the same seed have planned identical calls, entry for
/// entry, as far as both traces go — whatever their step budgets, their
/// property outcomes, and however far each has run.  Each entry is the
/// pure function `nth_call` of the targets and the seed alone.
pub proof fn lemma_trace_deterministic(c1: &Campaign, c2: &Campaign)
    requires
        c1.wf(),
        c2.wf(),
        c1.targets.deep_view() == c2.targets.deep_view(),
        c1.seed@ == c2.seed@,
    ensures
        forall|i: int|
            0 <= i < c1.trace.len() && i < c2.trace.len() ==> c1.trace.deep_view()[i]
                == c2.trace.deep_view()[i],
{
    assert forall|i: int|
        0 <= i < c1.trace.len() && i < c2.trace.len() implies c1.trace.deep_view()[i]
        == c2.trace.deep_view()[i] by {
        assert(nth_call(c1.targets.deep_view(), c1.seed@, i as nat) == Some(
            c1.trace.deep_view()[i],
        ));
        assert(nth_call(c2.targets.deep_view(), c2.seed@, i as nat) == Some(
            c2.trace.deep_view()[i],
        ));
    }
}

/// Two exhausted campaigns over the same targets, the same seed and the
/// same step budget have bit-identical step traces: a fixed seed replays
/// the whole run.
pub proof fn lemma_exhausted_traces_identical(c1: &Campaign, c2: &Campaign)
    requires
        c1.wf(),
        c2.wf(),
        c1.status is Exhausted,
        c2.status is Exhausted,
        c1.max_steps == c2.max_steps,
        c1.targets.deep_view() == c2.targets.deep_view(),
        c1.seed@ == c2.seed@,
    ensures
        c1.trace.deep_view() == c2.trace.deep_view(),
{
    lemma_trace_deterministic(c1, c2);
    assert(c1.trace.deep_view() =~= c2.trace.deep_view());
}

/// A campaign with no target or no property is inert: its status is
/// terminal from birth, nothing was planned and no step was taken, so not
/// a single call is ever asked of the driver.
pub proof fn lemma_nothing_to_fuzz_is_inert(c: &Campaign)
    requires
        c.wf(),
        c.status is NothingToFuzz,
    ensures
        c.phase == Phase::Done,
        c.trace.len() == 0,
        c.steps_done == 0,
{
}

/// An exhausted campaign ran its whole budget: every one of `max_steps`
/// steps was executed — one trace entry each — and none was violated.
pub proof fn lemma_exhausted_ran_full_budget(c: &Campaign)
    requires
        c.wf(),
        c.status is Exhausted,
    ensures
        c.phase == Phase::Done,
        c.steps_done == c.max_steps,
        c.trace.len() == c.max_steps,
{
}

/// A violated campaign has halted for good at exactly the violating
/// step: the step is the 1-based length of the trace, lies within the
/// budget, names a classified property, and the phase admits no further
/// move.
pub proof fn lemma_violation_halts(c: &Campaign)
    requires
        c.wf(),
        c.status matches Status::Violated { .. },
    ensures
        c.phase == Phase::Done,
        match c.status {
            Status::Violated { property, step } => step == c.trace.len() && 1 <= step
                <= c.max_steps && exists|i: int|
                0 <= i < c.properties.len() && property@ == c.properties.deep_view()[i].name,
            _ => false,
        },
{
}

} // verus!
