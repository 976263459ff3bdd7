use vstd::prelude::*;
use crate::classification::Classification;
use crate::modules::{ModuleId, plan, spec_plan};

verus! {

/// Why startup did not reach a normal end. The first error encountered is
/// kept and is fatal: there is no retry and no degraded continuation.
#[derive(Debug)]
pub enum StartupError {
    /// A capability module could not be attached to the host builder.
    /// `module` is the module whose registration failed and `reason` the
    /// collaborator's diagnostic, kept opaque.
    Registration { module: ModuleId, reason: String },
    /// The host runtime's run loop terminated abnormally.
    RunLoop { reason: String },
}

/// Where the bootstrap stands. The context moves from `Accepting` to either
/// `Running` or `Failed` and never back; `Completed` only follows `Running`.
#[derive(Clone, Copy, PartialEq, Eq, Structural, Debug)]
pub enum Phase {
    /// Still registering capability modules.
    Accepting,
    /// Every included module registered; control handed to the run loop.
    Running,
    /// The run loop terminated normally.
    Completed,
    /// Startup failed; the context carries the first error encountered.
    Failed,
}

/// What the driver should do next with the context.
#[derive(Clone, Copy, PartialEq, Eq, Structural, Debug)]
pub enum Step {
    /// Attempt to register this module against the host builder and report
    /// the outcome back through `record_registration`.
    Register(ModuleId),
    /// Every included module is registered: hand control to the run loop.
    HandOff,
    /// Startup failed; report the recorded error and stop.
    Fatal,
    /// The run loop has been entered or has finished; nothing is left to do.
    Settled,
}

/// The in-progress application builder: the one transient entity of
/// bootstrap. It records which modules have registered, the current phase,
/// and the terminal outcome. It is created once per process start, mutated
/// only by sequential registration steps, and consumed by the run loop or
/// discarded on failure.
pub struct BootstrapContext {
    /// The classification the plan was drawn from, fixed at creation.
    pub classification: Classification,
    /// The modules to attempt, in order, as decided at creation.
    pub plan: Vec<ModuleId>,
    /// The modules registered so far; always a prefix of `plan`.
    pub registered: Vec<ModuleId>,
    /// Where the bootstrap stands.
    pub phase: Phase,
    /// The first error encountered, if any.
    pub error: Option<StartupError>,
    /// The outcome of each registration attempt so far, in order.
    pub history: Ghost<Seq<bool>>,
}

impl BootstrapContext {
    /// The modules attempted so far: every registered one, plus the one
    /// whose registration failed, if any.
    pub open spec fn attempted(self) -> Seq<ModuleId> {
        match self.error {
            Some(StartupError::Registration { module, .. }) => self.registered@.push(module),
            _ => self.registered@,
        }
    }

    /// The invariant every reachable context satisfies: the plan is the one
    /// the classification dictates, the registered modules are the prefix of
    /// the plan whose attempts succeeded, and the phase agrees with the
    /// recorded outcome.
    pub open spec fn wf(self) -> bool {
        &&& self.plan@ == spec_plan(self.classification)
        &&& self.registered@.len() <= self.plan@.len()
        &&& self.registered@ == self.plan@.take(self.registered@.len() as int)
        &&& self.history@.len() == self.attempted().len()
        &&& (forall|i: int|
            0 <= i < self.history@.len() ==> (self.history@[i] <==> i < self.registered@.len()))
        &&& match self.phase {
            Phase::Accepting => self.error is None,
            Phase::Running => self.error is None && self.registered@.len() == self.plan@.len(),
            Phase::Completed => self.error is None && self.registered@.len() == self.plan@.len(),
            Phase::Failed => match self.error {
                Some(StartupError::Registration { module, .. }) => {
                    &&& self.registered@.len() < self.plan@.len()
                    &&& module == self.plan@[self.registered@.len() as int]
                },
                Some(StartupError::RunLoop { .. }) => self.registered@.len() == self.plan@.len(),
                None => false,
            },
        }
    }

    /// Create a fresh context for the given classification: plan drawn from
    /// the declared table, nothing registered yet, accepting registrations.
    pub fn new(c: Classification) -> (ctx: Self)
        ensures
            ctx.wf(),
            ctx.classification == c,
            ctx.phase == Phase::Accepting,
            ctx.registered@ == Seq::<ModuleId>::empty(),
            ctx.history@ == Seq::<bool>::empty(),
            ctx.error is None,
    {
        let p = plan(c);
        let ctx = BootstrapContext {
            classification: c,
            plan: p,
            registered: Vec::new(),
            phase: Phase::Accepting,
            error: None,
            history: Ghost(Seq::empty()),
        };
        proof {
            assert(ctx.plan@.take(0) =~= Seq::<ModuleId>::empty());
        }
        ctx
    }

    /// Decide the next bootstrap action from the current state alone: the
    /// next planned module while one is pending, the hand-off once the plan
    /// is exhausted, the fatal report after a failure.
    pub fn next_step(&self) -> (s: Step)
        ensures
            self.phase == Phase::Accepting && self.registered@.len() < self.plan@.len()
                ==> s == Step::Register(self.plan@[self.registered@.len() as int]),
            self.phase == Phase::Accepting && self.registered@.len() == self.plan@.len()
                ==> s == Step::HandOff,
            self.phase == Phase::Failed ==> s == Step::Fatal,
            self.phase == Phase::Running || self.phase == Phase::Completed ==> s == Step::Settled,
    {
        match self.phase {
            Phase::Accepting => {
                if self.registered.len() < self.plan.len() {
                    Step::Register(self.plan[self.registered.len()])
                } else {
                    Step::HandOff
                }
            }
            Phase::Failed => Step::Fatal,
            Phase::Running => Step::Settled,
            Phase::Completed => Step::Settled,
        }
    }

    /// Record the collaborator's answer to the registration attempt of the
    /// next planned module. Success appends the module to the registered
    /// prefix; failure fails the whole bootstrap for good, keeping the
    /// module and the collaborator's reason as the startup outcome.
    pub fn record_registration(&mut self, result: Result<(), String>)
        requires
            old(self).wf(),
            old(self).phase == Phase::Accepting,
            old(self).registered@.len() < old(self).plan@.len(),
        ensures
            final(self).wf(),
            final(self).classification == old(self).classification,
            final(self).plan@ == old(self).plan@,
            final(self).history@ == old(self).history@.push(result is Ok),
            result is Ok ==> {
                &&& final(self).phase == Phase::Accepting
                &&& final(self).error is None
                &&& final(self).registered@ == old(self).registered@.push(
                    old(self).plan@[old(self).registered@.len() as int])
            },
            result matches Err(reason) ==> {
                &&& final(self).phase == Phase::Failed
                &&& final(self).registered@ == old(self).registered@
                &&& final(self).error == Some(StartupError::Registration {
                    module: old(self).plan@[old(self).registered@.len() as int],
                    reason,
                })
            },
    {
        let m = self.plan[self.registered.len()];
        match result {
            Ok(()) => {
                self.registered.push(m);
                self.history = Ghost(self.history@.push(true));
                proof {
                    assert(self.registered@ =~= self.plan@.take(self.registered@.len() as int));
                }
            }
            Err(reason) => {
                self.phase = Phase::Failed;
                self.error = Some(StartupError::Registration { module: m, reason });
                self.history = Ghost(self.history@.push(false));
            }
        }
    }

    /// Hand the fully composed context to the host runtime's run loop. Only
    /// a context whose every planned module has registered may be handed
    /// off; the context then blocks in `Running` until the run loop ends.
    pub fn begin_run(&mut self)
        requires
            old(self).wf(),
            old(self).phase == Phase::Accepting,
            old(self).registered@.len() == old(self).plan@.len(),
        ensures
            final(self).wf(),
            final(self).phase == Phase::Running,
            final(self).classification == old(self).classification,
            final(self).plan@ == old(self).plan@,
            final(self).registered@ == old(self).registered@,
            final(self).error is None,
            final(self).history@ == old(self).history@,
    {
        self.phase = Phase::Running;
    }

    /// Record how the host runtime's run loop ended. A normal end completes
    /// the bootstrap; an abnormal end is a fatal startup failure carrying
    /// the runtime's reason.
    pub fn record_run(&mut self, result: Result<(), String>)
        requires
            old(self).wf(),
            old(self).phase == Phase::Running,
        ensures
            final(self).wf(),
            final(self).classification == old(self).classification,
            final(self).plan@ == old(self).plan@,
            final(self).registered@ == old(self).registered@,
            final(self).history@ == old(self).history@,
            result is Ok ==> final(self).phase == Phase::Completed && final(self).error is None,
            result matches Err(reason) ==> {
                &&& final(self).phase == Phase::Failed
                &&& final(self).error == Some(StartupError::RunLoop { reason })
            },
    {
        match result {
            Ok(()) => {
                self.phase = Phase::Completed;
            }
            Err(reason) => {
                self.phase = Phase::Failed;
                self.error = Some(StartupError::RunLoop { reason });
            }
        }
    }
}

} // verus!
