//! The build session: one build per enabled engine, strictly in order.
//!
//! A `BuildSession` is created from a validated configuration and then
//! stepped by the caller: `current_job` names the next engine job to run,
//! and `record_exit` consumes the spawned tool's exit outcome. The first
//! unsuccessful exit — or a tool that could not be spawned at all — aborts
//! the session; there is no partial success and no retry. The session keeps
//! a ghost record of the exits seen so far, so that its final verdict
//! provably coincides with [`session_result`], the specification of the
//! whole orchestration.

use vstd::prelude::*;

use crate::config::{BuildConfig, BuildError, EngineKind, ExitOutcome};
use crate::config::{spec_validate, valid_config, validate};
use crate::jobs::{afl_job, honggfuzz_job, job_matches, EngineJob, ExternalEnv};

verus! {

/// The engines a configuration builds for, in build order: the AFL-class
/// engine always precedes the Honggfuzz-class engine.
pub open spec fn enabled_engines(c: BuildConfig) -> Seq<EngineKind> {
    let afl = if c.afl_enabled {
        seq![EngineKind::Afl]
    } else {
        Seq::<EngineKind>::empty()
    };
    let honggfuzz = if c.honggfuzz_enabled {
        seq![EngineKind::Honggfuzz]
    } else {
        Seq::<EngineKind>::empty()
    };
    afl + honggfuzz
}

/// The verdict of a session in which engine `engines[i]` terminated with
/// `exits[i]`: the first unsuccessful exit fails the session, naming that
/// engine; with every exit successful the session succeeds. Engines after
/// the first failure are never attempted, so `exits` may be shorter than
/// `engines`.
pub open spec fn session_result(engines: Seq<EngineKind>, exits: Seq<ExitOutcome>) -> Result<
    (),
    BuildError,
>
    decreases engines.len(),
{
    if engines.len() == 0 || exits.len() == 0 {
        Ok(())
    } else if exits[0] != ExitOutcome::Code(0i32) {
        Err(BuildError::EngineBuildFailed { engine: engines[0], exit: exits[0] })
    } else {
        session_result(engines.drop_first(), exits.drop_first())
    }
}

/// When both engines are enabled, the AFL-class engine is built first and
/// the Honggfuzz-class engine second.
pub proof fn lemma_afl_builds_first(c: BuildConfig)
    requires
        c.afl_enabled,
        c.honggfuzz_enabled,
    ensures
        enabled_engines(c) == seq![EngineKind::Afl, EngineKind::Honggfuzz],
{
    assert(enabled_engines(c) =~= seq![EngineKind::Afl, EngineKind::Honggfuzz]);
}

/// When every engine's build tool exits successfully, the session succeeds.
pub proof fn lemma_all_success(engines: Seq<EngineKind>, exits: Seq<ExitOutcome>)
    requires
        exits.len() == engines.len(),
        forall|i: int| 0 <= i < exits.len() ==> exits[i] == ExitOutcome::Code(0i32),
    ensures
        session_result(engines, exits) == Ok::<(), BuildError>(()),
    decreases engines.len(),
{
    if engines.len() > 0 {
        assert(exits[0] == ExitOutcome::Code(0i32));
        assert(forall|i: int|
            0 <= i < exits.drop_first().len() ==> exits.drop_first()[i] == exits[i + 1]);
        lemma_all_success(engines.drop_first(), exits.drop_first());
    }
}

/// The first unsuccessful exit decides the session: if the builds before
/// position `k` succeeded and the one at `k` did not, the session fails with
/// `EngineBuildFailed` naming engine `k` and its exit, and no engine after
/// `k` is consulted.
pub proof fn lemma_first_failure(engines: Seq<EngineKind>, exits: Seq<ExitOutcome>, k: int)
    requires
        0 <= k < exits.len(),
        exits.len() <= engines.len(),
        forall|i: int| 0 <= i < k ==> exits[i] == ExitOutcome::Code(0i32),
        exits[k] != ExitOutcome::Code(0i32),
    ensures
        session_result(engines, exits) == Err::<(), BuildError>(
            BuildError::EngineBuildFailed { engine: engines[k], exit: exits[k] },
        ),
    decreases k,
{
    if k > 0 {
        assert(exits[0] == ExitOutcome::Code(0i32));
        assert(forall|i: int|
            0 <= i < exits.drop_first().len() ==> exits.drop_first()[i] == exits[i + 1]);
        lemma_first_failure(engines.drop_first(), exits.drop_first(), k - 1);
    }
}

/// One build session: the jobs for the enabled engines, how many have
/// completed successfully, and whether the session has aborted. The ghost
/// fields record the configuration the session was made from and the exit
/// outcomes seen so far.
pub struct BuildSession {
    pub jobs: Vec<EngineJob>,
    pub next: usize,
    pub failed: bool,
    pub exits: Ghost<Seq<ExitOutcome>>,
    pub source_config: Ghost<BuildConfig>,
    pub external: Ghost<ExternalEnv>,
}

impl BuildSession {
    /// The session's internal invariant: jobs mirror the enabled engines in
    /// order, each job is the one its engine's recipe prescribes, every
    /// recorded exit before `next` was successful, and an aborted session
    /// records the unsuccessful exit (when the tool ran at all).
    pub open spec fn wf(self) -> bool {
        &&& valid_config(self.source_config@)
        &&& self.jobs@.map_values(|j: EngineJob| j.engine) == enabled_engines(self.source_config@)
        &&& forall|i: int|
            0 <= i < self.jobs@.len() ==> job_matches(
                #[trigger] self.jobs@[i],
                self.source_config@,
                self.external@,
            )
        &&& self.next <= self.jobs@.len()
        &&& !self.failed ==> self.exits@.len() == self.next as int
        &&& self.failed ==> self.next < self.jobs@.len() && self.exits@.len() <= self.next + 1
        &&& forall|i: int| 0 <= i < self.next ==> self.exits@[i] == ExitOutcome::Code(0i32)
        &&& self.failed && self.exits@.len() == self.next + 1 ==> self.exits@[self.next as int]
            != ExitOutcome::Code(0i32)
    }

    /// There is a job left to run and the session has not aborted.
    pub open spec fn in_progress(self) -> bool {
        !self.failed && self.next < self.jobs@.len()
    }

    /// Every enabled engine's build completed successfully.
    pub open spec fn complete(self) -> bool {
        !self.failed && self.next == self.jobs@.len()
    }

    /// Validates the configuration and lays out one job per enabled engine,
    /// AFL-class first. Fails with exactly the validation verdict — so a
    /// rejected configuration yields no jobs and spawns nothing.
    pub fn new(c: &BuildConfig, ext: &ExternalEnv) -> (r: Result<BuildSession, BuildError>)
        ensures
            match r {
                Ok(s) => {
                    &&& spec_validate(*c) is Ok
                    &&& s.wf()
                    &&& s.source_config@ == *c
                    &&& s.external@ == *ext
                    &&& s.next == 0
                    &&& !s.failed
                    &&& s.exits@ == Seq::<ExitOutcome>::empty()
                },
                Err(e) => spec_validate(*c) == Err::<(), BuildError>(e),
            },
    {
        match validate(c) {
            Err(e) => Err(e),
            Ok(()) => {
                let mut jobs: Vec<EngineJob> = Vec::new();
                if c.afl_enabled {
                    jobs.push(afl_job(c, ext));
                }
                if c.honggfuzz_enabled {
                    jobs.push(honggfuzz_job(c, ext));
                }
                proof {
                    assert(jobs@.map_values(|j: EngineJob| j.engine) =~= enabled_engines(*c));
                }
                Ok(
                    BuildSession {
                        jobs,
                        next: 0,
                        failed: false,
                        exits: Ghost(Seq::<ExitOutcome>::empty()),
                        source_config: Ghost(*c),
                        external: Ghost(*ext),
                    },
                )
            },
        }
    }

    /// The number of engine jobs in this session.
    pub fn job_count(&self) -> (n: usize)
        ensures
            n == self.jobs@.len(),
    {
        self.jobs.len()
    }

    /// The job to run next, or `None` when the session is complete or has
    /// aborted.
    pub fn current_job(&self) -> (r: Option<&EngineJob>)
        ensures
            match r {
                Some(j) => self.in_progress() && *j == self.jobs@[self.next as int],
                None => !self.in_progress(),
            },
    {
        if !self.failed && self.next < self.jobs.len() {
            Some(&self.jobs[self.next])
        } else {
            None
        }
    }

    /// Consumes the exit outcome of the current job's build tool. A
    /// successful exit advances to the next engine; any other outcome aborts
    /// the session with `EngineBuildFailed` naming the engine that failed,
    /// and no later engine is ever offered again.
    pub fn record_exit(&mut self, outcome: ExitOutcome) -> (r: Result<(), BuildError>)
        requires
            old(self).wf(),
            old(self).in_progress(),
        ensures
            final(self).wf(),
            final(self).jobs@ == old(self).jobs@,
            final(self).source_config@ == old(self).source_config@,
            final(self).external@ == old(self).external@,
            final(self).exits@ == old(self).exits@.push(outcome),
            outcome == ExitOutcome::Code(0i32) ==> {
                &&& r is Ok
                &&& !final(self).failed
                &&& final(self).next == old(self).next + 1
            },
            outcome != ExitOutcome::Code(0i32) ==> {
                &&& r == Err::<(), BuildError>(
                    BuildError::EngineBuildFailed {
                        engine: old(self).jobs@[old(self).next as int].engine,
                        exit: outcome,
                    },
                )
                &&& final(self).failed
                &&& final(self).next == old(self).next
            },
    {
        let success = match outcome {
            ExitOutcome::Code(code) => code == 0,
            ExitOutcome::Signal => false,
        };
        self.exits = Ghost(self.exits@.push(outcome));
        if success {
            let total = self.jobs.len();
            assert(self.next < total);
            self.next = self.next + 1;
            Ok(())
        } else {
            self.failed = true;
            let engine = self.jobs[self.next].engine;
            Err(BuildError::EngineBuildFailed { engine, exit: outcome })
        }
    }

    /// Aborts the session because the current job's build tool could not be
    /// started; returns the error to surface, naming the engine and carrying
    /// the operating system's description of the failure.
    pub fn record_spawn_failure(&mut self, message: String) -> (e: BuildError)
        requires
            old(self).wf(),
            old(self).in_progress(),
        ensures
            final(self).wf(),
            final(self).failed,
            final(self).jobs@ == old(self).jobs@,
            final(self).exits@ == old(self).exits@,
            e == (BuildError::SpawnFailed {
                engine: old(self).jobs@[old(self).next as int].engine,
                message,
            }),
    {
        self.failed = true;
        let engine = self.jobs[self.next].engine;
        BuildError::SpawnFailed { engine, message }
    }

    /// Whether every enabled engine's build has completed successfully.
    pub fn succeeded(&self) -> (r: bool)
        ensures
            r == self.complete(),
    {
        !self.failed && self.next == self.jobs.len()
    }
}

/// A completed well-formed session is one whose recorded exits satisfy the
/// orchestration specification: [`session_result`] of the enabled engines
/// and the exits is success.
pub proof fn lemma_complete_session_ok(s: BuildSession)
    requires
        s.wf(),
        s.complete(),
    ensures
        session_result(enabled_engines(s.source_config@), s.exits@) == Ok::<(), BuildError>(()),
{
    lemma_all_success(enabled_engines(s.source_config@), s.exits@);
}

/// An aborted well-formed session that saw its tool run and fail agrees with
/// the orchestration specification: [`session_result`] fails with
/// `EngineBuildFailed` naming the engine whose build failed and its exit.
pub proof fn lemma_aborted_session_err(s: BuildSession)
    requires
        s.wf(),
        s.failed,
        s.exits@.len() == s.next + 1,
    ensures
        session_result(enabled_engines(s.source_config@), s.exits@) == Err::<(), BuildError>(
            BuildError::EngineBuildFailed {
                engine: s.jobs@[s.next as int].engine,
                exit: s.exits@[s.next as int],
            },
        ),
{
    lemma_first_failure(enabled_engines(s.source_config@), s.exits@, s.next as int);
}

} // verus!
