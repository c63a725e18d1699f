use vstd::prelude::*;

verus! {

/// What to do after one probe for exclusive access to a file.
pub enum ProbeStep {
    /// Access was granted: go on with the file.
    Proceed,
    /// The file is locked and attempts remain: sleep for the delay, then probe again.
    Retry,
    /// The file is locked and that was the last attempt: skip the file.
    GiveUp,
}

/// The step taken after probe number `attempt` (counted from 1) out of `max`.
pub open spec fn probe_step(attempt: nat, max: nat, unlocked: bool) -> ProbeStep {
    if unlocked {
        ProbeStep::Proceed
    } else if attempt < max {
        ProbeStep::Retry
    } else {
        ProbeStep::GiveUp
    }
}

/// How a whole wait ends.
pub struct GuardRun {
    /// Probes made.
    pub attempts: nat,
    /// Whether a probe was granted access.
    pub unlocked: bool,
    /// Delays slept between probes.
    pub sleeps: nat,
}

/// The wait that has made `made` probes so far, when probe `n` (counted from 1)
/// reports `probes[n - 1]` (true: access granted).
pub open spec fn guard_run(max: nat, probes: Seq<bool>, made: nat) -> GuardRun
    decreases max - made,
{
    if made < max && made < probes.len() {
        match probe_step(made + 1, max, probes[made as int]) {
            ProbeStep::Proceed => GuardRun { attempts: made + 1, unlocked: true, sleeps: 0 },
            ProbeStep::GiveUp => GuardRun { attempts: made + 1, unlocked: false, sleeps: 0 },
            ProbeStep::Retry => {
                let rest = guard_run(max, probes, made + 1);
                GuardRun { sleeps: rest.sleeps + 1, ..rest }
            },
        }
    } else {
        GuardRun { attempts: made, unlocked: false, sleeps: 0 }
    }
}

pub open spec fn min_nat(a: nat, b: nat) -> nat {
    if a <= b {
        a
    } else {
        b
    }
}

proof fn lemma_run_from(max: nat, probes: Seq<bool>, k: nat, made: nat)
    requires
        made < k,
        made < max,
        max <= probes.len(),
        k <= probes.len(),
        probes[k - 1],
        forall|j: int| made <= j < k - 1 ==> !probes[j],
    ensures
        guard_run(max, probes, made) == (GuardRun {
            attempts: min_nat(k, max),
            unlocked: k <= max,
            sleeps: (min_nat(k, max) - 1 - made) as nat,
        }),
    decreases max - made,
{
    if made + 1 < k && made + 1 < max {
        lemma_run_from(max, probes, k, made + 1);
    }
}

proof fn lemma_run_locked_from(max: nat, probes: Seq<bool>, made: nat)
    requires
        made < max,
        max <= probes.len(),
        forall|j: int| made <= j < max ==> !probes[j],
    ensures
        guard_run(max, probes, made) == (GuardRun { attempts: max, unlocked: false, sleeps: (max - 1 - made) as nat }),
    decreases max - made,
{
    if made + 1 < max {
        lemma_run_locked_from(max, probes, made + 1);
    }
}

/// When the first probe that is granted access is probe `k` (counted from 1),
/// the wait makes `min(k, max)` probes, succeeds iff `k <= max`, and sleeps once
/// between each two probes, so that it blocks for `(attempts - 1) × delay`.
pub proof fn lemma_attempts_until_unlocked(max: nat, probes: Seq<bool>, k: nat)
    requires
        max > 0,
        max <= probes.len(),
        1 <= k <= probes.len(),
        probes[k - 1],
        forall|j: int| 0 <= j < k - 1 ==> !probes[j],
    ensures
        guard_run(max, probes, 0).attempts == min_nat(k, max),
        guard_run(max, probes, 0).unlocked == (k <= max),
        guard_run(max, probes, 0).sleeps == guard_run(max, probes, 0).attempts - 1,
{
    lemma_run_from(max, probes, k, 0);
}

/// When no probe is granted access, the wait makes exactly `max` probes, fails,
/// and sleeps `max - 1` times.
pub proof fn lemma_attempts_when_locked(max: nat, probes: Seq<bool>)
    requires
        max > 0,
        max <= probes.len(),
        forall|j: int| 0 <= j < max ==> !probes[j],
    ensures
        guard_run(max, probes, 0) == (GuardRun { attempts: max, unlocked: false, sleeps: (max - 1) as nat }),
{
    lemma_run_locked_from(max, probes, 0);
}

/// A bounded wait for exclusive access to a file: at most `max_retries` probes,
/// with a sleep after each refused probe but the last.
pub struct LockWait {
    attempts: u32,
    max_retries: u32,
    finished: bool,
}

impl LockWait {
    pub closed spec fn attempts_made(&self) -> nat {
        self.attempts as nat
    }

    pub closed spec fn max(&self) -> nat {
        self.max_retries as nat
    }

    pub closed spec fn done(&self) -> bool {
        self.finished
    }

    pub open spec fn wf(&self) -> bool {
        &&& 0 < self.max()
        &&& self.attempts_made() <= self.max()
        &&& !self.done() ==> self.attempts_made() < self.max()
    }

    pub fn new(max_retries: u32) -> (r: LockWait)
        requires
            max_retries > 0,
        ensures
            r.wf(),
            r.attempts_made() == 0,
            r.max() == max_retries,
            !r.done(),
    {
        LockWait { attempts: 0, max_retries, finished: false }
    }

    /// Records the outcome of the next probe and says what to do next.
    pub fn record(&mut self, unlocked: bool) -> (step: ProbeStep)
        requires
            old(self).wf(),
            !old(self).done(),
        ensures
            final(self).wf(),
            final(self).max() == old(self).max(),
            final(self).attempts_made() == old(self).attempts_made() + 1,
            step == probe_step(final(self).attempts_made(), final(self).max(), unlocked),
            final(self).done() == !(step is Retry),
    {
        self.attempts = self.attempts + 1;
        if unlocked {
            self.finished = true;
            ProbeStep::Proceed
        } else if self.attempts < self.max_retries {
            ProbeStep::Retry
        } else {
            self.finished = true;
            ProbeStep::GiveUp
        }
    }

    pub fn attempts(&self) -> (r: u32)
        ensures
            r == self.attempts_made(),
    {
        self.attempts
    }

    pub fn max_retries(&self) -> (r: u32)
        ensures
            r == self.max(),
    {
        self.max_retries
    }

    pub fn is_done(&self) -> (r: bool)
        ensures
            r == self.done(),
    {
        self.finished
    }
}

} // verus!
