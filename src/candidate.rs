use vstd::prelude::*;

use crate::lock::{probe_step, LockWait, ProbeStep};
use crate::rules::{decided, Decision, RuleSet};

verus! {

/// How the handling of one candidate file ended.
pub enum Outcome {
    /// The file was gone by the time it was looked at.
    NoSuchFile,
    /// The file stayed locked through every probe; it was skipped.
    Locked,
    /// No rule matches the file's name.
    NoMatch,
    /// Rule `rule` matched and left the name as it was.
    Unchanged { rule: usize },
    /// The file was moved to `new_name` in its directory.
    Renamed { rule: usize, new_name: String },
    /// Moving the file to `new_name` failed; it is not retried.
    RenameFailed { rule: usize, new_name: String },
}

/// What the caller is to do next for a candidate file.
pub enum Action {
    /// Open the file for reading and writing, release it at once, and report
    /// whether that was granted.
    Probe,
    /// Sleep for the retry delay, then probe again.
    SleepThenProbe,
    /// Move the file to `new_name` in the same directory, and report success.
    Rename { new_name: String },
    /// Nothing more to do.
    Done(Outcome),
}

/// Where the handling of a candidate file stands.
pub enum Stage {
    CheckingExistence,
    Probing,
    Renaming { rule: usize, new_name: String },
    Finished,
}

/// The handling of one candidate file: an existence check, then the bounded
/// wait for exclusive access, then the rules, then at most one move.
pub struct Candidate {
    filename: String,
    guard: LockWait,
    stage: Stage,
}

impl Candidate {
    pub closed spec fn name(&self) -> Seq<char> {
        self.filename@
    }

    pub closed spec fn stage(&self) -> Stage {
        self.stage
    }

    pub closed spec fn guard(&self) -> LockWait {
        self.guard
    }

    pub open spec fn wf(&self) -> bool {
        &&& self.guard().wf()
        &&& (self.stage() is CheckingExistence || self.stage() is Probing) ==> !self.guard().done()
    }

    /// Starts the handling of the file named `filename`, which may be probed
    /// `max_retries` times.
    pub fn new(filename: &str, max_retries: u32) -> (r: Candidate)
        requires
            max_retries > 0,
        ensures
            r.wf(),
            r.name() == filename@,
            r.stage() is CheckingExistence,
            r.guard().attempts_made() == 0,
            r.guard().max() == max_retries,
            !r.guard().done(),
    {
        Candidate { filename: filename.to_owned(), guard: LockWait::new(max_retries), stage: Stage::CheckingExistence }
    }

    pub fn filename(&self) -> (r: &str)
        ensures
            r@ == self.name(),
    {
        self.filename.as_str()
    }

    pub fn attempts(&self) -> (r: u32)
        ensures
            r == self.guard().attempts_made(),
    {
        self.guard.attempts()
    }

    /// A file that no longer exists ends the handling; one that exists is probed.
    pub fn on_exists(&mut self, exists: bool) -> (a: Action)
        requires
            old(self).wf(),
            old(self).stage() is CheckingExistence,
        ensures
            final(self).wf(),
            final(self).name() == old(self).name(),
            final(self).guard() == old(self).guard(),
            exists ==> a is Probe && final(self).stage() is Probing,
            !exists ==> a == Action::Done(Outcome::NoSuchFile) && final(self).stage() is Finished,
    {
        if exists {
            self.stage = Stage::Probing;
            Action::Probe
        } else {
            self.stage = Stage::Finished;
            Action::Done(Outcome::NoSuchFile)
        }
    }

    /// Takes the result of a probe. While the file is locked and attempts
    /// remain, sleeps and probes again; after the last refused probe the file
    /// is skipped; once access is granted the rules in force decide.
    pub fn on_probe(&mut self, unlocked: bool, rules: &RuleSet) -> (a: Action)
        requires
            old(self).wf(),
            old(self).stage() is Probing,
        ensures
            final(self).wf(),
            final(self).name() == old(self).name(),
            final(self).guard().max() == old(self).guard().max(),
            final(self).guard().attempts_made() == old(self).guard().attempts_made() + 1,
            probe_step(final(self).guard().attempts_made(), final(self).guard().max(), unlocked) is Retry
                ==> a is SleepThenProbe && final(self).stage() is Probing,
            probe_step(final(self).guard().attempts_made(), final(self).guard().max(), unlocked) is GiveUp
                ==> a == Action::Done(Outcome::Locked) && final(self).stage() is Finished,
            probe_step(final(self).guard().attempts_made(), final(self).guard().max(), unlocked) is Proceed
                ==> match a {
                Action::Done(Outcome::NoMatch) => {
                    &&& decided(rules@, old(self).name(), Decision::NoMatch)
                    &&& final(self).stage() is Finished
                },
                Action::Done(Outcome::Unchanged { rule }) => {
                    &&& decided(rules@, old(self).name(), Decision::Unchanged { rule })
                    &&& final(self).stage() is Finished
                },
                Action::Rename { new_name } => {
                    &&& final(self).stage() matches Stage::Renaming { rule, new_name: n }
                    &&& n == new_name
                    &&& decided(rules@, old(self).name(), Decision::Rename { rule, new_name })
                },
                _ => false,
            },
    {
        match self.guard.record(unlocked) {
            ProbeStep::Retry => Action::SleepThenProbe,
            ProbeStep::GiveUp => {
                self.stage = Stage::Finished;
                Action::Done(Outcome::Locked)
            },
            ProbeStep::Proceed => match rules.decide(self.filename.as_str()) {
                Decision::NoMatch => {
                    self.stage = Stage::Finished;
                    Action::Done(Outcome::NoMatch)
                },
                Decision::Unchanged { rule } => {
                    self.stage = Stage::Finished;
                    Action::Done(Outcome::Unchanged { rule })
                },
                Decision::Rename { rule, new_name } => {
                    let a = Action::Rename { new_name: new_name.clone() };
                    self.stage = Stage::Renaming { rule, new_name };
                    a
                },
            },
        }
    }

    /// Takes the result of the move; a failed move is reported, never retried.
    pub fn on_rename(&mut self, moved: bool) -> (a: Action)
        requires
            old(self).wf(),
            old(self).stage() is Renaming,
        ensures
            final(self).wf(),
            final(self).name() == old(self).name(),
            final(self).stage() is Finished,
            old(self).stage() matches Stage::Renaming { rule, new_name } && a == (if moved {
                Action::Done(Outcome::Renamed { rule, new_name })
            } else {
                Action::Done(Outcome::RenameFailed { rule, new_name })
            }),
    {
        let a = match &self.stage {
            Stage::Renaming { rule, new_name } => {
                if moved {
                    Action::Done(Outcome::Renamed { rule: *rule, new_name: new_name.clone() })
                } else {
                    Action::Done(Outcome::RenameFailed { rule: *rule, new_name: new_name.clone() })
                }
            },
            _ => Action::Done(Outcome::NoMatch),
        };
        self.stage = Stage::Finished;
        a
    }
}

} // verus!
