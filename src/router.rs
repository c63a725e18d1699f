use vstd::prelude::*;

use crate::rules::{pairs_view, all_valid_before, is_first_invalid, RuleError, RuleSet};

verus! {

/// The kind of a filesystem notification.
#[derive(Debug, Clone, Copy, PartialEq, Eq, Structural)]
pub enum EventKind {
    Created,
    Modified,
    Removed,
    Other,
}

/// Work that one path of a notification calls for.
pub enum Task {
    /// The configuration file changed: reload the rules.
    Reload,
    /// A file of the watched directory appeared or changed: try to rename it.
    Process { path: String },
}

/// Whether notifications of this kind are acted on.
pub open spec fn is_relevant(kind: EventKind) -> bool {
    kind is Created || kind is Modified
}

/// `task` is the work for `path` when the configuration file is `config`.
pub open spec fn task_for(task: Task, path: Seq<char>, config: Seq<char>) -> bool {
    if path == config {
        task is Reload
    } else {
        task matches Task::Process { path: p } && p@ == path
    }
}

/// Owns the rule set in force, and sorts each notification's paths into rule
/// reloads and candidate files, in the order in which they arrived.
pub struct EventRouter {
    config_path: String,
    rules: RuleSet,
}

impl EventRouter {
    pub closed spec fn config(&self) -> Seq<char> {
        self.config_path@
    }

    pub closed spec fn rule_set(&self) -> RuleSet {
        self.rules
    }

    pub fn new(config_path: String, rules: RuleSet) -> (r: EventRouter)
        ensures
            r.config() == config_path@,
            r.rule_set() == rules,
    {
        EventRouter { config_path, rules }
    }

    pub fn config_path(&self) -> (r: &str)
        ensures
            r@ == self.config(),
    {
        self.config_path.as_str()
    }

    pub fn rules(&self) -> (r: &RuleSet)
        ensures
            *r == self.rule_set(),
    {
        &self.rules
    }

    /// Whether `path` is the configuration file (exact path equality).
    pub fn is_config(&self, path: &String) -> (r: bool)
        ensures
            r == (path@ == self.config()),
    {
        *path == self.config_path
    }

    /// One task per path, in the order of `paths`, for a created or modified
    /// entry; none for other kinds of notification.
    pub fn route(&self, kind: EventKind, paths: &Vec<String>) -> (tasks: Vec<Task>)
        ensures
            !is_relevant(kind) ==> tasks@.len() == 0,
            is_relevant(kind) ==> tasks@.len() == paths@.len(),
            is_relevant(kind) ==> forall|i: int|
                0 <= i < paths@.len() ==> task_for(#[trigger] tasks@[i], paths@[i]@, self.config()),
    {
        let mut tasks: Vec<Task> = Vec::new();
        if !(kind == EventKind::Created || kind == EventKind::Modified) {
            return tasks;
        }
        let mut i: usize = 0;
        while i < paths.len()
            invariant
                i <= paths@.len(),
                tasks@.len() == i,
                forall|j: int| 0 <= j < i ==> task_for(#[trigger] tasks@[j], paths@[j]@, self.config()),
            decreases paths@.len() - i,
        {
            if self.is_config(&paths[i]) {
                tasks.push(Task::Reload);
            } else {
                tasks.push(Task::Process { path: paths[i].clone() });
            }
            i = i + 1;
        }
        tasks
    }

    /// Installs the rules compiled from `pairs`; when one pattern does not
    /// compile the rules in force stay exactly as they were.
    pub fn reload(&mut self, pairs: &Vec<(String, String)>) -> (r: Result<(), RuleError>)
        ensures
            final(self).config() == old(self).config(),
            r is Ok <==> all_valid_before(pairs@, pairs@.len() as int),
            r is Ok ==> final(self).rule_set()@ == pairs_view(pairs@),
            r is Err ==> final(self).rule_set() == old(self).rule_set(),
            r matches Err(e) ==> is_first_invalid(pairs@, e.index as int) && e.pattern@ == pairs@[e.index as int].0@,
    {
        self.rules.reload(pairs)
    }
}

} // verus!
