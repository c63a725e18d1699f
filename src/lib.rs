//! Renames the files that appear in a watched directory by the first matching
//! rule of an ordered, live-reloadable list of pattern/replacement rules.
//!
//! - `rules`: the rule set, its loading and reloading, and the first-match decision.
//! - `lock`: the bounded wait for exclusive access to a file.
//! - `candidate`: the handling of one file, from existence check to rename.
//! - `router`: sorting notifications into rule reloads and candidate files.
//! - `settings`: the process-wide settings and their defaults.

pub mod candidate;
pub mod lock;
pub mod router;
pub mod rules;
pub mod settings;
