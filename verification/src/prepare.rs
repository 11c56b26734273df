//! Task preparation decisions.
//!
//! Preparing a task means deriving its summary path, making sure the parent
//! directory of that path can be used, and opening the two file handles.
//! The handle opening itself is I/O and lives with the caller; this module
//! holds the decisions: the task list derived from the input paths, the
//! parent directory of an output path, and what to do about that parent's
//! current state on disk.

use vstd::prelude::*;
use crate::config::Config;
use crate::errors::EngineError;
use crate::paths;

verus! {

/// One unit of map-stage work: an input file and the summary path derived
/// for it.
pub struct Task {
    /// The path of the input file.
    pub input: String,
    /// The summary path the task's worker writes to.
    pub output: String,
}

/// What task preparation must do about the parent directory of an output
/// path, given the parent's state on disk.
#[derive(Clone, Copy, Debug, PartialEq, Eq, Structural)]
pub enum DirAction {
    /// The parent already is a directory: use it as it stands.
    UseExisting,
    /// Nothing occupies the parent path: create the directory and every
    /// missing ancestor.
    Create,
    /// A non-directory file occupies the parent path: abort, nothing may be
    /// created.
    Conflict,
}

/// The action owed for an output path's parent: an existing directory is
/// used, an occupied non-directory path is a conflict, and an absent one is
/// created.
pub fn classify_output_parent(parent_exists: bool, parent_is_dir: bool) -> (a: DirAction)
    ensures
        parent_is_dir ==> a == DirAction::UseExisting,
        !parent_is_dir && parent_exists ==> a == DirAction::Conflict,
        !parent_is_dir && !parent_exists ==> a == DirAction::Create,
{
    if parent_is_dir {
        DirAction::UseExisting
    } else if parent_exists {
        DirAction::Conflict
    } else {
        DirAction::Create
    }
}

/// The parent of `p`: the text before its last `/`, or `None` when `p`
/// holds no separator.
pub fn parent_dir(p: &str) -> (r: Option<String>)
    ensures
        paths::dir_prefix_len(p@) == 0 ==> r is None,
        paths::dir_prefix_len(p@) >= 1 ==> (r matches Some(d) && d@ == p@.subrange(
            0,
            paths::dir_prefix_len(p@) - 1,
        )),
{
    let b = paths::last_slash_end(p);
    proof {
        paths::lemma_dir_prefix_len_bounds(p@);
    }
    if b == 0 {
        None
    } else {
        Some(String::from_str(p.substring_char(0, b - 1)))
    }
}

/// The task list of one map run: each input path paired with the summary
/// path derived for it, in input order.  The list exists only when every
/// input path has a usable file name; the first one without aborts the
/// whole run.
pub fn plan_tasks(cfg: &Config, inputs: &Vec<String>) -> (r: Result<Vec<Task>, EngineError>)
    ensures
        r matches Ok(ts) ==> {
            &&& ts@.len() == inputs@.len()
            &&& forall|i: int| 0 <= i < ts@.len() ==> (#[trigger] ts@[i]).input@ == inputs@[i]@
            &&& forall|i: int|
                0 <= i < ts@.len() ==> (#[trigger] ts@[i]).output@ == paths::summary_path_spec(
                    cfg.summary_dir@,
                    cfg.summary_extension@,
                    inputs@[i]@,
                )
        },
        r is Ok <==> forall|i: int|
            0 <= i < inputs@.len() ==> paths::has_file_name(#[trigger] inputs@[i]@),
        r matches Err(e) ==> e == EngineError::InvalidPath,
{
    let mut ts: Vec<Task> = Vec::new();
    let mut i: usize = 0;
    while i < inputs.len()
        invariant
            i <= inputs@.len(),
            ts@.len() == i,
            forall|j: int| 0 <= j < i ==> (#[trigger] ts@[j]).input@ == inputs@[j]@,
            forall|j: int|
                0 <= j < i ==> (#[trigger] ts@[j]).output@ == paths::summary_path_spec(
                    cfg.summary_dir@,
                    cfg.summary_extension@,
                    inputs@[j]@,
                ),
            forall|j: int| 0 <= j < i ==> paths::has_file_name(#[trigger] inputs@[j]@),
        decreases inputs@.len() - i,
    {
        let input = inputs[i].clone();
        match cfg.summary_path(input.as_str()) {
            Ok(output) => {
                ts.push(Task { input, output });
            },
            Err(e) => {
                return Err(e);
            },
        }
        i = i + 1;
    }
    Ok(ts)
}

} // verus!
