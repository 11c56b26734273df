//! The run configuration: where summaries live, how their files are named,
//! and how many map-stage workers may run at once.
//!
//! A configuration is built once by the caller and read-only for the life of
//! a run; the engine never mutates it.

use vstd::prelude::*;
use crate::errors::EngineError;
use crate::paths;

verus! {

/// The configuration of one map-then-reduce run.
pub struct Config {
    /// The directory that holds every summary file and the aggregate file.
    /// A relative path is resolved against the working directory of the
    /// process when the files are opened.
    pub summary_dir: String,
    /// The extension given to every summary file and to the aggregate file.
    pub summary_extension: String,
    /// The base name of the aggregate file.
    pub aggregate_basename: String,
    /// The number of map-stage worker threads; `None` runs the map stage
    /// sequentially on the calling thread.
    pub worker_bound: Option<u32>,
}

impl Config {
    /// The default configuration: summaries under `summaries/`, `tsv` files,
    /// an aggregate named `aggregated`, and a sequential map stage.
    pub fn with_defaults() -> (c: Config)
        ensures
            c.summary_dir@ == "summaries"@,
            c.summary_extension@ == "tsv"@,
            c.aggregate_basename@ == "aggregated"@,
            c.worker_bound is None,
    {
        Config {
            summary_dir: String::from_str("summaries"),
            summary_extension: String::from_str("tsv"),
            aggregate_basename: String::from_str("aggregated"),
            worker_bound: None,
        }
    }

    /// The summary path derived for `input`: the file name of `input` with
    /// its extension replaced, placed inside the summary directory.
    /// Trailing separators and `.` components of `input` are ignored; an
    /// input with no file name left — it is empty, ends at a separator run,
    /// or ends in a `..` component — has no summary location.
    pub fn summary_path(&self, input: &str) -> (r: Result<String, EngineError>)
        ensures
            r matches Ok(p) ==> p@ == paths::summary_path_spec(
                self.summary_dir@,
                self.summary_extension@,
                input@,
            ),
            r is Ok <==> paths::has_file_name(input@),
            r is Err ==> r == Err::<String, EngineError>(EngineError::InvalidPath),
    {
        let n = input.unicode_len();
        let k = paths::trim_end_from(input, n);
        let trimmed = input.substring_char(0, k);
        let b = paths::last_slash_end(trimmed);
        proof {
            assert(input@.subrange(0, n as int) =~= input@);
            paths::lemma_dir_prefix_len_bounds(trimmed@);
            assert(paths::file_name_of(input@) == trimmed@.subrange(b as int, k as int));
        }
        if b >= k {
            return Err(EngineError::InvalidPath);
        }
        if k - b == 2 && trimmed.get_char(b) == '.' && trimmed.get_char(b + 1) == '.' {
            proof {
                assert(paths::file_name_of(input@) =~= seq!['.', '.']);
            }
            return Err(EngineError::InvalidPath);
        }
        proof {
            if paths::file_name_of(input@) == seq!['.', '.'] {
                assert(trimmed@.subrange(b as int, k as int).len() == 2);
                assert(trimmed@.subrange(b as int, k as int)[0] == '.');
                assert(trimmed@.subrange(b as int, k as int)[1] == '.');
            }
        }
        let base = trimmed.substring_char(b, k);
        let st = paths::stem(base);
        let fname = paths::apply_extension(st, self.summary_extension.as_str());
        Ok(paths::join(self.summary_dir.as_str(), fname.as_str()))
    }

    /// The path of the aggregate artifact: the aggregate base name with the
    /// summary extension, placed inside the summary directory.
    pub fn aggregate_filename(&self) -> (r: String)
        ensures
            r@ == paths::aggregate_filename_spec(
                self.summary_dir@,
                self.aggregate_basename@,
                self.summary_extension@,
            ),
    {
        let st = paths::stem(self.aggregate_basename.as_str());
        let fname = paths::apply_extension(st, self.summary_extension.as_str());
        paths::join(self.summary_dir.as_str(), fname.as_str())
    }

    /// The glob pattern that matches every file in the summary directory
    /// carrying the summary extension.
    pub fn summary_glob_pattern(&self) -> (r: String)
        ensures
            r@ == paths::glob_pattern_spec(self.summary_dir@, self.summary_extension@),
    {
        proof {
            reveal_strlit("*");
        }
        let fname = paths::apply_extension("*", self.summary_extension.as_str());
        paths::join(self.summary_dir.as_str(), fname.as_str())
    }
}

} // verus!
