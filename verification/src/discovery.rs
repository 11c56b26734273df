//! Discovery of the summary files to aggregate.
//!
//! The summary directory is enumerated through a glob pattern, and the path
//! of the aggregate artifact is dropped from the result, so that a rerun of
//! the aggregation pass never folds its own prior output back in.  Result
//! order is whatever the filesystem enumeration yields.

use vstd::prelude::*;
use crate::config::Config;
use crate::errors::EngineError;
use crate::paths;

verus! {

/// `found` with every entry equal to `agg` dropped, the order of the rest
/// kept.
pub open spec fn excluded(found: Seq<Seq<char>>, agg: Seq<char>) -> Seq<Seq<char>>
    decreases found.len(),
{
    if found.len() == 0 {
        Seq::empty()
    } else {
        let rest = excluded(found.drop_last(), agg);
        if found.last() == agg {
            rest
        } else {
            rest.push(found.last())
        }
    }
}

/// Whatever the filesystem holds, a discovery result never contains the
/// path it was told to exclude.
pub proof fn lemma_excluded_omits_aggregate(found: Seq<Seq<char>>, agg: Seq<char>)
    ensures
        !excluded(found, agg).contains(agg),
        forall|i: int| 0 <= i < excluded(found, agg).len() ==> excluded(found, agg)[i] != agg,
    decreases found.len(),
{
    if found.len() > 0 {
        lemma_excluded_omits_aggregate(found.drop_last(), agg);
    }
}

/// Every entry of `excluded(found, agg)` is an entry of `found`.
pub proof fn lemma_excluded_is_subset(found: Seq<Seq<char>>, agg: Seq<char>)
    ensures
        forall|i: int| 0 <= i < excluded(found, agg).len() ==> found.contains(
            #[trigger] excluded(found, agg)[i],
        ),
    decreases found.len(),
{
    if found.len() > 0 {
        lemma_excluded_is_subset(found.drop_last(), agg);
        assert forall|i: int| 0 <= i < excluded(found, agg).len() implies found.contains(
            #[trigger] excluded(found, agg)[i],
        ) by {
            let e = excluded(found, agg)[i];
            if found.last() != agg && i == excluded(found, agg).len() - 1 {
                assert(e == found[found.len() - 1]);
            } else {
                assert(excluded(found.drop_last(), agg).contains(e));
                let j = choose|j: int|
                    0 <= j < found.drop_last().len() && found.drop_last()[j] == e;
                assert(e == found[j]);
            }
        }
    }
}

/// Every entry of `found` other than `agg` survives into the result.
pub proof fn lemma_excluded_keeps_others(found: Seq<Seq<char>>, agg: Seq<char>)
    ensures
        forall|i: int|
            0 <= i < found.len() && found[i] != agg ==> excluded(found, agg).contains(
                #[trigger] found[i],
            ),
    decreases found.len(),
{
    if found.len() > 0 {
        lemma_excluded_keeps_others(found.drop_last(), agg);
        assert forall|i: int|
            0 <= i < found.len() && found[i] != agg implies excluded(found, agg).contains(
            #[trigger] found[i],
        ) by {
            let r = excluded(found, agg);
            let rest = excluded(found.drop_last(), agg);
            if i == found.len() - 1 {
                assert(r[r.len() - 1] == found[i]);
            } else {
                assert(found.drop_last()[i] == found[i]);
                assert(rest.contains(found[i]));
                let j = choose|j: int| 0 <= j < rest.len() && rest[j] == found[i];
                assert(r[j] == found[i]);
            }
        }
    }
}

/// Relies on glob::glob: evaluates a shell-style glob pattern against the
/// filesystem and yields every matching path.  A malformed pattern or an
/// unreadable entry is reported as a glob failure.
#[verifier::external_body]
fn glob_paths(pat: &str) -> (r: Result<Vec<String>, EngineError>)
    ensures
        r matches Err(e) ==> e == EngineError::GlobFailed,
{
    match glob::glob(pat) {
        Err(_) => Err(EngineError::GlobFailed),
        Ok(entries) => {
            let mut out: Vec<String> = Vec::new();
            for entry in entries {
                match entry {
                    Ok(p) => out.push(p.to_string_lossy().into_owned()),
                    Err(_) => return Err(EngineError::GlobFailed),
                }
            }
            Ok(out)
        },
    }
}

/// `found` with every entry equal to `agg` dropped, the order of the rest
/// kept.
pub fn exclude_aggregate(found: &Vec<String>, agg: &String) -> (r: Vec<String>)
    ensures
        r@.map_values(|p: String| p@) == excluded(found@.map_values(|p: String| p@), agg@),
{
    let ghost fv = found@.map_values(|p: String| p@);
    let mut out: Vec<String> = Vec::new();
    let mut i: usize = 0;
    while i < found.len()
        invariant
            i <= found@.len(),
            fv == found@.map_values(|p: String| p@),
            out@.map_values(|p: String| p@) == excluded(fv.subrange(0, i as int), agg@),
        decreases found@.len() - i,
    {
        proof {
            let p = fv.subrange(0, i + 1);
            assert(p.drop_last() =~= fv.subrange(0, i as int));
            assert(p.last() == fv[i as int]);
        }
        let keep = !found[i].eq(agg);
        if keep {
            let entry = found[i].clone();
            out.push(entry);
            proof {
                assert(out@.map_values(|p: String| p@) =~= out@.drop_last().map_values(
                    |p: String| p@,
                ).push(out@.last()@));
            }
        }
        i = i + 1;
    }
    proof {
        assert(fv.subrange(0, found@.len() as int) =~= fv);
    }
    out
}

/// The list of summary files to aggregate: every path matching the summary
/// glob pattern of `cfg`, except the aggregate file itself.  Fails only when
/// the glob pattern cannot be evaluated.
pub fn summary_files(cfg: &Config) -> (r: Result<Vec<String>, EngineError>)
    ensures
        r matches Ok(files) ==> forall|i: int|
            0 <= i < files@.len() ==> files@[i]@ != paths::aggregate_filename_spec(
                cfg.summary_dir@,
                cfg.aggregate_basename@,
                cfg.summary_extension@,
            ),
        r matches Err(e) ==> e == EngineError::GlobFailed,
{
    let pat = cfg.summary_glob_pattern();
    match glob_paths(pat.as_str()) {
        Err(e) => Err(e),
        Ok(found) => {
            let agg = cfg.aggregate_filename();
            let out = exclude_aggregate(&found, &agg);
            proof {
                let fv = found@.map_values(|p: String| p@);
                lemma_excluded_omits_aggregate(fv, agg@);
                assert(forall|i: int|
                    0 <= i < out@.len() ==> out@.map_values(|p: String| p@)[i] == out@[i]@);
            }
            Ok(out)
        },
    }
}

} // verus!
