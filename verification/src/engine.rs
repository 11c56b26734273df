//! The map and aggregation engines.
//!
//! The map stage runs a caller-supplied per-file summarization step over a
//! list of prepared tasks, either sequentially in input order or on a fixed
//! pool of worker threads.  The aggregation stage folds every prepared
//! summary reader into one accumulator, sequentially, then writes the
//! accumulator out once.  The engine never inspects row contents: it is
//! polymorphic over the reader handle type `In` and the writer handle type
//! `Out`, which only the strategy's hooks ever look inside.  Each task's
//! handles are owned by exactly one worker invocation, and the accumulator
//! by the aggregation pass alone.

use vstd::prelude::*;

verus! {

/// The caller-supplied strategy the engine is polymorphic over: a per-file
/// summarization step and the accumulator with its fold and write steps.
pub trait KRNSMovementOperator<In, Out> {
    /// The accumulator built by one aggregation run.
    type T;

    /// Summarizes one input file into its summary file.  Called exactly
    /// once per task; communicates only by writing to `output`.
    fn summarize_one_file(&self, input: &mut In, output: &mut Out);

    /// The zero value of the accumulator.
    fn create_out(&self) -> Self::T;

    /// Folds one summary file into the accumulator.  Aggregation is opt-in:
    /// by default nothing is accumulated.
    #[allow(unused_variables)]
    fn aggregate_one_summary(&self, input: &mut In, out: &mut Self::T) {
    }

    /// Writes the final accumulator.  Called exactly once per aggregation
    /// run, after every summary has been folded.  By default writes nothing.
    #[allow(unused_variables)]
    fn write_aggregate(&self, writer: &mut Out, out: &Self::T) {
    }
}

/// One prepared unit of map-stage work: the opened input reader and output
/// writer, ready to be handed to a worker.
#[verifier::reject_recursive_types(In)]
#[verifier::reject_recursive_types(Out)]
pub struct PreparedTask<In, Out> {
    /// The opened reader over the input file.
    pub input: In,
    /// The opened writer for the summary file.
    pub output: Out,
}

/// Relies on scoped_threadpool::Pool::new and Pool::scoped: a pool of
/// `threads` workers runs every queued closure to completion, and the
/// scoped call joins them all before it returns, so no worker outlives the
/// call.  Pool::new stops a pool of zero workers.
#[verifier::external_body]
fn run_on_pool<In, Out, O>(op: &O, threads: u32, tasks: Vec<PreparedTask<In, Out>>) where
    In: Send,
    Out: Send,
    O: KRNSMovementOperator<In, Out> + Sync,

    requires
        threads >= 1,
{
    let mut pool = scoped_threadpool::Pool::new(threads);
    pool.scoped(|scope| {
        for t in tasks {
            let PreparedTask { mut input, mut output } = t;
            scope.execute(move || op.summarize_one_file(&mut input, &mut output));
        }
    });
}

/// Runs the map stage over `tasks`.  Without a worker bound the tasks run
/// one at a time, in input order, on the calling thread; with a bound of
/// `n` workers they run on a fixed pool of `n` threads, and the call blocks
/// until every task has completed.  Either way each task's handles are
/// consumed by exactly one invocation of the summarization step.
pub fn run_map_stage<In, Out, O>(
    op: &O,
    worker_bound: Option<u32>,
    tasks: Vec<PreparedTask<In, Out>>,
) where
    In: Send,
    Out: Send,
    O: KRNSMovementOperator<In, Out> + Sync,

    requires
        worker_bound matches Some(n) ==> n >= 1,
{
    match worker_bound {
        Some(n) => {
            run_on_pool(op, n, tasks);
        },
        None => {
            let mut rest = tasks;
            while rest.len() > 0
                decreases rest@.len(),
            {
                let mut t = rest.remove(0);
                op.summarize_one_file(&mut t.input, &mut t.output);
            }
        },
    }
}

/// Folds every prepared summary reader into a fresh accumulator, in the
/// given order, sequentially, then writes the accumulator through `writer`
/// exactly once.  The accumulator is owned by this call alone for its whole
/// lifetime and is returned for the caller's inspection.
pub fn aggregate_prepared<In, Out, O>(
    op: &O,
    inputs: Vec<In>,
    writer: &mut Out,
) -> O::T where O: KRNSMovementOperator<In, Out> {
    let mut acc = op.create_out();
    let mut rest = inputs;
    while rest.len() > 0
        decreases rest@.len(),
    {
        let mut input = rest.remove(0);
        op.aggregate_one_summary(&mut input, &mut acc);
    }
    op.write_aggregate(writer, &acc);
    acc
}

} // verus!
