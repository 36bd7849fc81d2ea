//! The write path of the model that is not arithmetic: the append-only log of
//! labeled samples, how many update passes a training run makes, and when the
//! incremental policy asks for a run.

use vstd::prelude::*;

verus! {

/// Update passes of one training run, by default.
pub const DEFAULT_ITERATIONS: usize = 100;

/// The incremental policy trains after every this many samples.
pub const RETRAIN_EVERY: usize = 100;

/// Append-only, ordered log of every sample added to a model. Samples are
/// never removed, reordered or deduplicated.
#[derive(Clone, Debug)]
pub struct SampleLog<S> {
    samples: Vec<S>,
}

impl<S> View for SampleLog<S> {
    type V = Seq<S>;

    closed spec fn view(&self) -> Seq<S> {
        self.samples@
    }
}

/// The log that a run of appends builds from `start`.
pub open spec fn appended<S>(start: Seq<S>, batches: Seq<Seq<S>>) -> Seq<S>
    decreases batches.len(),
{
    if batches.len() == 0 {
        start
    } else {
        appended(start, batches.drop_last()) + batches.last()
    }
}

/// Sum of the lengths of the batches.
pub open spec fn total_len<S>(batches: Seq<Seq<S>>) -> nat
    decreases batches.len(),
{
    if batches.len() == 0 {
        0
    } else {
        total_len(batches.drop_last()) + batches.last().len()
    }
}

impl<S> SampleLog<S> {
    pub fn new() -> (r: SampleLog<S>)
        ensures
            r@ == Seq::<S>::empty(),
    {
        SampleLog { samples: Vec::new() }
    }

    /// Number of samples held.
    pub fn len(&self) -> (r: usize)
        ensures
            r == self@.len(),
    {
        self.samples.len()
    }

    pub fn is_empty(&self) -> (r: bool)
        ensures
            r == (self@.len() == 0),
    {
        self.samples.len() == 0
    }

    /// The sample at position `i`, in order of addition.
    pub fn get(&self, i: usize) -> (r: &S)
        requires
            i < self@.len(),
        ensures
            *r == self@[i as int],
    {
        &self.samples[i]
    }

    /// All samples, in order of addition.
    pub fn as_slice(&self) -> (r: &[S])
        ensures
            r@ == self@,
    {
        self.samples.as_slice()
    }

    /// Adds one sample at the end.
    pub fn add_sample(&mut self, sample: S)
        ensures
            final(self)@ == old(self)@.push(sample),
    {
        self.samples.push(sample);
    }

    /// Adds a batch of samples at the end, keeping their order.
    pub fn add_samples(&mut self, samples: Vec<S>)
        ensures
            final(self)@ == old(self)@ + samples@,
    {
        let mut batch = samples;
        self.samples.append(&mut batch);
    }
}

/// Number of update passes that a training run makes over `n_samples`
/// samples: none when there is nothing to learn from, else `n_iterations`.
pub fn training_passes(n_samples: usize, n_iterations: usize) -> (r: usize)
    ensures
        n_samples == 0 ==> r == 0,
        n_samples > 0 ==> r == n_iterations,
{
    if n_samples == 0 {
        0
    } else {
        n_iterations
    }
}

/// Whether the incremental policy trains once the log holds `n_samples`
/// samples: at every whole multiple of the retraining interval.
pub fn retrain_due(n_samples: usize) -> (r: bool)
    ensures
        r == (n_samples % RETRAIN_EVERY == 0),
{
    n_samples % RETRAIN_EVERY == 0
}

/// A run of appends keeps every sample: after adding the batches one after
/// another, the log holds the start followed by each batch in turn, and its
/// length is the start's length plus the sizes of all batches.
pub proof fn lemma_appends_keep_count<S>(start: Seq<S>, batches: Seq<Seq<S>>)
    ensures
        appended(start, batches).len() == start.len() + total_len(batches),
        appended(start, batches).subrange(0, start.len() as int) == start,
    decreases batches.len(),
{
    if batches.len() > 0 {
        lemma_appends_keep_count(start, batches.drop_last());
        let before = appended(start, batches.drop_last());
        assert((before + batches.last()).subrange(0, start.len() as int)
            =~= before.subrange(0, start.len() as int));
    }
}

/// One more batch extends the run: appending `batch` to the log built by
/// `batches` gives the log built by `batches` followed by `batch`.
pub proof fn lemma_append_batch<S>(start: Seq<S>, batches: Seq<Seq<S>>, batch: Seq<S>)
    ensures
        appended(start, batches) + batch == appended(start, batches.push(batch)),
        total_len(batches.push(batch)) == total_len(batches) + batch.len(),
{
    assert(batches.push(batch).drop_last() =~= batches);
}

} // verus!
