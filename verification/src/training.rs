//! The schedule of a training run.
//!
//! A run goes through the dataset once per epoch, in batches that are drawn
//! afresh for every epoch.  It does no arithmetic itself: it tells its caller
//! what to do next, one action at a time, and the caller may stop between any
//! two of them.

use crate::batcher::{
    batch_count, contents, is_batching, lemma_batches_exist, lemma_batching_covers_once,
    shuffle_and_batch,
};
use crate::optimizers::BackwardStep;
use vstd::prelude::*;

verus! {

/// What the caller of a training run has to do next.
#[derive(Clone, Copy, Debug, PartialEq, Eq, Structural)]
pub enum Action {
    /// Run the forward pass on the sample with this index and keep what it
    /// caches, behind what was kept for the samples before it.
    Forward { sample: usize },
    /// A batch is complete.  Report the loss of what was kept, take the
    /// steps of the backward pass for each sample that was kept, average the
    /// gradients, move every layer's weights and bias against them, and
    /// drop what was kept.
    Update,
    /// The last epoch is over: nothing is left to do.
    Finish,
}

/// A training run under way.
#[derive(Debug)]
pub struct TrainingRun {
    plan: Vec<BackwardStep>,
    dataset_len: usize,
    batch_size: usize,
    epochs_left: usize,
    batches: Vec<Vec<usize>>,
    batch: usize,
    place: usize,
}

impl TrainingRun {
    /// The steps of the backward pass of the model under training.
    pub closed spec fn spec_plan(&self) -> Seq<BackwardStep> {
        self.plan@
    }

    /// The number of samples of the dataset.
    pub closed spec fn dataset_len(&self) -> nat {
        self.dataset_len as nat
    }

    /// The number of samples of a full batch.
    pub closed spec fn batch_size(&self) -> nat {
        self.batch_size as nat
    }

    /// The number of epochs that are not over, the current one included.
    pub closed spec fn epochs_left(&self) -> nat {
        self.epochs_left as nat
    }

    /// The batches of the current epoch.
    pub closed spec fn batches(&self) -> Seq<Seq<usize>> {
        contents(self.batches@)
    }

    /// The index of the current batch.
    pub closed spec fn batch(&self) -> nat {
        self.batch as nat
    }

    /// How many samples of the current batch have been handed out.
    pub closed spec fn place(&self) -> nat {
        self.place as nat
    }

    /// There is a sample and room for one in a batch; and while an epoch is
    /// under way its batches hold every sample once, and the run stands
    /// inside one of them or at its end.
    pub open spec fn wf(&self) -> bool {
        &&& self.dataset_len() > 0
        &&& self.batch_size() > 0
        &&& self.epochs_left() > 0 ==> {
            &&& is_batching(self.batches(), self.dataset_len(), self.batch_size())
            &&& self.batch() < self.batches().len()
            &&& self.place() <= self.batches()[self.batch() as int].len()
        }
    }

    /// Whether the current batch has been handed out to its last sample.
    pub open spec fn batch_is_complete(&self) -> bool {
        self.place() == self.batches()[self.batch() as int].len()
    }

    /// A run of `epochs` epochs over `dataset_len` samples, at the start of
    /// its first epoch.
    pub(crate) fn start(
        plan: Vec<BackwardStep>,
        dataset_len: usize,
        batch_size: usize,
        epochs: usize,
    ) -> (run: TrainingRun)
        requires
            dataset_len > 0,
            batch_size > 0,
        ensures
            run.wf(),
            run.spec_plan() == plan@,
            run.dataset_len() == dataset_len,
            run.batch_size() == batch_size,
            run.epochs_left() == epochs,
            run.batch() == 0,
            run.place() == 0,
    {
        let batches = if epochs > 0 {
            shuffle_and_batch(dataset_len, batch_size)
        } else {
            Vec::new()
        };
        proof {
            if epochs > 0 {
                lemma_batching_covers_once(
                    contents(batches@),
                    dataset_len as nat,
                    batch_size as nat,
                );
                lemma_batches_exist(dataset_len as nat, batch_size as nat);
            }
        }
        TrainingRun { plan, dataset_len, batch_size, epochs_left: epochs, batches, batch: 0, place: 0 }
    }

    /// The steps of the backward pass, to be taken for every sample of a
    /// batch when the batch is complete.
    pub fn plan(&self) -> (plan: &Vec<BackwardStep>)
        ensures
            plan@ == self.spec_plan(),
    {
        &self.plan
    }

    /// The number of epochs that are not over, the current one included.
    pub fn remaining_epochs(&self) -> (epochs: usize)
        ensures
            epochs == self.epochs_left(),
    {
        self.epochs_left
    }

    /// What is to be done next; the run moves on by one action.
    ///
    /// While the current batch has a sample that was not handed out, that
    /// sample is to be run forward.  When the batch is complete the update
    /// is due, and the run moves to the start of the next batch; after the
    /// last batch of an epoch the epoch is over, and where another epoch
    /// follows, its batches are drawn afresh.  After the last epoch nothing
    /// is left to do, however often the run is asked.
    pub fn next_action(&mut self) -> (action: Action)
        requires
            old(self).wf(),
        ensures
            final(self).wf(),
            final(self).spec_plan() == old(self).spec_plan(),
            final(self).dataset_len() == old(self).dataset_len(),
            final(self).batch_size() == old(self).batch_size(),
            match action {
                Action::Finish => {
                    &&& old(self).epochs_left() == 0
                    &&& final(self).epochs_left() == 0
                },
                Action::Forward { sample } => {
                    &&& old(self).epochs_left() > 0
                    &&& !old(self).batch_is_complete()
                    &&& sample == old(self).batches()[old(self).batch() as int][old(
                        self,
                    ).place() as int]
                    &&& final(self).epochs_left() == old(self).epochs_left()
                    &&& final(self).batches() == old(self).batches()
                    &&& final(self).batch() == old(self).batch()
                    &&& final(self).place() == old(self).place() + 1
                },
                Action::Update => {
                    &&& old(self).epochs_left() > 0
                    &&& old(self).batch_is_complete()
                    &&& final(self).place() == 0
                    &&& if old(self).batch() + 1 < old(self).batches().len() {
                        &&& final(self).epochs_left() == old(self).epochs_left()
                        &&& final(self).batches() == old(self).batches()
                        &&& final(self).batch() == old(self).batch() + 1
                    } else {
                        &&& final(self).epochs_left() == old(self).epochs_left() - 1
                        &&& final(self).batch() == 0
                    }
                },
            },
    {
        if self.epochs_left == 0 {
            return Action::Finish;
        }
        if self.place < self.batches[self.batch].len() {
            let sample = self.batches[self.batch][self.place];
            self.place += 1;
            return Action::Forward { sample };
        }
        assert(self.batch < self.batches.len());
        self.place = 0;
        if self.batch + 1 < self.batches.len() {
            self.batch += 1;
        } else {
            self.batch = 0;
            self.epochs_left -= 1;
            if self.epochs_left > 0 {
                self.batches = shuffle_and_batch(self.dataset_len, self.batch_size);
                proof {
                    lemma_batching_covers_once(
                        contents(self.batches@),
                        self.dataset_len as nat,
                        self.batch_size as nat,
                    );
                    lemma_batches_exist(self.dataset_len as nat, self.batch_size as nat);
                }
            }
        }
        Action::Update
    }
}

/// Every epoch of a run hands out each sample once: while an epoch is under
/// way, each index below the number of samples stands at exactly one place of
/// its batches, no batch is empty, and every batch but the last is full.
pub proof fn lemma_epoch_visits_each_sample_once(run: &TrainingRun)
    requires
        run.wf(),
        run.epochs_left() > 0,
    ensures
        is_batching(run.batches(), run.dataset_len(), run.batch_size()),
        run.batches().len() == batch_count(run.dataset_len(), run.batch_size()),
        run.batches().len() > 0,
{
    lemma_batching_covers_once(run.batches(), run.dataset_len(), run.batch_size());
    lemma_batches_exist(run.dataset_len(), run.batch_size());
}

} // verus!
