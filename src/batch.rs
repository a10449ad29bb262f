//! The batch: configuration checks, the scheduler that bounds how many
//! images are in flight and gathers one outcome per image, and the summary.
use vstd::prelude::*;
use crate::naming::{digit_width, is_digit_width};
use crate::worker::{DownloadOutcome, ResolvedImageRef, WorkerConfig};

verus! {

/// Why a batch cannot start.
#[derive(Debug, Clone, Copy, PartialEq, Eq, Structural)]
pub enum ConfigError {
    /// The page has no image URL.
    EmptyBatch,
    /// The concurrency limit is zero.
    ZeroCapacity,
    /// The number of fetch attempts is zero.
    ZeroRetries,
}

/// The knobs of a batch.
#[derive(Debug, Clone, Copy, PartialEq, Eq, Structural)]
pub struct BatchConfig {
    /// How many images may be fetched or written at once.
    pub capacity: usize,
    /// Fetch attempts per image.
    pub retries: u32,
    /// The least acceptable payload size in bytes.
    pub min_size: usize,
}

impl BatchConfig {
    /// Three images at once, three attempts each, payloads of at least 1 KiB.
    pub fn standard() -> (r: BatchConfig)
        ensures
            r.capacity == 3,
            r.retries == 3,
            r.min_size == 1024,
    {
        BatchConfig { capacity: 3, retries: 3, min_size: 1024 }
    }
}

/// The error, if any, that keeps a batch of `n` URLs under `cfg` from
/// starting.
pub open spec fn config_error_of(n: nat, cfg: BatchConfig) -> Option<ConfigError> {
    if n == 0 {
        Some(ConfigError::EmptyBatch)
    } else if cfg.capacity == 0 {
        Some(ConfigError::ZeroCapacity)
    } else if cfg.retries == 0 {
        Some(ConfigError::ZeroRetries)
    } else {
        None
    }
}

/// Where one image of the batch stands.
#[derive(Debug)]
pub enum Slot {
    /// Not started: it holds no permit.
    Waiting,
    /// Started: it holds a permit while it fetches or writes.
    Running,
    /// Finished with `outcome`; its permit is back.
    Finished { outcome: DownloadOutcome },
}

/// The number of running images in `s`.
pub open spec fn running_count(s: Seq<Slot>) -> nat
    decreases s.len(),
{
    if s.len() == 0 {
        0
    } else {
        running_count(s.drop_last()) + if s.last() is Running {
            1nat
        } else {
            0nat
        }
    }
}

proof fn lemma_running_count_update(s: Seq<Slot>, i: int, v: Slot)
    requires
        0 <= i < s.len(),
    ensures
        running_count(s.update(i, v)) as int == running_count(s) as int - (if s[i] is Running {
            1int
        } else {
            0int
        }) + (if v is Running {
            1int
        } else {
            0int
        }),
    decreases s.len(),
{
    let t = s.update(i, v);
    if i == s.len() - 1 {
        assert(t.drop_last() =~= s.drop_last());
    } else {
        lemma_running_count_update(s.drop_last(), i, v);
        assert(t.drop_last() =~= s.drop_last().update(i, v));
    }
}

proof fn lemma_running_count_zero(s: Seq<Slot>)
    requires
        running_count(s) == 0,
    ensures
        forall|i: int| 0 <= i < s.len() ==> !(s[i] is Running),
    decreases s.len(),
{
    if s.len() > 0 {
        lemma_running_count_zero(s.drop_last());
        assert forall|i: int| 0 <= i < s.len() implies !(s[i] is Running) by {
            if i < s.len() - 1 {
                assert(s[i] == s.drop_last()[i]);
            }
        }
    }
}

/// Admits the images of a batch in order, never more than `capacity` at
/// once, and keeps the outcome of each.
#[derive(Debug)]
pub struct Scheduler {
    capacity: usize,
    next: usize,
    active: usize,
    slots: Vec<Slot>,
}

impl Scheduler {
    /// The most images that may run at once.
    pub closed spec fn capacity(&self) -> nat {
        self.capacity as nat
    }

    /// The image that is admitted next.
    pub closed spec fn next(&self) -> nat {
        self.next as nat
    }

    /// Where each image stands.
    pub closed spec fn slots(&self) -> Seq<Slot> {
        self.slots@
    }

    /// The scheduler's invariant: images are admitted in order, and no more
    /// than `capacity` run at once.
    pub closed spec fn wf(&self) -> bool {
        &&& 1 <= self.capacity
        &&& self.next <= self.slots@.len()
        &&& self.active == running_count(self.slots@)
        &&& self.active <= self.capacity
        &&& forall|i: int| 0 <= i < self.next ==> !(#[trigger] self.slots@[i] is Waiting)
        &&& forall|i: int| self.next <= i < self.slots@.len() ==> #[trigger] self.slots@[i] is Waiting
    }

    /// A scheduler for `n` images, none started.
    pub fn new(n: usize, capacity: usize) -> (r: Scheduler)
        requires
            capacity >= 1,
        ensures
            r.wf(),
            r.capacity() == capacity,
            r.next() == 0,
            r.slots().len() == n,
            forall|i: int| 0 <= i < n ==> #[trigger] r.slots()[i] is Waiting,
    {
        let mut slots: Vec<Slot> = Vec::new();
        let mut k: usize = 0;
        while k < n
            invariant
                k <= n,
                slots@.len() == k,
                forall|i: int| 0 <= i < k ==> #[trigger] slots@[i] is Waiting,
                running_count(slots@) == 0,
            decreases n - k,
        {
            let ghost prev = slots@;
            slots.push(Slot::Waiting);
            assert(slots@.drop_last() =~= prev);
            k = k + 1;
        }
        Scheduler { capacity, next: 0, active: 0, slots }
    }

    /// The number of images that run now.
    pub closed spec fn running(&self) -> nat {
        running_count(self.slots@)
    }

    /// Starts the next image if a permit is free and one is waiting, and
    /// says which; else changes nothing.
    pub fn start_next(&mut self) -> (r: Option<usize>)
        requires
            old(self).wf(),
        ensures
            final(self).wf(),
            final(self).capacity() == old(self).capacity(),
            final(self).slots().len() == old(self).slots().len(),
            old(self).running() < old(self).capacity() && old(self).next() < old(self).slots().len()
                ==> {
                &&& r == Some(old(self).next() as usize)
                &&& final(self).next() == old(self).next() + 1
                &&& final(self).slots() == old(self).slots().update(
                    old(self).next() as int,
                    Slot::Running,
                )
                &&& final(self).running() == old(self).running() + 1
            },
            !(old(self).running() < old(self).capacity() && old(self).next() < old(self).slots().len())
                ==> r is None && *final(self) == *old(self),
    {
        if self.active < self.capacity && self.next < self.slots.len() {
            let i = self.next;
            proof {
                lemma_running_count_update(self.slots@, i as int, Slot::Running);
            }
            self.slots.set(i, Slot::Running);
            self.next = i + 1;
            self.active = self.active + 1;
            assert(forall|j: int| 0 <= j < self.next ==> !(#[trigger] self.slots@[j] is Waiting));
            Some(i)
        } else {
            None
        }
    }

    /// Image `i` finished with `outcome`: its permit is back, and no other
    /// image's slot changes.
    pub fn complete(&mut self, i: usize, outcome: DownloadOutcome)
        requires
            old(self).wf(),
            i < old(self).slots().len(),
            old(self).slots()[i as int] is Running,
        ensures
            final(self).wf(),
            final(self).capacity() == old(self).capacity(),
            final(self).next() == old(self).next(),
            final(self).slots().len() == old(self).slots().len(),
            final(self).slots() == old(self).slots().update(i as int, Slot::Finished { outcome }),
            final(self).running() + 1 == old(self).running(),
    {
        proof {
            lemma_running_count_update(self.slots@, i as int, Slot::Finished { outcome });
        }
        self.slots.set(i, Slot::Finished { outcome });
        self.active = self.active - 1;
        assert(forall|j: int| 0 <= j < self.next ==> !(#[trigger] self.slots@[j] is Waiting));
    }

    /// Whether image `i` is running, so that it may be completed.
    pub fn is_running(&self, i: usize) -> (r: bool)
        ensures
            r == (i < self.slots().len() && self.slots()[i as int] is Running),
    {
        i < self.slots.len() && match self.slots[i] {
            Slot::Running => true,
            _ => false,
        }
    }

    /// Whether every image has finished.
    pub fn is_finished(&self) -> (r: bool)
        requires
            self.wf(),
        ensures
            r == forall|i: int| 0 <= i < self.slots().len() ==> #[trigger] self.slots()[i] is Finished,
    {
        let r = self.next == self.slots.len() && self.active == 0;
        if r {
            proof {
                lemma_running_count_zero(self.slots@);
            }
        } else if self.next < self.slots.len() {
            assert(!(self.slots@[self.next as int] is Finished));
        } else {
            assert(running_count(self.slots@) > 0);
            assert(exists|i: int| 0 <= i < self.slots@.len() && self.slots@[i] is Running) by {
                lemma_running_positive(self.slots@);
            }
        }
        r
    }

    /// The outcomes of a finished batch, one per image, in image order.
    pub fn into_outcomes(self) -> (r: Vec<DownloadOutcome>)
        requires
            self.wf(),
            forall|i: int| 0 <= i < self.slots().len() ==> #[trigger] self.slots()[i] is Finished,
        ensures
            r@ == outcomes_of(self.slots()),
    {
        let ghost orig = self.slots@;
        assert forall|i: int| 0 <= i < orig.len() implies #[trigger] orig[i] is Finished by {
            assert(self.slots()[i] is Finished);
        }
        let n = self.slots.len();
        let mut slots = self.slots;
        let mut rev: Vec<DownloadOutcome> = Vec::new();
        while slots.len() > 0
            invariant
                n == orig.len(),
                slots@ == orig.subrange(0, slots@.len() as int),
                rev@.len() + slots@.len() == n,
                forall|i: int| 0 <= i < orig.len() ==> #[trigger] orig[i] is Finished,
                forall|j: int| 0 <= j < rev@.len() ==> rev@[j] == #[trigger] orig[n - 1 - j]->Finished_outcome,
            decreases slots.len(),
        {
            let ghost k = slots@.len() - 1;
            assert(slots@[k] == orig[k]);
            match slots.pop() {
                Some(Slot::Finished { outcome }) => rev.push(outcome),
                _ => {},
            }
            assert(slots@ =~= orig.subrange(0, slots@.len() as int));
        }
        let mut r: Vec<DownloadOutcome> = Vec::new();
        while rev.len() > 0
            invariant
                n == orig.len(),
                r@.len() + rev@.len() == n,
                forall|j: int| 0 <= j < rev@.len() ==> rev@[j] == #[trigger] orig[n - 1 - j]->Finished_outcome,
                forall|i: int| 0 <= i < r@.len() ==> r@[i] == #[trigger] orig[i]->Finished_outcome,
            decreases rev.len(),
        {
            let ghost k = rev@.len() - 1;
            let ghost want = rev@[k];
            match rev.pop() {
                Some(o) => r.push(o),
                None => {},
            }
            assert(r@.last() == want);
        }
        assert(r@ =~= outcomes_of(orig));
        r
    }
}

/// The outcomes held by finished slots, in slot order.
pub open spec fn outcomes_of(slots: Seq<Slot>) -> Seq<DownloadOutcome> {
    slots.map_values(|s: Slot| s->Finished_outcome)
}

/// A batch yields exactly one outcome per ref: when the scheduler has one
/// slot per ref (as `prepare_batch` makes it, and as starts and completions
/// keep it), the outcomes of the finished batch are as many as the refs, and
/// the outcome at position `i` is the one recorded for ref `i`.
pub proof fn lemma_one_outcome_per_ref(refs: Seq<ResolvedImageRef>, s: &Scheduler)
    requires
        s.wf(),
        s.slots().len() == refs.len(),
        forall|i: int| 0 <= i < s.slots().len() ==> #[trigger] s.slots()[i] is Finished,
    ensures
        outcomes_of(s.slots()).len() == refs.len(),
        forall|i: int|
            0 <= i < refs.len() ==> s.slots()[i] == (Slot::Finished {
                outcome: #[trigger] outcomes_of(s.slots())[i],
            }),
{
}

/// A batch never gets stuck: while some image has not finished, either the
/// next image can start or some image is running and can be completed. Each
/// start and each completion moves one slot forward, from waiting to running
/// to finished, so a driver that completes every running image reaches the
/// state in which `into_outcomes` gives one outcome per ref.
pub proof fn lemma_batch_progress(s: &Scheduler)
    requires
        s.wf(),
        exists|i: int| 0 <= i < s.slots().len() && !(#[trigger] s.slots()[i] is Finished),
    ensures
        (s.running() < s.capacity() && s.next() < s.slots().len()) || s.running() > 0,
{
    if s.running() == 0 {
        lemma_running_count_zero(s.slots@);
        let i = choose|i: int| 0 <= i < s.slots().len() && !(#[trigger] s.slots()[i] is Finished);
        assert(!(s.slots@[i] is Running));
        assert(s.slots@[i] is Waiting);
    }
}

proof fn lemma_running_positive(s: Seq<Slot>)
    requires
        running_count(s) > 0,
    ensures
        exists|i: int| 0 <= i < s.len() && s[i] is Running,
    decreases s.len(),
{
    if s.last() is Running {
        assert(s[s.len() - 1] is Running);
    } else {
        lemma_running_positive(s.drop_last());
        let i = choose|i: int| 0 <= i < s.drop_last().len() && s.drop_last()[i] is Running;
        assert(s[i] is Running);
    }
}

/// However the driver interleaves admissions and completions, no more
/// images run at once than the scheduler's capacity.
pub proof fn lemma_running_within_capacity(s: &Scheduler)
    requires
        s.wf(),
    ensures
        s.running() <= s.capacity(),
{
}


/// The number of saved images among `s`.
pub open spec fn count_saved(s: Seq<DownloadOutcome>) -> nat
    decreases s.len(),
{
    if s.len() == 0 {
        0
    } else {
        count_saved(s.drop_last()) + if s.last() is Saved {
            1nat
        } else {
            0nat
        }
    }
}

/// The number of skipped images among `s`.
pub open spec fn count_skipped(s: Seq<DownloadOutcome>) -> nat
    decreases s.len(),
{
    if s.len() == 0 {
        0
    } else {
        count_skipped(s.drop_last()) + if s.last() is Skipped {
            1nat
        } else {
            0nat
        }
    }
}

/// The number of failed images among `s`.
pub open spec fn count_failed(s: Seq<DownloadOutcome>) -> nat
    decreases s.len(),
{
    if s.len() == 0 {
        0
    } else {
        count_failed(s.drop_last()) + if s.last() is Failed {
            1nat
        } else {
            0nat
        }
    }
}

/// The counts reported for a batch.
#[derive(Debug, Clone, Copy, PartialEq, Eq, Structural)]
pub struct BatchSummary {
    pub total: usize,
    pub saved: usize,
    pub skipped: usize,
    pub failed: usize,
}

/// Every outcome is saved, skipped or failed: the three counts add up to
/// the number of outcomes.
pub proof fn lemma_counts_partition(s: Seq<DownloadOutcome>)
    ensures
        count_saved(s) + count_skipped(s) + count_failed(s) == s.len(),
    decreases s.len(),
{
    if s.len() > 0 {
        lemma_counts_partition(s.drop_last());
    }
}

/// Counts the outcomes of a batch by kind.
pub fn summarize(outcomes: &Vec<DownloadOutcome>) -> (r: BatchSummary)
    ensures
        r.total == outcomes@.len(),
        r.saved == count_saved(outcomes@),
        r.skipped == count_skipped(outcomes@),
        r.failed == count_failed(outcomes@),
{
    let mut saved: usize = 0;
    let mut skipped: usize = 0;
    let mut failed: usize = 0;
    let mut k: usize = 0;
    while k < outcomes.len()
        invariant
            k <= outcomes@.len(),
            saved == count_saved(outcomes@.subrange(0, k as int)),
            skipped == count_skipped(outcomes@.subrange(0, k as int)),
            failed == count_failed(outcomes@.subrange(0, k as int)),
        decreases outcomes.len() - k,
    {
        proof {
            assert(outcomes@.subrange(0, k + 1).drop_last() =~= outcomes@.subrange(0, k as int));
            lemma_counts_partition(outcomes@.subrange(0, k as int));
        }
        match &outcomes[k] {
            DownloadOutcome::Saved { .. } => saved = saved + 1,
            DownloadOutcome::Skipped { .. } => skipped = skipped + 1,
            DownloadOutcome::Failed { .. } => failed = failed + 1,
        }
        k = k + 1;
    }
    assert(outcomes@.subrange(0, outcomes@.len() as int) =~= outcomes@);
    BatchSummary { total: outcomes.len(), saved, skipped, failed }
}

/// Checks that a batch of `n` URLs can start under `cfg`.
pub fn check_config(n: usize, cfg: &BatchConfig) -> (r: Result<(), ConfigError>)
    ensures
        r is Ok <==> config_error_of(n as nat, *cfg) is None,
        r is Err ==> Some(r->Err_0) == config_error_of(n as nat, *cfg),
{
    if n == 0 {
        Err(ConfigError::EmptyBatch)
    } else if cfg.capacity == 0 {
        Err(ConfigError::ZeroCapacity)
    } else if cfg.retries == 0 {
        Err(ConfigError::ZeroRetries)
    } else {
        Ok(())
    }
}

/// Everything a driver needs to run a batch.
#[derive(Debug)]
pub struct BatchPlan {
    /// One ref per URL, numbered in page order.
    pub refs: Vec<ResolvedImageRef>,
    /// What the workers share.
    pub worker: WorkerConfig,
    /// The scheduler, with one waiting slot per ref.
    pub scheduler: Scheduler,
}

/// Numbers the URLs in page order, fixes the digit width from their count,
/// and makes a scheduler with `cfg.capacity` permits; fails, before any
/// work, when the configuration is unusable.
pub fn prepare_batch(urls: &Vec<String>, cfg: &BatchConfig, dir: String) -> (r: Result<
    BatchPlan,
    ConfigError,
>)
    ensures
        r is Err <==> config_error_of(urls@.len(), *cfg) is Some,
        r is Err ==> Some(r->Err_0) == config_error_of(urls@.len(), *cfg),
        r is Ok ==> {
            let p = r->Ok_0;
            &&& p.refs@.len() == urls@.len()
            &&& forall|i: int|
                0 <= i < urls@.len() ==> #[trigger] p.refs@[i].index == i && p.refs@[i].url
                    == urls@[i]
            &&& p.worker.retries == cfg.retries
            &&& p.worker.min_size == cfg.min_size
            &&& is_digit_width(urls@.len(), p.worker.width as nat)
            &&& p.worker.dir == dir
            &&& p.scheduler.wf()
            &&& p.scheduler.capacity() == cfg.capacity
            &&& p.scheduler.next() == 0
            &&& p.scheduler.slots().len() == urls@.len()
        },
{
    match check_config(urls.len(), cfg) {
        Err(e) => return Err(e),
        Ok(()) => {},
    }
    let n = urls.len();
    let mut refs: Vec<ResolvedImageRef> = Vec::new();
    let mut k: usize = 0;
    while k < n
        invariant
            n == urls@.len(),
            k <= n,
            refs@.len() == k,
            forall|i: int| 0 <= i < k ==> #[trigger] refs@[i].index == i && refs@[i].url == urls@[i],
        decreases n - k,
    {
        refs.push(ResolvedImageRef { index: k, url: urls[k].clone() });
        k = k + 1;
    }
    let width = digit_width(n);
    let worker = WorkerConfig { retries: cfg.retries, min_size: cfg.min_size, width, dir };
    let scheduler = Scheduler::new(n, cfg.capacity);
    Ok(BatchPlan { refs, worker, scheduler })
}

} // verus!
