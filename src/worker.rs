//! The download worker: the per-image state machine that decides, after each
//! fetch or write, what happens next.
use vstd::prelude::*;
use crate::naming::{file_path, file_path_of};
use crate::sniff::{ImageFormat, format_of, sniff_format};

verus! {

/// One image to download: its position in the page and its URL.
#[derive(Debug)]
pub struct ResolvedImageRef {
    pub index: usize,
    pub url: String,
}

/// The content hashes of images that are already known.
#[derive(Debug)]
pub struct DedupSet {
    hashes: Vec<String>,
}

impl View for DedupSet {
    type V = Set<Seq<char>>;

    closed spec fn view(&self) -> Set<Seq<char>> {
        Set::new(|h: Seq<char>| exists|i: int| 0 <= i < self.hashes@.len() && self.hashes@[i]@ == h)
    }
}

impl DedupSet {
    /// The set of the given hashes.
    pub fn new(hashes: Vec<String>) -> (r: DedupSet)
        ensures
            forall|h: Seq<char>|
                r@.contains(h) <==> exists|i: int| 0 <= i < hashes@.len() && hashes@[i]@ == h,
    {
        DedupSet { hashes }
    }

    /// Whether `h` is a known hash.
    pub fn contains(&self, h: &String) -> (r: bool)
        ensures
            r == self@.contains(h@),
    {
        let mut k: usize = 0;
        while k < self.hashes.len()
            invariant
                k <= self.hashes@.len(),
                forall|j: int| 0 <= j < k ==> self.hashes@[j]@ != h@,
            decreases self.hashes.len() - k,
        {
            if self.hashes[k] == *h {
                return true;
            }
            k = k + 1;
        }
        false
    }
}

/// Why an image was not saved although nothing failed.
#[derive(Debug, Clone, Copy, PartialEq, Eq, Structural)]
pub enum SkipReason {
    /// Its content hash is in the dedup set.
    AlreadyKnown,
}

/// The last error of an image that could not be saved.
#[derive(Debug)]
pub enum FetchError {
    /// The request or the transfer of the body failed.
    Transport { message: String },
    /// The body was smaller than the minimum size.
    Undersized { size: usize },
    /// The file could not be written.
    Persistence { message: String },
}

/// What became of one image.
#[derive(Debug)]
pub enum DownloadOutcome {
    /// Written to `path`; `hash` is the content hash of the payload.
    Saved { path: String, format: ImageFormat, size: usize, hash: String },
    Skipped { reason: SkipReason },
    Failed { url: String, last_error: FetchError },
}

/// What every worker of a batch shares.
#[derive(Debug)]
pub struct WorkerConfig {
    /// Fetch attempts per image, at least one.
    pub retries: u32,
    /// The least acceptable payload size in bytes.
    pub min_size: usize,
    /// The digit width of the batch's file names.
    pub width: usize,
    /// The directory the files are written to.
    pub dir: String,
}

/// Where a worker stands.
#[derive(Debug)]
pub enum WorkerState {
    /// Waiting for the result of a fetch.
    Fetching,
    /// Waiting for the result of writing the payload, whose content hash is
    /// `hash`, to `path`.
    Writing { path: String, format: ImageFormat, size: usize, hash: String },
    /// Finished with `outcome`.
    Done { outcome: DownloadOutcome },
}

/// What the worker asks its driver to do next.
#[derive(Debug)]
pub enum WorkerAction {
    /// Fetch the worker's URL (again).
    Fetch,
    /// Write the payload just fetched to `path`.
    Write { path: String },
    /// Nothing more: the outcome is in the worker's state.
    Finish,
}

/// The state machine of one image.
#[derive(Debug)]
pub struct Worker {
    pub index: usize,
    pub url: String,
    /// Fetch attempts that are still allowed, the current one included.
    pub attempts_left: u32,
    pub state: WorkerState,
}

/// A content hash: the digest of a payload in hex.
pub uninterp spec fn md5_hex_of(b: Seq<u8>) -> Seq<char>;

/// Relies on md-5's `Md5::digest`, printed with `{:x}`: the digest of the
/// bytes alone, in lower-case hex.
#[verifier::external_body]
fn content_hash(b: &[u8]) -> (r: String)
    ensures
        r@ == md5_hex_of(b@),
{
    format!("{:x}", <md5::Md5 as md5::Digest>::digest(b))
}

impl Worker {
    /// A worker that still has to fetch.
    pub open spec fn is_fetching(&self) -> bool {
        self.state is Fetching && self.attempts_left >= 1
    }

    /// The worker after a failed attempt: it fetches again while attempts
    /// are left, and else fails with `cause`.
    pub open spec fn failure_step(self, cause: FetchError) -> (Worker, WorkerAction) {
        let left = (self.attempts_left - 1) as u32;
        if left == 0 {
            (
                Worker {
                    attempts_left: left,
                    state: WorkerState::Done {
                        outcome: DownloadOutcome::Failed { url: self.url, last_error: cause },
                    },
                    ..self
                },
                WorkerAction::Finish,
            )
        } else {
            (Worker { attempts_left: left, state: WorkerState::Fetching, ..self }, WorkerAction::Fetch)
        }
    }

    /// The worker after the write it asked for succeeded (`None`) or failed
    /// with a message.
    pub open spec fn write_step(self, error: Option<String>) -> (Worker, WorkerAction) {
        let outcome = match error {
            None => DownloadOutcome::Saved {
                path: self.state->Writing_path,
                format: self.state->Writing_format,
                size: self.state->Writing_size,
                hash: self.state->Writing_hash,
            },
            Some(m) => DownloadOutcome::Failed {
                url: self.url,
                last_error: FetchError::Persistence { message: m },
            },
        };
        (Worker { state: WorkerState::Done { outcome }, ..self }, WorkerAction::Finish)
    }

    /// A worker for `r` that may fetch `retries` times.
    pub fn new(r: ResolvedImageRef, retries: u32) -> (w: Worker)
        requires
            retries >= 1,
        ensures
            w.index == r.index,
            w.url == r.url,
            w.attempts_left == retries,
            w.is_fetching(),
    {
        Worker { index: r.index, url: r.url, attempts_left: retries, state: WorkerState::Fetching }
    }

    fn fail_attempt(&mut self, cause: FetchError) -> (a: WorkerAction)
        requires
            old(self).is_fetching(),
        ensures
            (*final(self), a) == old(self).failure_step(cause),
    {
        self.attempts_left = self.attempts_left - 1;
        if self.attempts_left == 0 {
            let url = self.url.clone();
            self.state = WorkerState::Done {
                outcome: DownloadOutcome::Failed { url, last_error: cause },
            };
            WorkerAction::Finish
        } else {
            self.state = WorkerState::Fetching;
            WorkerAction::Fetch
        }
    }

    /// The fetch failed in transport.
    pub fn on_transport_error(&mut self, message: String) -> (a: WorkerAction)
        requires
            old(self).is_fetching(),
        ensures
            (*final(self), a) == old(self).failure_step(FetchError::Transport { message }),
    {
        self.fail_attempt(FetchError::Transport { message })
    }

    /// The fetch delivered `payload`, whose content hash is `hash`: an
    /// undersized payload counts as a failed attempt, a known hash skips the
    /// image, and any other payload is written under the image's file name.
    pub fn on_payload_hashed(
        &mut self,
        payload: &[u8],
        hash: &String,
        cfg: &WorkerConfig,
        known: &DedupSet,
    ) -> (a: WorkerAction)
        requires
            old(self).is_fetching(),
            old(self).index < usize::MAX,
        ensures
            payload@.len() < cfg.min_size ==> (*final(self), a) == old(self).failure_step(
                FetchError::Undersized { size: payload@.len() as usize },
            ),
            payload@.len() >= cfg.min_size && known@.contains(hash@) ==> *final(self) == (Worker {
                state: WorkerState::Done {
                    outcome: DownloadOutcome::Skipped { reason: SkipReason::AlreadyKnown },
                },
                ..*old(self)
            }) && a is Finish,
            payload@.len() >= cfg.min_size && !known@.contains(hash@) ==> {
                &&& final(self).index == old(self).index
                &&& final(self).url == old(self).url
                &&& final(self).attempts_left == old(self).attempts_left
                &&& final(self).state is Writing
                &&& final(self).state->Writing_path@ == file_path_of(
                    cfg.dir@,
                    old(self).index as nat,
                    cfg.width as nat,
                    format_of(payload@),
                )
                &&& final(self).state->Writing_format == format_of(payload@)
                &&& final(self).state->Writing_size == payload@.len()
                &&& final(self).state->Writing_hash == *hash
                &&& a is Write && a->Write_path == final(self).state->Writing_path
            },
    {
        let size = payload.len();
        if size < cfg.min_size {
            return self.fail_attempt(FetchError::Undersized { size });
        }
        if known.contains(hash) {
            self.state = WorkerState::Done {
                outcome: DownloadOutcome::Skipped { reason: SkipReason::AlreadyKnown },
            };
            return WorkerAction::Finish;
        }
        let format = sniff_format(payload);
        let path = file_path(cfg.dir.as_str(), self.index, cfg.width, format);
        let target = path.clone();
        self.state = WorkerState::Writing { path, format, size, hash: hash.clone() };
        WorkerAction::Write { path: target }
    }

    /// The fetch delivered `payload`: it is checked for size, hashed when
    /// large enough, and then handled as `on_payload_hashed` does with that
    /// hash.
    pub fn on_payload(&mut self, payload: &[u8], cfg: &WorkerConfig, known: &DedupSet) -> (a:
        WorkerAction)
        requires
            old(self).is_fetching(),
            old(self).index < usize::MAX,
        ensures
            payload@.len() < cfg.min_size ==> (*final(self), a) == old(self).failure_step(
                FetchError::Undersized { size: payload@.len() as usize },
            ),
            payload@.len() >= cfg.min_size && known@.contains(md5_hex_of(payload@)) ==> *final(self)
                == (Worker {
                state: WorkerState::Done {
                    outcome: DownloadOutcome::Skipped { reason: SkipReason::AlreadyKnown },
                },
                ..*old(self)
            }) && a is Finish,
            payload@.len() >= cfg.min_size && !known@.contains(md5_hex_of(payload@)) ==> {
                &&& final(self).index == old(self).index
                &&& final(self).url == old(self).url
                &&& final(self).attempts_left == old(self).attempts_left
                &&& final(self).state is Writing
                &&& final(self).state->Writing_path@ == file_path_of(
                    cfg.dir@,
                    old(self).index as nat,
                    cfg.width as nat,
                    format_of(payload@),
                )
                &&& final(self).state->Writing_format == format_of(payload@)
                &&& final(self).state->Writing_size == payload@.len()
                &&& final(self).state->Writing_hash@ == md5_hex_of(payload@)
                &&& a is Write && a->Write_path == final(self).state->Writing_path
            },
    {
        if payload.len() < cfg.min_size {
            return self.fail_attempt(FetchError::Undersized { size: payload.len() });
        }
        let hash = content_hash(payload);
        self.on_payload_hashed(payload, &hash, cfg, known)
    }

    /// The write asked for finished: `None` when it succeeded, else the
    /// error's message. A failed write is not retried.
    pub fn on_write_result(&mut self, error: Option<String>) -> (a: WorkerAction)
        requires
            old(self).state is Writing,
        ensures
            (*final(self), a) == old(self).write_step(error),
    {
        let url = self.url.clone();
        if let WorkerState::Writing { path, format, size, hash } = &self.state {
            let outcome = match error {
                None => DownloadOutcome::Saved {
                    path: path.clone(),
                    format: *format,
                    size: *size,
                    hash: hash.clone(),
                },
                Some(message) => DownloadOutcome::Failed {
                    url,
                    last_error: FetchError::Persistence { message },
                },
            };
            self.state = WorkerState::Done { outcome };
        }
        WorkerAction::Finish
    }

    /// Whether the worker has finished.
    pub fn is_done(&self) -> (r: bool)
        ensures
            r == self.state is Done,
    {
        match self.state {
            WorkerState::Done { .. } => true,
            _ => false,
        }
    }
}

/// The worker after `k` failed attempts, each with `cause`.
pub open spec fn after_failures(w: Worker, cause: FetchError, k: nat) -> Worker
    decreases k,
{
    if k == 0 {
        w
    } else {
        after_failures(w.failure_step(cause).0, cause, (k - 1) as nat)
    }
}

/// A payload that never reaches the minimum size (or a fetch that keeps
/// failing) is fetched again after each of the first `attempts_left - 1`
/// failures, and after the last one the worker is done with `Failed`,
/// carrying its URL and that cause.
pub proof fn lemma_failures_exhaust_retries(w: Worker, cause: FetchError)
    requires
        w.is_fetching(),
    ensures
        forall|j: nat| j < w.attempts_left ==> (#[trigger] after_failures(w, cause, j)).is_fetching(),
        after_failures(w, cause, w.attempts_left as nat).state == (WorkerState::Done {
            outcome: DownloadOutcome::Failed { url: w.url, last_error: cause },
        }),
    decreases w.attempts_left,
{
    let w1 = w.failure_step(cause).0;
    assert(after_failures(w, cause, 0) == w);
    if w.attempts_left == 1 {
        assert(after_failures(w1, cause, 0) == w1);
    } else {
        lemma_failures_exhaust_retries(w1, cause);
        assert forall|j: nat| j < w.attempts_left implies (#[trigger] after_failures(
            w,
            cause,
            j,
        )).is_fetching() by {
            if j > 0 {
                assert(after_failures(w, cause, j) == after_failures(w1, cause, (j - 1) as nat));
            }
        }
    }
}

} // verus!
