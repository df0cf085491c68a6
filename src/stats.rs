use vstd::prelude::*;
use crate::track::TrackChange;

verus! {

broadcast use crate::track::group_track_change;

/// The text of a file path, as shown to the user.
#[derive(Clone, Debug)]
pub struct PathText {
    pub text: String,
}

impl PartialEq for PathText {
    fn eq(&self, o: &PathText) -> (r: bool) {
        self.text == o.text
    }
}

impl vstd::std_specs::cmp::PartialEqSpecImpl for PathText {
    open spec fn obeys_eq_spec() -> bool {
        true
    }

    open spec fn eq_spec(&self, o: &PathText) -> bool {
        self.text@ == o.text@
    }
}

impl PathText {
    pub fn new(text: String) -> (r: PathText)
        ensures
            r.text == text,
    {
        PathText { text }
    }
}

/// A change of the copy statistics reported by the copy engine.
#[derive(Clone, Debug)]
pub enum StatsChange {
    /// One more file was copied.
    FilesDone,
    /// One more file was found to copy.
    FilesTotal,
    /// This many more bytes were found to copy.
    BytesTotal(usize),
    /// Progress on the file being copied: its path, the bytes moved by this
    /// step, the bytes of it moved so far, and its size.
    Current(PathText, usize, usize, usize),
}

/// A status reported by the copy engine.
#[derive(Clone, Debug)]
pub enum OperationStatus {
    /// A failure the engine waits for a decision on.
    Error(String),
    /// Any other status; it is passed over.
    Other,
}

/// An event sent by the copy engine.
#[derive(Clone, Debug)]
pub enum WorkerEvent {
    Stat(StatsChange),
    Status(OperationStatus),
}

/// The answer to a reported failure.
#[derive(Clone, Copy, Debug, PartialEq, Eq, Structural)]
pub enum OperationControl {
    Retry,
    Skip,
    Abort,
}

/// Running totals of a copy.
pub struct OperationStats {
    pub files_done: usize,
    pub bytes_done: usize,
    pub files_total: TrackChange<usize>,
    pub bytes_total: TrackChange<usize>,
    pub current_total: TrackChange<usize>,
    pub current_done: usize,
    pub current_path: TrackChange<PathText>,
    /// When the copy of the current file started, in nanoseconds on the
    /// caller's clock.
    pub current_start: u64,
}

/// Whether applying `c` to `s` keeps every counter within `usize`.
pub open spec fn fits_spec(s: OperationStats, c: StatsChange) -> bool {
    match c {
        StatsChange::FilesDone => s.files_done < usize::MAX,
        StatsChange::FilesTotal => s.files_total.value() < usize::MAX,
        StatsChange::BytesTotal(n) => s.bytes_total.value() + n <= usize::MAX,
        StatsChange::Current(_, chunk, _, _) => s.bytes_done + chunk <= usize::MAX,
    }
}

/// The statistics after applying `c` to `s`.
pub open spec fn apply_spec(s: OperationStats, c: StatsChange) -> OperationStats {
    match c {
        StatsChange::FilesDone => OperationStats { files_done: (s.files_done + 1) as usize, ..s },
        StatsChange::FilesTotal => OperationStats {
            files_total: s.files_total.overwrite_spec((s.files_total.value() + 1) as usize),
            ..s
        },
        StatsChange::BytesTotal(n) => OperationStats {
            bytes_total: s.bytes_total.overwrite_spec((s.bytes_total.value() + n) as usize),
            ..s
        },
        StatsChange::Current(p, chunk, done, todo) => OperationStats {
            current_path: s.current_path.set_spec(p),
            current_total: s.current_total.set_spec(todo),
            current_done: done,
            bytes_done: (s.bytes_done + chunk) as usize,
            ..s
        },
    }
}

/// Whether `s` holds no progress, no totals and no pending change, its current
/// file taken to start at `now`.
pub open spec fn is_fresh(s: OperationStats, now: u64) -> bool {
    &&& s.files_done == 0
    &&& s.bytes_done == 0
    &&& s.files_total.value() == 0
    &&& s.bytes_total.value() == 0
    &&& s.current_total.value() == 0
    &&& s.current_done == 0
    &&& s.current_path.value().text@ == Seq::<char>::empty()
    &&& s.current_start == now
    &&& !s.files_total.dirty()
    &&& !s.bytes_total.dirty()
    &&& !s.current_total.dirty()
    &&& !s.current_path.dirty()
}

impl OperationStats {
    /// Empty statistics, the current file taken to start at `now`.
    pub fn new(now: u64) -> (r: Self)
        ensures
            is_fresh(r, now),
    {
        OperationStats {
            files_done: 0,
            bytes_done: 0,
            files_total: TrackChange::new(0),
            bytes_total: TrackChange::new(0),
            current_total: TrackChange::new(0),
            current_done: 0,
            current_path: TrackChange::new(PathText::new(String::new())),
            current_start: now,
        }
    }

    /// Whether `c` can be applied without a counter leaving `usize`.
    pub fn fits(&self, c: &StatsChange) -> (r: bool)
        ensures
            r == fits_spec(*self, *c),
    {
        match c {
            StatsChange::FilesDone => self.files_done < usize::MAX,
            StatsChange::FilesTotal => *self.files_total.get() < usize::MAX,
            StatsChange::BytesTotal(n) => *n <= usize::MAX - *self.bytes_total.get(),
            StatsChange::Current(_, chunk, _, _) => *chunk <= usize::MAX - self.bytes_done,
        }
    }

    /// Folds one change into the totals.
    pub fn apply(&mut self, c: StatsChange)
        requires
            fits_spec(*old(self), c),
        ensures
            *final(self) == apply_spec(*old(self), c),
            final(self).files_done >= old(self).files_done,
            final(self).bytes_done >= old(self).bytes_done,
    {
        match c {
            StatsChange::FilesDone => {
                self.files_done = self.files_done + 1;
            },
            StatsChange::FilesTotal => {
                let n = *self.files_total.get();
                self.files_total.overwrite(n + 1);
            },
            StatsChange::BytesTotal(n) => {
                let b = *self.bytes_total.get();
                self.bytes_total.overwrite(b + n);
            },
            StatsChange::Current(p, chunk, done, todo) => {
                self.current_path.set(p);
                self.current_total.set(todo);
                self.current_done = done;
                self.bytes_done = self.bytes_done + chunk;
            },
        }
    }
}

/// The statistics after applying each change of `cs` in turn.
pub open spec fn apply_all(s: OperationStats, cs: Seq<StatsChange>) -> OperationStats
    decreases cs.len(),
{
    if cs.len() == 0 {
        s
    } else {
        apply_spec(apply_all(s, cs.drop_last()), cs.last())
    }
}

/// The bytes moved by one change: the step of a `Current`, zero otherwise.
pub open spec fn chunk_of(c: StatsChange) -> int {
    match c {
        StatsChange::Current(_, chunk, _, _) => chunk as int,
        _ => 0,
    }
}

/// The sum of the steps of the `Current` changes of `cs`.
pub open spec fn chunk_sum(cs: Seq<StatsChange>) -> int
    decreases cs.len(),
{
    if cs.len() == 0 {
        0
    } else {
        chunk_sum(cs.drop_last()) + chunk_of(cs.last())
    }
}

/// The number of `FilesDone` changes in `cs`.
pub open spec fn files_done_count(cs: Seq<StatsChange>) -> int
    decreases cs.len(),
{
    if cs.len() == 0 {
        0
    } else {
        files_done_count(cs.drop_last()) + if cs.last() is FilesDone { 1int } else { 0int }
    }
}

/// Over any sequence of changes, the bytes done grow by exactly the sum of
/// the `Current` steps, and the files done by exactly one per `FilesDone`,
/// whatever other changes come between (as long as the totals fit).
pub proof fn lemma_done_counts(s: OperationStats, cs: Seq<StatsChange>)
    requires
        s.bytes_done + chunk_sum(cs) <= usize::MAX,
        s.files_done + files_done_count(cs) <= usize::MAX,
    ensures
        apply_all(s, cs).bytes_done == s.bytes_done + chunk_sum(cs),
        apply_all(s, cs).files_done == s.files_done + files_done_count(cs),
    decreases cs.len(),
{
    if cs.len() > 0 {
        let front = cs.drop_last();
        assert(chunk_of(cs.last()) >= 0);
        lemma_done_counts(s, front);
    }
}

} // verus!
