use vstd::prelude::*;
use vstd::string::*;
use crate::speed::{fmt_speed, human_bytes_of, speed_spec};
use crate::stats::OperationStats;

verus! {

broadcast use crate::track::group_track_change;

/// The least time between two redraws, in nanoseconds (97 ms).
pub const REDRAW_INTERVAL: u64 = 97_000_000;

/// The time from `from` to `to`, zero when `to` comes first.
pub open spec fn elapsed_spec(from: u64, to: u64) -> u64 {
    if to >= from {
        (to - from) as u64
    } else {
        0
    }
}

pub fn elapsed(from: u64, to: u64) -> (r: u64)
    ensures
        r == elapsed_spec(from, to),
{
    if to >= from {
        to - from
    } else {
        0
    }
}

/// Whether an update at `now` redraws, the last redraw having been at `last`.
pub open spec fn redraws(last: u64, now: u64) -> bool {
    elapsed_spec(last, now) >= REDRAW_INTERVAL
}

/// What a redraw changes on the four display lines. The spinner advances on
/// every redraw.
pub struct Redraw {
    /// The new file name, when the current file changed; the current-file
    /// bar then restarts its elapsed time and estimate.
    pub name: Option<String>,
    /// The new length of the current-file bar.
    pub current_len: Option<usize>,
    pub current_pos: usize,
    /// The rate of the current file, followed by "/s".
    pub current_message: String,
    /// The new length of the files bar.
    pub files_len: Option<usize>,
    pub files_pos: usize,
    /// The new length of the bytes bar.
    pub bytes_len: Option<usize>,
    pub bytes_pos: usize,
}

/// The redraw that an update at `now` makes of `s` (the statistics before the
/// update).
pub open spec fn is_plan(d: Redraw, s: OperationStats, now: u64) -> bool {
    let start = if s.current_path.dirty() { now } else { s.current_start };
    &&& s.current_path.dirty() ==> d.name is Some && d.name->0@ == s.current_path.value().text@
        && d.current_len == Some(s.current_total.value())
    &&& !s.current_path.dirty() ==> d.name is None && d.current_len is None
    &&& d.current_pos == s.current_done
    &&& d.current_message@ == human_bytes_of(
        speed_spec(s.current_done, elapsed_spec(start, now)) as u64,
    ) + "/s"@
    &&& d.files_len == (if s.files_total.dirty() { Some(s.files_total.value()) } else { None })
    &&& d.files_pos == s.files_done
    &&& d.bytes_len == (if s.bytes_total.dirty() { Some(s.bytes_total.value()) } else { None })
    &&& d.bytes_pos == s.bytes_done
}

/// The statistics after an update at `now` that redraws: the change flags
/// that the redraw reads are cleared, and a new current file starts at `now`.
pub open spec fn stats_after_redraw(s: OperationStats, now: u64) -> OperationStats {
    OperationStats {
        current_path: s.current_path.taken_spec(),
        current_start: if s.current_path.dirty() { now } else { s.current_start },
        files_total: s.files_total.taken_spec(),
        bytes_total: s.bytes_total.taken_spec(),
        ..s
    }
}

/// Decides when the display is redrawn and what each redraw shows.
pub struct Presenter {
    /// When the display was last redrawn, in nanoseconds.
    pub last_update: u64,
}

/// The presenter after an update at `now`.
pub open spec fn after_update(p: Presenter, now: u64) -> Presenter {
    if redraws(p.last_update, now) {
        Presenter { last_update: now }
    } else {
        p
    }
}

impl Presenter {
    /// A presenter that counts `now` as its last redraw.
    pub fn new(now: u64) -> (r: Self)
        ensures
            r.last_update == now,
    {
        Presenter { last_update: now }
    }

    /// Plans a redraw of `stats` at `now`, unless the last one was less than
    /// `REDRAW_INTERVAL` ago.
    pub fn update(&mut self, stats: &mut OperationStats, now: u64) -> (r: Option<Redraw>)
        ensures
            *final(self) == after_update(*old(self), now),
            r is Some == redraws(old(self).last_update, now),
            r is None ==> *final(stats) == *old(stats),
            r is Some ==> *final(stats) == stats_after_redraw(*old(stats), now),
            r is Some ==> is_plan(r->0, *old(stats), now),
    {
        if elapsed(self.last_update, now) < REDRAW_INTERVAL {
            return None;
        }
        self.last_update = now;
        let mut name: Option<String> = None;
        let mut current_len: Option<usize> = None;
        if stats.current_path.changed() {
            name = Some(stats.current_path.get().text.clone());
            current_len = Some(*stats.current_total.get());
            stats.current_start = now;
        }
        let current_pos = stats.current_done;
        let rate = fmt_speed(stats.current_done, elapsed(stats.current_start, now));
        let current_message = rate.concat("/s");
        let files_len = if stats.files_total.changed() {
            Some(*stats.files_total.get())
        } else {
            None
        };
        let files_pos = stats.files_done;
        let bytes_len = if stats.bytes_total.changed() {
            Some(*stats.bytes_total.get())
        } else {
            None
        };
        let bytes_pos = stats.bytes_done;
        Some(
            Redraw {
                name,
                current_len,
                current_pos,
                current_message,
                files_len,
                files_pos,
                bytes_len,
                bytes_pos,
            },
        )
    }
}

/// Of two updates at `t1` and then `t2`, the first of which redraws, the
/// second redraws exactly when it comes at least `REDRAW_INTERVAL` after the
/// first.
pub proof fn lemma_two_updates(p: Presenter, t1: u64, t2: u64)
    requires
        redraws(p.last_update, t1),
        t1 <= t2,
    ensures
        after_update(p, t1).last_update == t1,
        redraws(after_update(p, t1).last_update, t2) == (t2 - t1 >= REDRAW_INTERVAL),
{
}

} // verus!
