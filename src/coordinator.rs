use vstd::prelude::*;
use vstd::string::*;
use crate::presenter::{
    after_update, elapsed, elapsed_spec, is_plan, redraws, stats_after_redraw, Presenter, Redraw,
};
use crate::speed::{
    decimal, decimal_spec, fmt_speed, human_bytes, human_bytes_of, human_duration, human_duration_of,
    speed_spec,
};
use crate::stats::{
    apply_spec, fits_spec, is_fresh, OperationControl, OperationStats, OperationStatus, WorkerEvent,
};

verus! {

broadcast use crate::track::group_track_change;

/// The reply owed to `e`: one `Skip` for each reported failure, none for any
/// other event.
pub open spec fn reply_spec(e: WorkerEvent) -> Option<OperationControl> {
    match e {
        WorkerEvent::Status(OperationStatus::Error(_)) => Some(OperationControl::Skip),
        _ => None,
    }
}

/// Whether `e` can be folded into `s` without a counter leaving `usize`.
pub open spec fn accepts_spec(s: OperationStats, e: WorkerEvent) -> bool {
    match e {
        WorkerEvent::Stat(c) => fits_spec(s, c),
        _ => true,
    }
}

/// The statistics after folding `e` into `s`.
pub open spec fn folded(s: OperationStats, e: WorkerEvent) -> OperationStats {
    match e {
        WorkerEvent::Stat(c) => apply_spec(s, c),
        _ => s,
    }
}

/// The closing line of a copy of `files` files and `bytes` bytes that took
/// `ela` nanoseconds.
pub open spec fn summary_spec(files: usize, bytes: usize, ela: u64) -> Seq<char> {
    "copied "@ + decimal_spec(files as nat) + " files ("@ + human_bytes_of(bytes as u64)
        + ") in "@ + human_duration_of(ela) + " "@ + human_bytes_of(
        speed_spec(bytes, ela) as u64,
    ) + "/s"@
}

/// What one event asks of the caller: a reply to send to the engine, and a
/// redraw to make.
pub struct Step {
    pub reply: Option<OperationControl>,
    pub redraw: Option<Redraw>,
}

/// The decisions of a copy: statistics, redraw timing and error answers.
/// Times are nanoseconds on one clock of the caller's.
pub struct App {
    pub stats: OperationStats,
    pub presenter: Presenter,
    /// When the copy started.
    pub start: u64,
}

impl App {
    pub fn new(now: u64) -> (r: Self)
        ensures
            is_fresh(r.stats, now),
            r.presenter.last_update == now,
            r.start == now,
    {
        App { stats: OperationStats::new(now), presenter: Presenter::new(now), start: now }
    }

    /// The answer to a reported failure: always skip the failing item.
    pub fn error_ask(&self, err: String) -> (r: OperationControl)
        ensures
            r == OperationControl::Skip,
    {
        OperationControl::Skip
    }

    /// Whether `e` can be handed to `step`.
    pub fn accepts(&self, e: &WorkerEvent) -> (r: bool)
        ensures
            r == accepts_spec(self.stats, *e),
    {
        match e {
            WorkerEvent::Stat(c) => self.stats.fits(c),
            _ => true,
        }
    }

    /// Handles one event at `now`: folds a change into the statistics,
    /// answers a failure, then plans a redraw if one is due.
    pub fn step(&mut self, e: WorkerEvent, now: u64) -> (r: Step)
        requires
            accepts_spec(old(self).stats, e),
        ensures
            r.reply == reply_spec(e),
            final(self).start == old(self).start,
            final(self).presenter == after_update(old(self).presenter, now),
            r.redraw is Some == redraws(old(self).presenter.last_update, now),
            r.redraw is None ==> final(self).stats == folded(old(self).stats, e),
            r.redraw is Some ==> final(self).stats == stats_after_redraw(
                folded(old(self).stats, e),
                now,
            ),
            r.redraw is Some ==> is_plan(r.redraw->0, folded(old(self).stats, e), now),
    {
        let reply = match e {
            WorkerEvent::Stat(c) => {
                self.stats.apply(c);
                None
            },
            WorkerEvent::Status(OperationStatus::Error(err)) => Some(self.error_ask(err)),
            WorkerEvent::Status(OperationStatus::Other) => None,
        };
        let redraw = self.presenter.update(&mut self.stats, now);
        Step { reply, redraw }
    }

    /// The closing line at `now`: files and bytes found, time taken and
    /// average rate.
    pub fn summary(&self, now: u64) -> (r: String)
        ensures
            r@ == summary_spec(
                self.stats.files_total.value(),
                self.stats.bytes_total.value(),
                elapsed_spec(self.start, now),
            ),
    {
        let files = *self.stats.files_total.get();
        let bytes = *self.stats.bytes_total.get();
        let ela = elapsed(self.start, now);
        let mut s = String::from_str("copied ");
        s.append(decimal(files).as_str());
        s.append(" files (");
        s.append(human_bytes(bytes as u64).as_str());
        s.append(") in ");
        s.append(human_duration(ela).as_str());
        s.append(" ");
        s.append(fmt_speed(bytes, ela).as_str());
        s.append("/s");
        proof {
            reveal_strlit("copied ");
            reveal_strlit(" files (");
            reveal_strlit(") in ");
            reveal_strlit(" ");
            reveal_strlit("/s");
        }
        s
    }
}

} // verus!
