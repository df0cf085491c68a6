//! Coordination and progress bookkeeping for a bulk file copy: dirty-tracked
//! values, running statistics fed by copy events, rate formatting, a throttled
//! redraw planner and the error arbitration that answers the copy engine.

pub mod track;
pub mod stats;
pub mod speed;
pub mod presenter;
pub mod coordinator;

pub use track::TrackChange;
pub use stats::{OperationControl, OperationStats, OperationStatus, PathText, StatsChange, WorkerEvent};
pub use speed::{decimal, fmt_speed, speed};

pub use presenter::{Presenter, Redraw, REDRAW_INTERVAL};
pub use coordinator::{App, Step};
