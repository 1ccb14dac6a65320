//! A flowtime work/break timer: clock arithmetic, the session state machine,
//! and the per-month statistics ledger it feeds.

pub mod format;
pub mod stats;
pub mod time;
pub mod timer;

pub use crate::format::{second_to_formatted, unit_label};
pub use crate::stats::{current_month_stat, current_stat, update_statistics, update_statistics_now, MonthStat, Stats};
pub use crate::time::{Time, TimeError};
pub use crate::timer::{CommandMsg, Delta, Effects, Resume, Timer, TimerMode, TimerMsg};
