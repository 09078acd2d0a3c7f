//! Bedtime tracking: turns a chronological log of timestamped bedtimes into
//! chart-ready data (coordinates, axis ticks, a smoothed trend and streaks
//! against a daily target).
//!
//! All chart quantities are exact integers. A time-of-day coordinate is
//! measured in minutes, so the chart's 24-hour axis runs from 0 to 1440; a day
//! coordinate is a whole number of days. The trend is kept as window sums,
//! which a renderer divides by the window's size.

pub mod chart;
pub mod civil;
pub mod command;
pub mod coords;
pub mod error;
pub mod smoothing;
pub mod streaks;
pub mod telegram;
pub mod text;
pub mod ticks;
pub mod tracker;

pub use chart::{
    assemble_chart, page_for, render_chart, AxisAnchor, ChartData, Color, Hover, LineStyle, Mode,
    Page, Point, Summary,
};
pub use command::{execute, parse_command, Command, Outcome, Reply};
pub use coords::{get_x_coord, hourminute_to_y, localize, y_to_hourminute, ZonedInstant};
pub use error::LogError;
pub use smoothing::avg_filter_y;
pub use streaks::{best_streak, compute_streaks, current_streak};
pub use telegram::{latest_update, relay_step, RelayStep, TelegramContext, Update};
pub use text::format_error;
pub use ticks::{get_x_ticks, get_y_ticks, Tick};
pub use tracker::{LogEntry, Tracker};
