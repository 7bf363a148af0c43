//! A status-page engine: probes are classified into a severity scale, merged
//! into a per-target timeline that only ever escalates within a day, and read
//! back as a fixed-length rolling window for display.

use vstd::prelude::*;

pub mod calendar;
pub mod check;
pub mod cli;
pub mod date_format;
pub mod error;
pub mod history;
pub mod long_date_format;
pub mod site;
pub mod state;
pub mod text;
pub mod utils;

pub use calendar::{CivilDate, CivilTime, Date, Timestamp};
pub use check::{Check, CheckResult, CheckType};
pub use error::ParseError;
pub use history::HistoryEntry;
pub use site::{Incident, PageParams, SiteParams, SiteSettings, StatusPageContext};
pub use state::State;
pub use utils::templates::StatusBlock;

verus! {

/// Where the rendered page goes.
pub const ASSETS_PATH: &'static str = "assets";

/// Where the site's configuration is read from.
pub const CONFIG_PATH: &'static str = "config/config.json";

/// The directory of the timeline files.
pub const HISTORY_PATH: &'static str = "config";

/// The days that the page shows of each timeline.
pub const HISTORY_LENGTH: usize = 30;

} // verus!
