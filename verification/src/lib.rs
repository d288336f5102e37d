//! SysWatch: a system monitor served over TCP.
//!
//! The library holds the monitor's logic: the metrics model and how each
//! metric is written out (`model`), the alert thresholds (`alerts`), the
//! assembly of a snapshot from raw readings (`snapshot`), the answers to
//! client commands (`response`), the authenticated conversation with a
//! client as a state machine (`session`) and timestamped log lines
//! (`logging`). Reading the operating system, the clock, the network and
//! the log file is left to the program that uses it.
use vstd::prelude::*;

pub mod text;
pub mod float;
pub mod model;
pub mod alerts;
pub mod logging;
pub mod snapshot;
pub mod response;
pub mod session;

pub use alerts::check_alerts;
pub use logging::log_line;
pub use model::{
    AlertStatus, CpuInfo, Load, MemInfo, MemoryShare, NetworkInfo, ProcessInfo, SysWatchError,
    SystemSnapshot,
};
pub use response::{format_response, Action, Reply};
pub use session::{session_start, session_step, Output, SessionEvent, SessionState, SessionStep};
pub use snapshot::{
    collect_network_info, collect_snapshot, refresh, ProcessReading, SystemReadings,
};

verus! {
}
