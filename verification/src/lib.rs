//! A small logging facade: records are filtered by level, rendered into one
//! line per sink and handed out for writing.
//!
//! A [`Dispatcher`] turns a [`Record`] into the list of lines that its sinks
//! are owed, a [`GlobalSlot`] decides whether an installation may go ahead,
//! and [`fatal`] decides what a fatal call emits. The crate does nothing to
//! the outside world: reading the clock, writing the lines, opening files,
//! registering with a logging facade and holding the process-wide state are
//! left to the caller.

pub mod dispatch;
pub mod fatal;
pub mod format;
pub mod install;
pub mod level;
pub mod record;
pub mod target;
pub mod text;
pub mod timestamp;

pub use dispatch::{Dispatcher, DispatcherView, Emission, EmissionView, Pipe, Sink};
pub use fatal::{fatal, set_on_fatal, FatalHook, FatalStep};
pub use format::{FormatterPolicy, LevelLabel, FATAL_SENTINEL};
pub use install::{
    init_logger, GlobalSlot, GlobalSlotView, InstallConfig, InstallConfigView, InstallError,
    InstallErrorView, InstallPlan, InstallPlanView, LoggerAlreadySet, SinkOutcome, SinkOutcomeView,
};
pub use level::{Level, LevelFilter};
pub use record::{Record, RecordView};
pub use target::{set_target_length, DisplayChars, TargetPolicy};
pub use timestamp::Timestamp;
