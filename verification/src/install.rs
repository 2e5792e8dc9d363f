//! The one-time installation of a dispatcher in the slot that the whole
//! process shares.
//!
//! An installation alternates between decisions, which are made here, and
//! work on the outside: opening the log file and registering with the
//! logging facade. The caller does that work between the steps and reports
//! how it went:
//!
//! 1. [`GlobalSlot::begin_install`] refuses if the slot is taken and else
//!    plans the dispatcher;
//! 2. the caller opens the file that the plan names, if it names one;
//! 3. [`GlobalSlot::place`] puts the dispatcher in the slot, unless the file
//!    could not be opened;
//! 4. the caller registers with the facade;
//! 5. [`GlobalSlot::complete`] sets the latch, or clears the slot again if
//!    the facade refused.

use vstd::prelude::*;
use crate::dispatch::{
    emission_views,
    Dispatcher,
    DispatcherView,
    Emission,
    EmissionView,
    Pipe,
    Sink,
};
use crate::format::FormatterPolicy;
use crate::level::{Level, LevelFilter};
use crate::record::{Record, RecordView};
use crate::target::{set_target_length, TargetPolicy, DEFAULT_TARGET_LENGTH};
use crate::timestamp::Timestamp;

verus! {

/// A logger has already been set.
#[derive(Clone, Copy, Debug, PartialEq, Eq, Structural)]
pub struct LoggerAlreadySet;

/// Why an installation did not go through.
#[derive(Debug, PartialEq, Eq)]
pub enum InstallError {
    /// The slot was taken, or the logging facade already had a logger.
    InstallConflict(LoggerAlreadySet),
    /// The log file's directory could not be made or the file not opened.
    FileIoError { path: String, cause: String },
}

/// An [`InstallError`] with its strings as sequences of characters.
pub enum InstallErrorView {
    InstallConflict,
    FileIoError { path: Seq<char>, cause: Seq<char> },
}

impl View for InstallError {
    type V = InstallErrorView;

    open spec fn view(&self) -> InstallErrorView {
        match self {
            InstallError::InstallConflict(_) => InstallErrorView::InstallConflict,
            InstallError::FileIoError { path, cause } => InstallErrorView::FileIoError {
                path: path@,
                cause: cause@,
            },
        }
    }
}

impl Clone for InstallError {
    /// The same error.
    fn clone(&self) -> (copy: InstallError)
        ensures
            copy@ == self@,
    {
        match self {
            InstallError::InstallConflict(_) => InstallError::InstallConflict(LoggerAlreadySet),
            InstallError::FileIoError { path, cause } => InstallError::FileIoError {
                path: path.clone(),
                cause: cause.clone(),
            },
        }
    }
}

/// The view of how a step of the installation ended.
pub open spec fn outcome_view(outcome: Result<(), InstallError>) -> Result<(), InstallErrorView> {
    match outcome {
        Ok(_) => Ok(()),
        Err(error) => Err(error@),
    }
}

/// What the caller asks for at installation. Whatever is left out takes its
/// default.
#[derive(Debug, PartialEq, Eq)]
pub struct InstallConfig {
    /// The threshold; `Info` and above if left out.
    pub threshold: Option<LevelFilter>,
    /// The width that targets are rendered to; sixteen if left out.
    pub fixed_width: Option<u32>,
    /// The file that every line is also appended to, if any.
    pub file_path: Option<String>,
    /// Whether a console of the caller's takes the place of standard output.
    pub external_sink: bool,
}

/// An [`InstallConfig`] with its path as a sequence of characters.
pub struct InstallConfigView {
    pub threshold: Option<LevelFilter>,
    pub fixed_width: Option<u32>,
    pub file_path: Option<Seq<char>>,
    pub external_sink: bool,
}

impl View for InstallConfig {
    type V = InstallConfigView;

    open spec fn view(&self) -> InstallConfigView {
        InstallConfigView {
            threshold: self.threshold,
            fixed_width: self.fixed_width,
            file_path: match self.file_path {
                Some(path) => Some(path@),
                None => None,
            },
            external_sink: self.external_sink,
        }
    }
}

impl InstallConfigView {
    /// The threshold that is installed: the one asked for, else `Info` and
    /// above.
    pub open spec fn threshold_or_default(self) -> LevelFilter {
        match self.threshold {
            Some(threshold) => threshold,
            None => LevelFilter::AtLeast(Level::Info),
        }
    }

    /// The target layout that is installed: the width asked for, else
    /// sixteen.
    pub open spec fn target_or_default(self) -> TargetPolicy {
        match self.fixed_width {
            Some(fixed_width) => TargetPolicy { fixed_width },
            None => TargetPolicy { fixed_width: DEFAULT_TARGET_LENGTH },
        }
    }

    /// The sink of the console pipe: the caller's console where there is
    /// one, else standard output.
    pub open spec fn console(self) -> Sink {
        if self.external_sink {
            Sink::External
        } else {
            Sink::Stdout
        }
    }

    /// The pipes that are installed: the console with the decorated policy,
    /// then, where a file was asked for, the file with the plain policy.
    pub open spec fn pipes(self) -> Seq<Pipe> {
        let console = Pipe { policy: FormatterPolicy::spec_decorated(), sink: self.console() };
        let file = Pipe { policy: FormatterPolicy::spec_plain(), sink: Sink::File };
        match self.file_path {
            Some(_) => seq![console, file],
            None => seq![console],
        }
    }

    /// The installation that this configuration asks for.
    pub open spec fn plan(self) -> InstallPlanView {
        InstallPlanView {
            dispatcher: DispatcherView {
                threshold: self.threshold_or_default(),
                target: self.target_or_default(),
                pipes: self.pipes(),
            },
            file_path: self.file_path,
        }
    }
}

impl Clone for InstallConfig {
    /// A configuration that asks for the same.
    fn clone(&self) -> (copy: InstallConfig)
        ensures
            copy@ == self@,
    {
        InstallConfig {
            threshold: self.threshold,
            fixed_width: self.fixed_width,
            file_path: match &self.file_path {
                Some(path) => Some(path.clone()),
                None => None,
            },
            external_sink: self.external_sink,
        }
    }
}

impl InstallConfig {
    /// A configuration that leaves everything at its default: threshold
    /// `Info`, targets sixteen wide, standard output, no file.
    pub fn new() -> (config: InstallConfig)
        ensures
            config@ == (InstallConfigView {
                threshold: None,
                fixed_width: None,
                file_path: None,
                external_sink: false,
            }),
    {
        InstallConfig { threshold: None, fixed_width: None, file_path: None, external_sink: false }
    }
}

/// A dispatcher that is ready to be placed, and the file that has to be
/// opened for it first, if any.
#[derive(Debug, PartialEq, Eq)]
pub struct InstallPlan {
    pub dispatcher: Dispatcher,
    pub file_path: Option<String>,
}

/// An [`InstallPlan`] by the views of its parts.
pub struct InstallPlanView {
    pub dispatcher: DispatcherView,
    pub file_path: Option<Seq<char>>,
}

impl View for InstallPlan {
    type V = InstallPlanView;

    open spec fn view(&self) -> InstallPlanView {
        InstallPlanView {
            dispatcher: self.dispatcher@,
            file_path: match self.file_path {
                Some(path) => Some(path@),
                None => None,
            },
        }
    }
}

impl Clone for InstallPlan {
    /// A plan for the same dispatcher and the same file.
    fn clone(&self) -> (copy: InstallPlan)
        ensures
            copy@ == self@,
    {
        InstallPlan {
            dispatcher: self.dispatcher.clone(),
            file_path: match &self.file_path {
                Some(path) => Some(path.clone()),
                None => None,
            },
        }
    }
}

/// How the caller fared with the sinks of a plan.
#[derive(Debug, PartialEq, Eq)]
pub enum SinkOutcome {
    /// Every sink of the plan can be written to.
    Ready,
    /// The log file's directory could not be made or the file not opened.
    FileFailed { cause: String },
}

/// A [`SinkOutcome`] with its cause as a sequence of characters.
pub enum SinkOutcomeView {
    Ready,
    FileFailed { cause: Seq<char> },
}

impl View for SinkOutcome {
    type V = SinkOutcomeView;

    open spec fn view(&self) -> SinkOutcomeView {
        match self {
            SinkOutcome::Ready => SinkOutcomeView::Ready,
            SinkOutcome::FileFailed { cause } => SinkOutcomeView::FileFailed { cause: cause@ },
        }
    }
}

impl Clone for SinkOutcome {
    /// The same outcome.
    fn clone(&self) -> (copy: SinkOutcome)
        ensures
            copy@ == self@,
    {
        match self {
            SinkOutcome::Ready => SinkOutcome::Ready,
            SinkOutcome::FileFailed { cause } => SinkOutcome::FileFailed { cause: cause.clone() },
        }
    }
}

/// The slot that holds the installed dispatcher, and the latch that says
/// whether the logger is active.
#[derive(Debug)]
pub struct GlobalSlot {
    dispatcher: Option<Dispatcher>,
    active: bool,
}

/// What a [`GlobalSlot`] holds.
pub struct GlobalSlotView {
    pub dispatcher: Option<DispatcherView>,
    pub active: bool,
}

impl View for GlobalSlot {
    type V = GlobalSlotView;

    closed spec fn view(&self) -> GlobalSlotView {
        GlobalSlotView {
            dispatcher: match self.dispatcher {
                Some(dispatcher) => Some(dispatcher@),
                None => None,
            },
            active: self.active,
        }
    }
}

impl GlobalSlotView {
    /// The slot before any installation.
    pub open spec fn empty() -> GlobalSlotView {
        GlobalSlotView { dispatcher: None, active: false }
    }

    /// The latch is only ever set on a slot that holds a dispatcher.
    pub open spec fn wf(self) -> bool {
        self.active ==> self.dispatcher is Some
    }

    /// Whether the slot holds a dispatcher.
    pub open spec fn occupied(self) -> bool {
        self.dispatcher is Some
    }

    /// The first step: a conflict where the slot is taken, else the plan
    /// that the configuration asks for.
    pub open spec fn planned(self, config: InstallConfigView) -> Result<
        InstallPlanView,
        InstallErrorView,
    > {
        if self.occupied() {
            Err(InstallErrorView::InstallConflict)
        } else {
            Ok(config.plan())
        }
    }

    /// The second step, as the slot after it and the way it ended: a
    /// conflict where the slot is taken; the file error where the plan names
    /// a file that could not be opened; else the plan's dispatcher is in the
    /// slot and the latch is not set yet. A step that fails leaves the slot
    /// as it was.
    pub open spec fn placed(self, plan: InstallPlanView, sinks: SinkOutcomeView) -> (
        GlobalSlotView,
        Result<(), InstallErrorView>,
    ) {
        if self.occupied() {
            (self, Err(InstallErrorView::InstallConflict))
        } else {
            match (plan.file_path, sinks) {
                (Some(path), SinkOutcomeView::FileFailed { cause }) => (
                    self,
                    Err(InstallErrorView::FileIoError { path, cause }),
                ),
                _ => (GlobalSlotView { dispatcher: Some(plan.dispatcher), active: false }, Ok(())),
            }
        }
    }

    /// Whether a dispatcher has been placed and waits for the facade.
    pub open spec fn pending(self) -> bool {
        self.dispatcher is Some && !self.active
    }

    /// The third step, as the slot after it and the way it ended. Where a
    /// dispatcher waits in the slot, the latch is set if the facade took the
    /// logger, and the slot is cleared and a conflict reported if it did
    /// not. Where nothing waits, the slot stays as it is and a conflict is
    /// reported.
    pub open spec fn completed(self, registered: bool) -> (
        GlobalSlotView,
        Result<(), InstallErrorView>,
    ) {
        if !self.pending() {
            (self, Err(InstallErrorView::InstallConflict))
        } else if registered {
            (GlobalSlotView { dispatcher: self.dispatcher, active: true }, Ok(()))
        } else {
            (GlobalSlotView::empty(), Err(InstallErrorView::InstallConflict))
        }
    }

    /// A whole installation, given how the outside work goes: the three
    /// steps in turn, ended by the first that fails.
    pub open spec fn installed(
        self,
        config: InstallConfigView,
        sinks: SinkOutcomeView,
        registered: bool,
    ) -> (GlobalSlotView, Result<(), InstallErrorView>) {
        match self.planned(config) {
            Err(error) => (self, Err(error)),
            Ok(plan) => {
                let (placed, outcome) = self.placed(plan, sinks);
                match outcome {
                    Err(error) => (placed, Err(error)),
                    Ok(_) => placed.completed(registered),
                }
            },
        }
    }

    /// Whether a record of level `level` is rendered: the logger is active
    /// and the level passes its threshold.
    pub open spec fn enabled(self, level: Level) -> bool {
        self.active && self.dispatcher is Some && self.dispatcher->0.enabled(level)
    }

    /// What a record gives rise to: what the installed dispatcher makes of
    /// it where the logger is active, nothing where it is not.
    pub open spec fn emissions(self, record: RecordView) -> Seq<EmissionView> {
        if self.active && self.dispatcher is Some {
            self.dispatcher->0.emissions(record)
        } else {
            Seq::empty()
        }
    }
}

impl GlobalSlot {
    #[verifier::type_invariant]
    spec fn latch_needs_dispatcher(self) -> bool {
        self.active ==> self.dispatcher is Some
    }

    /// The slot before any installation.
    pub fn new() -> (slot: GlobalSlot)
        ensures
            slot@ == GlobalSlotView::empty(),
    {
        GlobalSlot { dispatcher: None, active: false }
    }

    /// Whether the latch is set: an installation has gone through. The
    /// latch is only ever set while the slot holds a dispatcher.
    pub fn is_active(&self) -> (active: bool)
        ensures
            active == self@.active,
            self@.wf(),
    {
        proof {
            use_type_invariant(self);
        }
        self.active
    }

    /// Whether the slot holds a dispatcher.
    pub fn is_occupied(&self) -> (occupied: bool)
        ensures
            occupied == self@.occupied(),
    {
        self.dispatcher.is_some()
    }

    /// The first step of an installation: decides whether it may go ahead,
    /// and plans the dispatcher if it may.
    pub fn begin_install(&self, config: &InstallConfig) -> (result: Result<
        InstallPlan,
        InstallError,
    >)
        ensures
            self@.occupied() ==> result is Err && result->Err_0@
                == InstallErrorView::InstallConflict,
            !self@.occupied() ==> result is Ok && result->Ok_0@ == config@.plan(),
            match result {
                Ok(plan) => self@.planned(config@) == Ok::<InstallPlanView, InstallErrorView>(
                    plan@,
                ),
                Err(error) => self@.planned(config@) == Err::<InstallPlanView, InstallErrorView>(
                    error@,
                ),
            },
    {
        if self.dispatcher.is_some() {
            return Err(InstallError::InstallConflict(LoggerAlreadySet));
        }
        let threshold = match config.threshold {
            Some(threshold) => threshold,
            None => LevelFilter::default(),
        };
        let mut target = TargetPolicy::default();
        if let Some(fixed_width) = config.fixed_width {
            set_target_length(&mut target, fixed_width);
        }
        let console = if config.external_sink {
            Sink::External
        } else {
            Sink::Stdout
        };
        let mut pipes: Vec<Pipe> = Vec::new();
        pipes.push(Pipe { policy: FormatterPolicy::decorated(), sink: console });
        let file_path = match &config.file_path {
            Some(path) => {
                pipes.push(Pipe { policy: FormatterPolicy::plain(), sink: Sink::File });
                Some(path.clone())
            },
            None => None,
        };
        assert(pipes@ =~= config@.pipes());
        Ok(InstallPlan { dispatcher: Dispatcher::new(threshold, target, pipes), file_path })
    }

    /// The second step: puts the plan's dispatcher in the slot, once the
    /// caller has tried to open the file that the plan names.
    pub fn place(&mut self, plan: InstallPlan, sinks: SinkOutcome) -> (result: Result<
        (),
        InstallError,
    >)
        ensures
            (final(self)@, outcome_view(result)) == old(self)@.placed(plan@, sinks@),
    {
        if self.dispatcher.is_some() {
            return Err(InstallError::InstallConflict(LoggerAlreadySet));
        }
        match (plan.file_path, sinks) {
            (Some(path), SinkOutcome::FileFailed { cause }) => Err(
                InstallError::FileIoError { path, cause },
            ),
            _ => {
                proof {
                    use_type_invariant(&*self);
                }
                self.dispatcher = Some(plan.dispatcher);
                Ok(())
            },
        }
    }

    /// The third step: sets the latch, once the caller has tried to register
    /// with the logging facade, or clears the slot again if the facade
    /// refused.
    pub fn complete(&mut self, registered: bool) -> (result: Result<(), InstallError>)
        ensures
            (final(self)@, outcome_view(result)) == old(self)@.completed(registered),
    {
        if self.dispatcher.is_none() || self.active {
            Err(InstallError::InstallConflict(LoggerAlreadySet))
        } else if registered {
            self.active = true;
            Ok(())
        } else {
            self.dispatcher = None;
            Err(InstallError::InstallConflict(LoggerAlreadySet))
        }
    }

    /// Whether a record of level `level` is rendered.
    pub fn enabled(&self, level: Level) -> (pass: bool)
        ensures
            pass == self@.enabled(level),
    {
        match &self.dispatcher {
            Some(dispatcher) => self.active && dispatcher.enabled(level),
            None => false,
        }
    }

    /// Renders `record` as it stands for every sink of the installed
    /// dispatcher; nothing where the logger is not active.
    pub fn emit(&self, record: &Record) -> (out: Vec<Emission>)
        ensures
            emission_views(out@) == self@.emissions(record@),
            !self@.enabled(record@.level) ==> out@.len() == 0,
            self@.enabled(record@.level) ==> out@.len() == self@.dispatcher->0.pipes.len(),
    {
        match &self.dispatcher {
            Some(dispatcher) => {
                if self.active {
                    dispatcher.emit(record)
                } else {
                    let out: Vec<Emission> = Vec::new();
                    out
                }
            },
            None => {
                let out: Vec<Emission> = Vec::new();
                out
            },
        }
    }

    /// Takes in a record that came in at `now`, the time that the caller
    /// read from the clock, or nothing where the clock could not be read.
    /// Where the logger is active, the record is rendered for every sink as
    /// it came in; where it is not, or the record does not pass the
    /// threshold, nothing is rendered.
    pub fn log(&self, record: Record, now: Option<Timestamp>) -> (out: Vec<Emission>)
        ensures
            emission_views(out@) == self@.emissions(record@.received(now)),
            !self@.enabled(record@.level) ==> out@.len() == 0,
            self@.enabled(record@.level) ==> out@.len() == self@.dispatcher->0.pipes.len(),
    {
        let received = record.received(now);
        self.emit(&received)
    }

    /// Hands out what is held back. Lines are never held back, so this is
    /// always nothing.
    pub fn flush(&self) -> (out: Vec<Emission>)
        ensures
            out@.len() == 0,
    {
        match &self.dispatcher {
            Some(dispatcher) => dispatcher.flush(),
            None => Vec::new(),
        }
    }
}

/// Runs a whole installation on `slot`, for a caller that reports at once
/// how the outside work went: the three steps in turn, ended by the first
/// that fails.
pub fn init_logger(
    slot: &mut GlobalSlot,
    config: &InstallConfig,
    sinks: SinkOutcome,
    registered: bool,
) -> (result: Result<(), InstallError>)
    ensures
        (final(slot)@, outcome_view(result)) == old(slot)@.installed(config@, sinks@, registered),
{
    match slot.begin_install(config) {
        Err(error) => Err(error),
        Ok(plan) => match slot.place(plan, sinks) {
            Err(error) => Err(error),
            Ok(_) => slot.complete(registered),
        },
    }
}

/// Every pipe that an installation sets up looks for the fatal sentinel.
pub proof fn lemma_installed_pipes_recognize_sentinel(config: InstallConfigView)
    ensures
        forall|i: int|
            0 <= i < config.pipes().len() ==> (#[trigger] config.pipes()[i]).policy.recognize_fatal_sentinel,
        config.plan().dispatcher.pipes == config.pipes(),
{
}

/// Installation is write-once: on a slot whose latch is set, every step of
/// a further installation reports a conflict and leaves the slot as it is,
/// whatever is asked for and however the outside work goes.
pub proof fn lemma_install_is_write_once(
    slot: GlobalSlotView,
    config: InstallConfigView,
    plan: InstallPlanView,
    sinks: SinkOutcomeView,
    registered: bool,
)
    requires
        slot.wf(),
        slot.active,
    ensures
        slot.planned(config) == Err::<InstallPlanView, InstallErrorView>(
            InstallErrorView::InstallConflict,
        ),
        slot.placed(plan, sinks) == (slot, Err::<(), InstallErrorView>(InstallErrorView::InstallConflict)),
        slot.completed(registered) == (
            slot,
            Err::<(), InstallErrorView>(InstallErrorView::InstallConflict),
        ),
        slot.installed(config, sinks, registered) == (
            slot,
            Err::<(), InstallErrorView>(InstallErrorView::InstallConflict),
        ),
{
}

/// The latch is set exactly by an installation that succeeds: from a slot
/// whose latch is not set, an installation ends with the latch set if and
/// only if it reports success, and then the slot holds the dispatcher that
/// was asked for.
pub proof fn lemma_latch_follows_success(
    slot: GlobalSlotView,
    config: InstallConfigView,
    sinks: SinkOutcomeView,
    registered: bool,
)
    requires
        slot.wf(),
        !slot.active,
    ensures
        slot.installed(config, sinks, registered).0.wf(),
        slot.installed(config, sinks, registered).0.active <==> slot.installed(
            config,
            sinks,
            registered,
        ).1 is Ok,
        slot.installed(config, sinks, registered).1 is Ok ==> slot.installed(
            config,
            sinks,
            registered,
        ).0.dispatcher == Some(config.plan().dispatcher),
{
}

/// After one installation has succeeded, every later one reports a conflict
/// and changes nothing, so that records still reach the dispatcher that was
/// installed first.
pub proof fn lemma_second_install_is_rejected(
    slot: GlobalSlotView,
    first: InstallConfigView,
    first_sinks: SinkOutcomeView,
    first_registered: bool,
    second: InstallConfigView,
    second_sinks: SinkOutcomeView,
    second_registered: bool,
    record: RecordView,
)
    requires
        slot.wf(),
        slot.installed(first, first_sinks, first_registered).1 is Ok,
    ensures
        ({
            let after_first = slot.installed(first, first_sinks, first_registered).0;
            let (after_second, outcome) = after_first.installed(
                second,
                second_sinks,
                second_registered,
            );
            &&& outcome == Err::<(), InstallErrorView>(InstallErrorView::InstallConflict)
            &&& after_second == after_first
            &&& after_second.emissions(record) == after_first.emissions(record)
        }),
{
}

} // verus!
