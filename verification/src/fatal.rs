//! The fatal protocol: an error record that asks to be shown as `FATAL`,
//! and the callback that runs after it.

use vstd::prelude::*;
use vstd::string::*;
use crate::format::{FormatterPolicy, LevelLabel, FATAL_SENTINEL};
use crate::install::{lemma_installed_pipes_recognize_sentinel, GlobalSlot, InstallConfigView};
use crate::level::Level;
use crate::record::{Record, RecordView};

verus! {

/// The message of a fatal record: behind the sentinel where the logger is
/// active, as it is where some other logger will get it.
pub open spec fn fatal_message(active: bool, message: Seq<char>) -> Seq<char> {
    if active {
        FATAL_SENTINEL@ + message
    } else {
        message
    }
}

/// The record that a fatal call emits: an error from `target`, without a
/// timestamp yet.
pub open spec fn fatal_record(active: bool, target: Seq<char>, message: Seq<char>) -> RecordView {
    RecordView {
        target,
        level: Level::Error,
        message: fatal_message(active, message),
        timestamp: None,
    }
}

/// The callback that ends a fatal call, if there is one.
#[derive(Debug)]
pub struct FatalHook<F> {
    pub callback: Option<F>,
}

impl<F> FatalHook<F> {
    /// A hook that holds `callback`, or none.
    pub fn new(callback: Option<F>) -> (hook: FatalHook<F>)
        ensures
            hook.callback == callback,
    {
        FatalHook { callback }
    }
}

/// Sets the callback that runs whenever a fatal call has emitted its record.
/// It takes the place of the one that was set before.
pub fn set_on_fatal<F>(hook: &mut FatalHook<F>, on_fatal: F)
    ensures
        final(hook).callback == Some(on_fatal),
{
    hook.callback = Some(on_fatal);
}

/// What a fatal call asks of its caller: emit the record, then run the
/// callback, if there is one.
pub struct FatalStep<'a, F> {
    pub record: Record,
    pub callback: Option<&'a F>,
}

/// Decides what a fatal call from `target` with `message` does. The record
/// is an error; its message stands behind the sentinel exactly if the latch
/// of `slot` is set. The callback is the one that `hook` holds.
pub fn fatal<'a, F>(slot: &GlobalSlot, hook: &'a FatalHook<F>, target: &str, message: &str) -> (step:
    FatalStep<'a, F>)
    ensures
        step.record@ == fatal_record(slot@.active, target@, message@),
        match hook.callback {
            Some(callback) => step.callback == Some(&callback),
            None => step.callback is None,
        },
{
    let text = if slot.is_active() {
        let mut text = String::from_str(FATAL_SENTINEL);
        text.append(message);
        text
    } else {
        String::from_str(message)
    };
    let record = Record {
        target: String::from_str(target),
        level: Level::Error,
        message: text,
        timestamp: None,
    };
    FatalStep { record, callback: hook.callback.as_ref() }
}

/// A fatal record of an active logger is shown as `FATAL` by every policy
/// that looks for the sentinel, and the message that it shows is the
/// caller's own: the sentinel does not reach the line.
pub proof fn lemma_fatal_is_shown_as_fatal(
    policy: FormatterPolicy,
    target: Seq<char>,
    message: Seq<char>,
)
    requires
        policy.recognize_fatal_sentinel,
    ensures
        policy.label(fatal_record(true, target, message)) == LevelLabel::Fatal,
        policy.message_text(fatal_record(true, target, message)) == message,
{
}

/// The sentinel of a fatal call never reaches a sink of an installed
/// logger: whatever was asked for at installation, every pipe shows the
/// fatal record of the active logger as `FATAL`, with the caller's message.
pub proof fn lemma_installed_logger_hides_sentinel(
    config: InstallConfigView,
    index: int,
    target: Seq<char>,
    message: Seq<char>,
)
    requires
        0 <= index < config.pipes().len(),
    ensures
        config.plan().dispatcher.pipes[index].policy.label(fatal_record(true, target, message))
            == LevelLabel::Fatal,
        config.plan().dispatcher.pipes[index].policy.message_text(
            fatal_record(true, target, message),
        ) == message,
{
    lemma_installed_pipes_recognize_sentinel(config);
    lemma_fatal_is_shown_as_fatal(config.pipes()[index].policy, target, message);
}

} // verus!
