//! The dispatcher: it decides whether a record passes, renders one line for
//! each of its pipes and hands the lines out in the order of the pipes.

use vstd::prelude::*;
use crate::format::FormatterPolicy;
use crate::level::{Level, LevelFilter};
use crate::record::{Record, RecordView};
use crate::target::TargetPolicy;
use crate::timestamp::Timestamp;

verus! {

/// Where a line goes. The dispatcher only names the sink; writing to it is
/// the caller's part.
#[derive(Clone, Copy, Debug, PartialEq, Eq, Structural)]
pub enum Sink {
    /// The standard output of the process.
    Stdout,
    /// A console that the caller brought along, in place of standard output.
    External,
    /// The log file, opened for appending.
    File,
}

impl Sink {
    /// What the sink puts behind a line: a line feed on standard output and
    /// in the file, nothing on a console of the caller's, which is handed the
    /// line as it is.
    pub open spec fn spec_terminator(self) -> Seq<char> {
        match self {
            Sink::Stdout => "\n"@,
            Sink::File => "\n"@,
            Sink::External => ""@,
        }
    }

    /// What the sink puts behind a line.
    pub fn terminator(self) -> (end: &'static str)
        ensures
            end@ == self.spec_terminator(),
    {
        match self {
            Sink::Stdout => "\n",
            Sink::File => "\n",
            Sink::External => "",
        }
    }
}

/// A sink and the way it wants its lines.
#[derive(Clone, Copy, Debug, PartialEq, Eq, Structural)]
pub struct Pipe {
    pub policy: FormatterPolicy,
    pub sink: Sink,
}

/// One line, owed to one sink.
#[derive(Debug, PartialEq, Eq)]
pub struct Emission {
    pub sink: Sink,
    pub line: String,
}

/// An [`Emission`] with its line as a sequence of characters.
pub struct EmissionView {
    pub sink: Sink,
    pub line: Seq<char>,
}

impl View for Emission {
    type V = EmissionView;

    open spec fn view(&self) -> EmissionView {
        EmissionView { sink: self.sink, line: self.line@ }
    }
}

impl Clone for Emission {
    /// The same line for the same sink.
    fn clone(&self) -> (copy: Emission)
        ensures
            copy@ == self@,
    {
        Emission { sink: self.sink, line: self.line.clone() }
    }
}

/// The views of a list of emissions, in the same order.
pub open spec fn emission_views(emissions: Seq<Emission>) -> Seq<EmissionView> {
    Seq::new(emissions.len(), |i: int| emissions[i]@)
}

/// A threshold, a target layout and an ordered list of pipes.
#[derive(Debug, PartialEq, Eq)]
pub struct Dispatcher {
    pub threshold: LevelFilter,
    pub target: TargetPolicy,
    pub pipes: Vec<Pipe>,
}

/// A [`Dispatcher`] with its pipes as a sequence.
pub struct DispatcherView {
    pub threshold: LevelFilter,
    pub target: TargetPolicy,
    pub pipes: Seq<Pipe>,
}

impl View for Dispatcher {
    type V = DispatcherView;

    open spec fn view(&self) -> DispatcherView {
        DispatcherView { threshold: self.threshold, target: self.target, pipes: self.pipes@ }
    }
}

impl Clone for Dispatcher {
    /// A dispatcher with the same threshold, target layout and pipes.
    fn clone(&self) -> (copy: Dispatcher)
        ensures
            copy@ == self@,
    {
        let mut pipes: Vec<Pipe> = Vec::new();
        let mut index: usize = 0;
        while index < self.pipes.len()
            invariant
                index <= self.pipes@.len(),
                pipes@ == self.pipes@.take(index as int),
            decreases self.pipes@.len() - index,
        {
            pipes.push(self.pipes[index]);
            index = index + 1;
        }
        assert(pipes@ =~= self.pipes@);
        Dispatcher { threshold: self.threshold, target: self.target, pipes }
    }
}

impl DispatcherView {
    /// Whether records of level `level` pass the threshold.
    pub open spec fn enabled(self, level: Level) -> bool {
        self.threshold.spec_accepts(level)
    }

    /// What the pipe at `index` is owed for `record`: the record's line under
    /// the pipe's policy, for the pipe's sink.
    pub open spec fn emission(self, index: int, record: RecordView) -> EmissionView {
        EmissionView {
            sink: self.pipes[index].sink,
            line: self.pipes[index].policy.line(self.target, record),
        }
    }

    /// Everything that `record` gives rise to: nothing where it does not pass
    /// the threshold, else one emission for each pipe, in the order of the
    /// pipes.
    pub open spec fn emissions(self, record: RecordView) -> Seq<EmissionView> {
        if self.enabled(record.level) {
            Seq::new(self.pipes.len(), |i: int| self.emission(i, record))
        } else {
            Seq::empty()
        }
    }
}

/// A record that does not pass the threshold reaches no sink: none where the
/// threshold is `Off`, and none where the record is less severe than the
/// threshold.
pub proof fn lemma_dropped_record_reaches_no_sink(dispatcher: DispatcherView, record: RecordView)
    ensures
        !dispatcher.enabled(record.level) ==> dispatcher.emissions(record).len() == 0,
        dispatcher.threshold == LevelFilter::Off ==> dispatcher.emissions(record).len() == 0,
        forall|threshold: Level|
            dispatcher.threshold == LevelFilter::AtLeast(threshold) && record.level.spec_severity()
                < threshold.spec_severity() ==> dispatcher.emissions(record).len() == 0,
{
}

/// A record that passes the threshold gives every pipe exactly one line: as
/// many emissions as pipes, the one at each position for the sink of the pipe
/// at that position and rendered under that pipe's policy.
pub proof fn lemma_passed_record_reaches_every_sink(dispatcher: DispatcherView, record: RecordView)
    requires
        dispatcher.threshold.spec_accepts(record.level),
    ensures
        dispatcher.emissions(record).len() == dispatcher.pipes.len(),
        forall|i: int|
            0 <= i < dispatcher.pipes.len() ==> {
                &&& (#[trigger] dispatcher.emissions(record)[i]).sink == dispatcher.pipes[i].sink
                &&& dispatcher.emissions(record)[i].line == dispatcher.pipes[i].policy.line(
                    dispatcher.target,
                    record,
                )
            },
{
}

impl Dispatcher {
    /// A dispatcher with the given threshold, target layout and pipes.
    pub fn new(threshold: LevelFilter, target: TargetPolicy, pipes: Vec<Pipe>) -> (dispatcher:
        Dispatcher)
        ensures
            dispatcher@ == (DispatcherView { threshold, target, pipes: pipes@ }),
    {
        Dispatcher { threshold, target, pipes }
    }

    /// Whether records of level `level` pass the threshold.
    pub fn enabled(&self, level: Level) -> (pass: bool)
        ensures
            pass == self@.enabled(level),
    {
        self.threshold.accepts(level)
    }

    /// Renders `record` as it stands, with the timestamp it carries or
    /// without one, for every pipe.
    pub fn emit(&self, record: &Record) -> (out: Vec<Emission>)
        ensures
            emission_views(out@) == self@.emissions(record@),
            !self@.enabled(record@.level) ==> out@.len() == 0,
            self@.enabled(record@.level) ==> out@.len() == self.pipes@.len(),
    {
        let mut out: Vec<Emission> = Vec::new();
        if self.enabled(record.level) {
            let mut index: usize = 0;
            while index < self.pipes.len()
                invariant
                    index <= self.pipes@.len(),
                    out@.len() == index,
                    forall|i: int| 0 <= i < index ==> out@[i]@ == self@.emission(i, record@),
                decreases self.pipes@.len() - index,
            {
                let pipe = self.pipes[index];
                let line = pipe.policy.format(&self.target, record);
                out.push(Emission { sink: pipe.sink, line });
                index = index + 1;
            }
        }
        out
    }

    /// Takes in a record that came in at `now`, the time that the caller
    /// read from the clock, or nothing where the clock could not be read. The
    /// record is rendered for every pipe as it came in: with that time, or
    /// without any. A record that does not pass the threshold reaches no
    /// pipe.
    pub fn log(&self, record: Record, now: Option<Timestamp>) -> (out: Vec<Emission>)
        ensures
            emission_views(out@) == self@.emissions(record@.received(now)),
            !self@.enabled(record@.level) ==> out@.len() == 0,
            self@.enabled(record@.level) ==> out@.len() == self.pipes@.len(),
    {
        let received = record.received(now);
        self.emit(&received)
    }

    /// Hands out what is held back. Lines are never held back, so this is
    /// always nothing.
    pub fn flush(&self) -> (out: Vec<Emission>)
        ensures
            out@.len() == 0,
    {
        Vec::new()
    }
}

} // verus!
