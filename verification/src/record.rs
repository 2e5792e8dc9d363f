//! The record that a caller hands to the logger.

use vstd::prelude::*;
use vstd::string::*;
use crate::level::Level;
use crate::timestamp::Timestamp;

verus! {

/// One log call: who sent it, how severe it is, what it says and, once it
/// has been taken in, the time at which it came in.
#[derive(Debug, PartialEq, Eq)]
pub struct Record {
    pub target: String,
    pub level: Level,
    pub message: String,
    pub timestamp: Option<Timestamp>,
}

/// A [`Record`] with its strings as sequences of characters.
pub struct RecordView {
    pub target: Seq<char>,
    pub level: Level,
    pub message: Seq<char>,
    pub timestamp: Option<Timestamp>,
}

impl RecordView {
    /// The same record with `timestamp` as the time it came in.
    pub open spec fn stamped(self, timestamp: Timestamp) -> RecordView {
        RecordView { timestamp: Some(timestamp), ..self }
    }

    /// The same record as it came in at `now`: with that time where the
    /// clock could be read, without a time where it could not.
    pub open spec fn received(self, now: Option<Timestamp>) -> RecordView {
        RecordView { timestamp: now, ..self }
    }
}

impl View for Record {
    type V = RecordView;

    open spec fn view(&self) -> RecordView {
        RecordView {
            target: self.target@,
            level: self.level,
            message: self.message@,
            timestamp: self.timestamp,
        }
    }
}

impl Clone for Record {
    /// A record with the same target, level, message and timestamp.
    fn clone(&self) -> (copy: Record)
        ensures
            copy@ == self@,
    {
        Record {
            target: self.target.clone(),
            level: self.level,
            message: self.message.clone(),
            timestamp: self.timestamp,
        }
    }
}

impl Record {
    /// A record that carries no timestamp yet.
    pub fn new(target: &str, level: Level, message: &str) -> (record: Record)
        ensures
            record@ == (RecordView {
                target: target@,
                level,
                message: message@,
                timestamp: None,
            }),
    {
        Record {
            target: String::from_str(target),
            level,
            message: String::from_str(message),
            timestamp: None,
        }
    }

    /// The same record as it came in at `now`: with that time where the
    /// clock could be read, without a time where it could not.
    pub fn received(self, now: Option<Timestamp>) -> (record: Record)
        ensures
            record@ == self@.received(now),
    {
        Record { target: self.target, level: self.level, message: self.message, timestamp: now }
    }

    /// The same record with `timestamp` as the time it came in.
    pub fn at(self, timestamp: Timestamp) -> (record: Record)
        ensures
            record@ == self@.stamped(timestamp),
    {
        Record {
            target: self.target,
            level: self.level,
            message: self.message,
            timestamp: Some(timestamp),
        }
    }
}

} // verus!
