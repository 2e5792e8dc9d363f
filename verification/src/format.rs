//! The layout of one line:
//! `[TIMESTAMP " | "] TARGET " | " LEVEL " | " MESSAGE`.

use vstd::prelude::*;
use vstd::string::*;
use vstd::utf8::encode_utf8;
use crate::level::Level;
use crate::record::{Record, RecordView};
use crate::target::{rendered_target, TargetPolicy};
use crate::text::{
    append_fitted,
    fitted,
    free_of_escapes,
    lemma_fitted_free_of_escapes,
    lemma_joined_free_of_escapes,
};
use crate::timestamp::{lemma_timestamp_free_of_escapes, lemma_timestamp_widths, Timestamp};

verus! {

/// The prefix by which a message asks to be shown as fatal.
pub const FATAL_SENTINEL: &'static str = "$goolog:fatal=";

/// What stands between two fields of a line.
pub const SEPARATOR: &'static str = " | ";

/// The escape that ends every colored or emphasized stretch.
pub const ANSI_RESET: &'static str = "\x1b[0m";

/// The escape that opens a dim and bold stretch.
pub const ANSI_DIM_BOLD: &'static str = "\x1b[2m\x1b[1m";

/// The width of the level field where the level is colored.
pub const COLORED_LEVEL_WIDTH: usize = 5;

/// The width of the level field of a plain formatter that does not look for
/// the fatal sentinel.
pub const PLAIN_LEVEL_WIDTH: usize = 5;

/// The width of the level field of a plain formatter that looks for the
/// fatal sentinel.
pub const FATAL_AWARE_LEVEL_WIDTH: usize = 14;

/// Whether `message` begins with the fatal sentinel.
pub open spec fn has_fatal_sentinel(message: Seq<char>) -> bool {
    FATAL_SENTINEL@.is_prefix_of(message)
}

/// The name that a line shows for a record's level: one of the five levels,
/// or `FATAL` for an error that carried the fatal sentinel.
#[derive(Clone, Copy, Debug, PartialEq, Eq, Structural)]
pub enum LevelLabel {
    Trace,
    Debug,
    Info,
    Warn,
    Error,
    Fatal,
}

impl LevelLabel {
    /// The label of a level that is shown as it is.
    pub open spec fn spec_of(level: Level) -> LevelLabel {
        match level {
            Level::Trace => LevelLabel::Trace,
            Level::Debug => LevelLabel::Debug,
            Level::Info => LevelLabel::Info,
            Level::Warn => LevelLabel::Warn,
            Level::Error => LevelLabel::Error,
        }
    }

    /// The label of a level that is shown as it is.
    #[verifier::when_used_as_spec(spec_of)]
    pub fn of(level: Level) -> (label: LevelLabel)
        ensures
            label == LevelLabel::spec_of(level),
    {
        match level {
            Level::Trace => LevelLabel::Trace,
            Level::Debug => LevelLabel::Debug,
            Level::Info => LevelLabel::Info,
            Level::Warn => LevelLabel::Warn,
            Level::Error => LevelLabel::Error,
        }
    }

    /// The text of the label.
    pub open spec fn spec_name(self) -> Seq<char> {
        match self {
            LevelLabel::Trace => "TRACE"@,
            LevelLabel::Debug => "DEBUG"@,
            LevelLabel::Info => "INFO"@,
            LevelLabel::Warn => "WARN"@,
            LevelLabel::Error => "ERROR"@,
            LevelLabel::Fatal => "FATAL"@,
        }
    }

    /// The text of the label.
    pub fn name(self) -> (name: &'static str)
        ensures
            name@ == self.spec_name(),
    {
        match self {
            LevelLabel::Trace => "TRACE",
            LevelLabel::Debug => "DEBUG",
            LevelLabel::Info => "INFO",
            LevelLabel::Warn => "WARN",
            LevelLabel::Error => "ERROR",
            LevelLabel::Fatal => "FATAL",
        }
    }

    /// The escape that opens the label's color: white for `TRACE`, blue for
    /// `DEBUG`, green for `INFO`, yellow for `WARN`, red for `ERROR` and
    /// `FATAL`.
    pub open spec fn spec_color(self) -> Seq<char> {
        match self {
            LevelLabel::Trace => "\x1b[37m"@,
            LevelLabel::Debug => "\x1b[34m"@,
            LevelLabel::Info => "\x1b[32m"@,
            LevelLabel::Warn => "\x1b[33m"@,
            LevelLabel::Error => "\x1b[31m"@,
            LevelLabel::Fatal => "\x1b[31m"@,
        }
    }

    /// The escape that opens the label's color.
    pub fn color(self) -> (escape: &'static str)
        ensures
            escape@ == self.spec_color(),
    {
        match self {
            LevelLabel::Trace => "\x1b[37m",
            LevelLabel::Debug => "\x1b[34m",
            LevelLabel::Info => "\x1b[32m",
            LevelLabel::Warn => "\x1b[33m",
            LevelLabel::Error => "\x1b[31m",
            LevelLabel::Fatal => "\x1b[31m",
        }
    }
}

/// How one sink wants its lines.
#[derive(Clone, Copy, Debug, PartialEq, Eq, Structural)]
pub struct FormatterPolicy {
    /// Whether the line begins with the record's timestamp, if it has one.
    pub include_timestamp: bool,
    /// Whether the timestamp and the level are wrapped in ANSI escapes.
    pub colorize: bool,
    /// Whether an error that begins with the fatal sentinel is shown as
    /// `FATAL`, without the sentinel.
    pub recognize_fatal_sentinel: bool,
}

impl FormatterPolicy {
    /// Whether a record is shown as fatal under this policy: the policy looks
    /// for the sentinel, the record is an error, and its message begins with
    /// the sentinel.
    pub open spec fn shows_fatal(self, record: RecordView) -> bool {
        &&& self.recognize_fatal_sentinel
        &&& record.level == Level::Error
        &&& has_fatal_sentinel(record.message)
    }

    /// The label in the level field of a record's line.
    pub open spec fn label(self, record: RecordView) -> LevelLabel {
        if self.shows_fatal(record) {
            LevelLabel::Fatal
        } else {
            LevelLabel::spec_of(record.level)
        }
    }

    /// The message as it stands in a record's line: without the sentinel
    /// where the record is shown as fatal, unchanged otherwise.
    pub open spec fn message_text(self, record: RecordView) -> Seq<char> {
        if self.shows_fatal(record) {
            record.message.skip(FATAL_SENTINEL@.len() as int)
        } else {
            record.message
        }
    }

    /// The number of characters that the label is cut or filled up to: five
    /// where the level is colored; without color, fourteen under a policy
    /// that looks for the fatal sentinel and five under one that does not.
    pub open spec fn spec_level_width(&self) -> usize {
        if self.colorize {
            COLORED_LEVEL_WIDTH
        } else if self.recognize_fatal_sentinel {
            FATAL_AWARE_LEVEL_WIDTH
        } else {
            PLAIN_LEVEL_WIDTH
        }
    }

    /// The level field for a label: the label, left-aligned, cut or filled
    /// up to the policy's width; with color, between the label's color
    /// escape and the reset.
    pub open spec fn level_field(self, label: LevelLabel) -> Seq<char> {
        let shown = fitted(label.spec_name(), self.spec_level_width() as nat);
        if self.colorize {
            label.spec_color() + shown + ANSI_RESET@
        } else {
            shown
        }
    }

    /// The timestamp field: date, separator, time of day; with color, date
    /// and time each between the dim-and-bold escape and the reset, and the
    /// separator between them left as it is.
    pub open spec fn timestamp_field(self, timestamp: Timestamp) -> Seq<char> {
        if self.colorize {
            ANSI_DIM_BOLD@ + timestamp.date_text() + ANSI_RESET@ + SEPARATOR@ + ANSI_DIM_BOLD@
                + timestamp.time_text() + ANSI_RESET@
        } else {
            timestamp.date_text() + SEPARATOR@ + timestamp.time_text()
        }
    }

    /// Target, level and message of a line, with the separators between
    /// them.
    pub open spec fn body(self, target: TargetPolicy, record: RecordView) -> Seq<char> {
        rendered_target(record.target, target.fixed_width as nat) + SEPARATOR@ + self.level_field(
            self.label(record),
        ) + SEPARATOR@ + self.message_text(record)
    }

    /// The whole line of a record. The timestamp and its separator come
    /// first where the policy asks for them and the record has a timestamp.
    pub open spec fn line(self, target: TargetPolicy, record: RecordView) -> Seq<char> {
        match record.timestamp {
            Some(timestamp) if self.include_timestamp => self.timestamp_field(timestamp)
                + SEPARATOR@ + self.body(target, record),
            _ => self.body(target, record),
        }
    }

    /// The policy for a terminal: timestamp, colors, fatal sentinel
    /// recognized.
    pub open spec fn spec_decorated() -> FormatterPolicy {
        FormatterPolicy { include_timestamp: true, colorize: true, recognize_fatal_sentinel: true }
    }

    /// The policy for a file: timestamp, no colors, fatal sentinel
    /// recognized.
    pub open spec fn spec_plain() -> FormatterPolicy {
        FormatterPolicy { include_timestamp: true, colorize: false, recognize_fatal_sentinel: true }
    }

    /// The policy for a terminal: timestamp, colors, fatal sentinel
    /// recognized.
    #[verifier::when_used_as_spec(spec_decorated)]
    pub fn decorated() -> (policy: FormatterPolicy)
        ensures
            policy == FormatterPolicy::spec_decorated(),
    {
        FormatterPolicy { include_timestamp: true, colorize: true, recognize_fatal_sentinel: true }
    }

    /// The policy for a file: timestamp, no colors, fatal sentinel
    /// recognized.
    #[verifier::when_used_as_spec(spec_plain)]
    pub fn plain() -> (policy: FormatterPolicy)
        ensures
            policy == FormatterPolicy::spec_plain(),
    {
        FormatterPolicy { include_timestamp: true, colorize: false, recognize_fatal_sentinel: true }
    }

    /// The number of characters that the label is cut or filled up to.
    #[verifier::when_used_as_spec(spec_level_width)]
    pub fn level_width(&self) -> (width: usize)
        ensures
            width == self.spec_level_width(),
    {
        if self.colorize {
            COLORED_LEVEL_WIDTH
        } else if self.recognize_fatal_sentinel {
            FATAL_AWARE_LEVEL_WIDTH
        } else {
            PLAIN_LEVEL_WIDTH
        }
    }

    /// Renders the line of `record` for a sink with this policy.
    pub fn format(&self, target: &TargetPolicy, record: &Record) -> (out: String)
        ensures
            out@ == self.line(*target, record@),
    {
        let mut out = String::new();
        if self.include_timestamp {
            if let Some(timestamp) = record.timestamp {
                self.append_timestamp_field(&mut out, &timestamp);
                out.append(SEPARATOR);
            }
        }
        let fatal = self.recognize_fatal_sentinel && record.level == Level::Error
            && starts_with_sentinel(record.message.as_str());
        let label = if fatal {
            LevelLabel::Fatal
        } else {
            LevelLabel::of(record.level)
        };
        let shown_target = target.render(record.target.as_str()).to_string();
        out.append(shown_target.as_str());
        out.append(SEPARATOR);
        self.append_level_field(&mut out, label);
        out.append(SEPARATOR);
        let message = record.message.as_str();
        if fatal {
            let length = message.unicode_len();
            let skipped = FATAL_SENTINEL.unicode_len();
            out.append(message.substring_char(skipped, length));
        } else {
            out.append(message);
        }
        out
    }

    /// Appends the timestamp field.
    fn append_timestamp_field(&self, out: &mut String, timestamp: &Timestamp)
        ensures
            final(out)@ == old(out)@ + self.timestamp_field(*timestamp),
    {
        let date = timestamp.date();
        let time = timestamp.time();
        if self.colorize {
            out.append(ANSI_DIM_BOLD);
            out.append(date.as_str());
            out.append(ANSI_RESET);
            out.append(SEPARATOR);
            out.append(ANSI_DIM_BOLD);
            out.append(time.as_str());
            out.append(ANSI_RESET);
        } else {
            out.append(date.as_str());
            out.append(SEPARATOR);
            out.append(time.as_str());
        }
    }

    /// Appends the level field for `label`.
    fn append_level_field(&self, out: &mut String, label: LevelLabel)
        ensures
            final(out)@ == old(out)@ + self.level_field(label),
    {
        if self.colorize {
            out.append(label.color());
            append_fitted(out, label.name(), self.level_width());
            out.append(ANSI_RESET);
        } else {
            append_fitted(out, label.name(), self.level_width());
        }
    }
}

/// An error whose message begins with the fatal sentinel is shown as
/// `FATAL` under a policy that looks for the sentinel, and the message shown
/// is what follows the sentinel: the line holds the level field of `FATAL`
/// between the target and that rest of the message.
pub proof fn lemma_sentinel_is_rewritten(
    policy: FormatterPolicy,
    target: TargetPolicy,
    record: RecordView,
)
    requires
        policy.recognize_fatal_sentinel,
        record.level == Level::Error,
        has_fatal_sentinel(record.message),
    ensures
        policy.label(record) == LevelLabel::Fatal,
        policy.label(record).spec_name() == "FATAL"@,
        FATAL_SENTINEL@ + policy.message_text(record) == record.message,
        policy.body(target, record) == rendered_target(record.target, target.fixed_width as nat)
            + SEPARATOR@ + policy.level_field(LevelLabel::Fatal) + SEPARATOR@ + record.message.skip(
            FATAL_SENTINEL@.len() as int,
        ),
{
}

/// Only an error that carried the sentinel, under a policy that looks for
/// it, is ever shown as `FATAL`.
pub proof fn lemma_fatal_only_by_sentinel(policy: FormatterPolicy, record: RecordView)
    ensures
        policy.label(record) == LevelLabel::Fatal <==> policy.shows_fatal(record),
{
}

/// The level field of a policy without color is exactly as wide as the
/// policy says, whatever the label.
pub proof fn lemma_plain_level_field_width(policy: FormatterPolicy, label: LevelLabel)
    requires
        !policy.colorize,
    ensures
        policy.level_field(label).len() == policy.spec_level_width(),
{
}

/// A line without color, with a target of fixed width, has its fields at
/// fixed places: with the timestamp of a calendar date in a four-digit year,
/// the date takes ten characters and the time of day eight, and after them
/// stand the target in its width and the level in the policy's width, each
/// field parted from the next by the separator of three characters.
pub proof fn lemma_plain_line_layout(
    policy: FormatterPolicy,
    target: TargetPolicy,
    record: RecordView,
    timestamp: Timestamp,
)
    requires
        !policy.colorize,
        policy.include_timestamp,
        target.fixed_width > 0,
        record.timestamp == Some(timestamp),
        timestamp.is_calendar(),
        0 <= timestamp.year <= 9999,
    ensures
        policy.line(target, record) == timestamp.date_text() + SEPARATOR@ + timestamp.time_text()
            + SEPARATOR@ + rendered_target(record.target, target.fixed_width as nat) + SEPARATOR@
            + fitted(policy.label(record).spec_name(), policy.spec_level_width() as nat)
            + SEPARATOR@ + policy.message_text(record),
        policy.line(target, record).len() == 10 + 3 + 8 + 3 + target.fixed_width + 3
            + policy.spec_level_width() + 3 + policy.message_text(record).len(),
{
    reveal_strlit(" | ");
    lemma_timestamp_widths(timestamp);
}

/// A policy without color brings no ANSI sequence into a line: where
/// neither the target nor the message holds an escape character, the line
/// holds none.
pub proof fn lemma_plain_line_free_of_escapes(
    policy: FormatterPolicy,
    target: TargetPolicy,
    record: RecordView,
)
    requires
        !policy.colorize,
        free_of_escapes(record.target),
        free_of_escapes(record.message),
    ensures
        free_of_escapes(policy.line(target, record)),
{
    reveal_strlit(" | ");
    reveal_strlit("TRACE");
    reveal_strlit("DEBUG");
    reveal_strlit("INFO");
    reveal_strlit("WARN");
    reveal_strlit("ERROR");
    reveal_strlit("FATAL");
    let label = policy.label(record);
    let shown_target = rendered_target(record.target, target.fixed_width as nat);
    let level = policy.level_field(label);
    let message = policy.message_text(record);
    lemma_fitted_free_of_escapes(label.spec_name(), policy.spec_level_width() as nat);
    lemma_fitted_free_of_escapes(record.target, target.fixed_width as nat);
    lemma_joined_free_of_escapes(shown_target, SEPARATOR@);
    lemma_joined_free_of_escapes(shown_target + SEPARATOR@, level);
    lemma_joined_free_of_escapes(shown_target + SEPARATOR@ + level, SEPARATOR@);
    lemma_joined_free_of_escapes(shown_target + SEPARATOR@ + level + SEPARATOR@, message);
    let body = policy.body(target, record);
    match record.timestamp {
        Some(timestamp) if policy.include_timestamp => {
            lemma_timestamp_free_of_escapes(timestamp);
            let date = timestamp.date_text();
            let time = timestamp.time_text();
            lemma_joined_free_of_escapes(date, SEPARATOR@);
            lemma_joined_free_of_escapes(date + SEPARATOR@, time);
            lemma_joined_free_of_escapes(date + SEPARATOR@ + time, SEPARATOR@);
            lemma_joined_free_of_escapes(date + SEPARATOR@ + time + SEPARATOR@, body);
        },
        _ => {},
    }
}

/// Rendering is a function of the policy, the target layout and what the
/// record holds: two records with the same target, level, message and
/// timestamp have the same line, character for character and so, encoded
/// as UTF-8, byte for byte.
pub proof fn lemma_rendering_is_repeatable(
    policy: FormatterPolicy,
    target: TargetPolicy,
    first: Record,
    second: Record,
)
    requires
        first@ == second@,
    ensures
        policy.line(target, first@) == policy.line(target, second@),
        encode_utf8(policy.line(target, first@)) == encode_utf8(policy.line(target, second@)),
{
}

/// Whether `message` begins with the fatal sentinel.
pub fn starts_with_sentinel(message: &str) -> (found: bool)
    ensures
        found == has_fatal_sentinel(message@),
{
    let wanted = FATAL_SENTINEL.unicode_len();
    if message.unicode_len() < wanted {
        return false;
    }
    let mut at: usize = 0;
    while at < wanted
        invariant
            at <= wanted,
            wanted == FATAL_SENTINEL@.len(),
            wanted <= message@.len(),
            forall|i: int| 0 <= i < at ==> message@[i] == FATAL_SENTINEL@[i],
        decreases wanted - at,
    {
        if message.get_char(at) != FATAL_SENTINEL.get_char(at) {
            return false;
        }
        at = at + 1;
    }
    true
}

} // verus!
