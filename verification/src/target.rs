//! Rendering of a record's target to a fixed number of characters.

use vstd::prelude::*;
use vstd::string::*;
use vstd::std_specs::convert::FromSpecImpl;
use crate::text::{append_spaces, fitted, spaces};

verus! {

/// The width that a target is rendered to when nothing else was asked for.
pub const DEFAULT_TARGET_LENGTH: u32 = 16;

/// Some characters followed by a run of spaces, not yet written out.
#[derive(Clone, Copy, Debug, PartialEq, Eq)]
pub struct DisplayChars<'a> {
    pub chars: Option<&'a str>,
    pub missing: usize,
}

/// What a [`DisplayChars`] stands for: the characters it shows, if any, and
/// the number of spaces that follow them.
pub struct DisplayCharsView {
    pub chars: Option<Seq<char>>,
    pub missing: nat,
}

impl DisplayCharsView {
    /// The text that is written out: the characters, then the spaces.
    pub open spec fn rendered(self) -> Seq<char> {
        match self.chars {
            Some(chars) => chars + spaces(self.missing),
            None => spaces(self.missing),
        }
    }
}

impl<'a> View for DisplayChars<'a> {
    type V = DisplayCharsView;

    open spec fn view(&self) -> DisplayCharsView {
        DisplayCharsView {
            chars: match self.chars {
                Some(chars) => Some(chars@),
                None => None,
            },
            missing: self.missing as nat,
        }
    }
}

impl<'a> DisplayChars<'a> {
    /// Shows `chars`, if there are any, followed by `missing` spaces.
    pub fn new(chars: Option<&'a str>, missing: usize) -> (shown: Self)
        ensures
            shown.chars == chars,
            shown.missing == missing,
    {
        Self { chars, missing }
    }

    /// Shows the first `count` characters of `value`, or all of it where it
    /// has fewer, with no space after them.
    pub fn prefix(value: &'a str, count: usize) -> (shown: DisplayChars<'a>)
        ensures
            shown@ == (DisplayCharsView {
                chars: Some(
                    value@.take(
                        if count <= value@.len() {
                            count as int
                        } else {
                            value@.len() as int
                        },
                    ),
                ),
                missing: 0,
            }),
    {
        let length = value.unicode_len();
        let kept = if count <= length {
            count
        } else {
            length
        };
        DisplayChars::new(Some(value.substring_char(0, kept)), 0)
    }

    /// Writes the characters and the spaces that follow them into a string.
    pub fn to_string(&self) -> (out: String)
        ensures
            out@ == self@.rendered(),
    {
        let mut out = match self.chars {
            Some(chars) => String::from_str(chars),
            None => String::new(),
        };
        append_spaces(&mut out, self.missing);
        out
    }
}

impl<'a> FromSpecImpl<&'a str> for DisplayChars<'a> {
    open spec fn obeys_from_spec() -> bool {
        true
    }

    open spec fn from_spec(value: &'a str) -> Self {
        DisplayChars { chars: Some(value), missing: 0 }
    }
}

impl<'a> From<&'a str> for DisplayChars<'a> {
    /// Shows `value` as it is, with no space after it.
    fn from(value: &'a str) -> (shown: Self) {
        Self { chars: Some(value), missing: 0 }
    }
}

/// The target rendered to `width` characters: cut after the first `width`
/// characters, or filled up with spaces on the right. A width of zero leaves
/// the target as it is.
pub open spec fn rendered_target(target: Seq<char>, width: nat) -> Seq<char> {
    if width == 0 {
        target
    } else {
        fitted(target, width)
    }
}

/// How a target is laid out for `width` characters: all of it where the
/// width is zero; its first `width` characters where it has that many; else
/// all of it and the number of spaces that are missing.
pub open spec fn target_layout(target: Seq<char>, width: nat) -> DisplayCharsView {
    if width == 0 {
        DisplayCharsView { chars: Some(target), missing: 0 }
    } else if target.len() >= width {
        DisplayCharsView { chars: Some(target.take(width as int)), missing: 0 }
    } else {
        DisplayCharsView { chars: Some(target), missing: (width - target.len()) as nat }
    }
}

/// Written out, the layout of a target is the rendered target.
pub proof fn lemma_layout_renders_target(target: Seq<char>, width: nat)
    ensures
        target_layout(target, width).rendered() == rendered_target(target, width),
{
}

/// With a width above zero the rendered target has exactly that many
/// characters, whatever the target.
pub proof fn lemma_rendered_target_width(target: Seq<char>, width: nat)
    requires
        width > 0,
    ensures
        rendered_target(target, width).len() == width,
{
}

/// With a width of zero the target is rendered unchanged.
pub proof fn lemma_rendered_target_verbatim(target: Seq<char>)
    ensures
        rendered_target(target, 0) == target,
{
}

/// How targets are laid out in a line.
#[derive(Clone, Copy, Debug, PartialEq, Eq, Structural)]
pub struct TargetPolicy {
    /// The number of characters every target is rendered to; zero switches
    /// the fixed width off.
    pub fixed_width: u32,
}

impl Default for TargetPolicy {
    /// Targets are rendered to sixteen characters.
    fn default() -> (policy: TargetPolicy)
        ensures
            policy.fixed_width == DEFAULT_TARGET_LENGTH,
    {
        TargetPolicy { fixed_width: DEFAULT_TARGET_LENGTH }
    }
}

impl TargetPolicy {
    /// A policy that renders targets to `fixed_width` characters.
    pub fn new(fixed_width: u32) -> (policy: TargetPolicy)
        ensures
            policy.fixed_width == fixed_width,
    {
        TargetPolicy { fixed_width }
    }

    /// Lays out `target` under this policy: its first `fixed_width`
    /// characters, or all of it and the spaces that are missing. Written
    /// out, that is the rendered target, which is `fixed_width` characters
    /// long unless the width is zero.
    pub fn render<'a>(&self, target: &'a str) -> (shown: DisplayChars<'a>)
        ensures
            shown@ == target_layout(target@, self.fixed_width as nat),
            shown@.rendered() == rendered_target(target@, self.fixed_width as nat),
            self.fixed_width > 0 ==> shown@.rendered().len() == self.fixed_width,
    {
        proof {
            lemma_layout_renders_target(target@, self.fixed_width as nat);
        }
        if self.fixed_width == 0 {
            DisplayChars::from(target)
        } else {
            let width = self.fixed_width as usize;
            let count = target.unicode_len();
            if count >= width {
                DisplayChars::prefix(target, width)
            } else {
                DisplayChars::new(Some(target), width - count)
            }
        }
    }
}

/// Sets the number of characters that targets are rendered to. Zero switches
/// the fixed width off.
pub fn set_target_length(policy: &mut TargetPolicy, target_length: u32)
    ensures
        final(policy).fixed_width == target_length,
{
    policy.fixed_width = target_length;
}

} // verus!
