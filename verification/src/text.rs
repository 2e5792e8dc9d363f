//! Small building blocks for strings, stated over sequences of characters.

use vstd::prelude::*;
use vstd::string::*;

verus! {

/// `n` ASCII spaces.
pub open spec fn spaces(n: nat) -> Seq<char> {
    Seq::new(n, |i: int| ' ')
}

/// Appends `n` ASCII spaces to `out`.
pub fn append_spaces(out: &mut String, n: usize)
    ensures
        final(out)@ == old(out)@ + spaces(n as nat),
{
    let mut done: usize = 0;
    while done < n
        invariant
            done <= n,
            out@ == old(out)@ + spaces(done as nat),
        decreases n - done,
    {
        out.append(" ");
        proof {
            reveal_strlit(" ");
        }
        done = done + 1;
    }
}

/// `text` brought to exactly `width` characters: cut after the first `width`
/// characters, or filled up with spaces on the right.
pub open spec fn fitted(text: Seq<char>, width: nat) -> Seq<char> {
    if text.len() >= width {
        text.take(width as int)
    } else {
        text + spaces((width - text.len()) as nat)
    }
}

/// Appends `text`, cut or filled up with spaces to exactly `width` characters.
pub fn append_fitted(out: &mut String, text: &str, width: usize)
    ensures
        final(out)@ == old(out)@ + fitted(text@, width as nat),
{
    let count = text.unicode_len();
    if count >= width {
        out.append(text.substring_char(0, width));
    } else {
        out.append(text);
        append_spaces(out, width - count);
    }
}

/// Whether `text` holds no escape character, the character that every ANSI
/// sequence begins with.
pub open spec fn free_of_escapes(text: Seq<char>) -> bool {
    forall|i: int| 0 <= i < text.len() ==> text[i] != '\x1b'
}

/// Two texts joined hold no escape character exactly if neither does.
pub proof fn lemma_joined_free_of_escapes(first: Seq<char>, second: Seq<char>)
    ensures
        free_of_escapes(first + second) <==> free_of_escapes(first) && free_of_escapes(second),
{
    let joined = first + second;
    if free_of_escapes(joined) {
        assert forall|i: int| 0 <= i < first.len() implies first[i] != '\x1b' by {
            assert(joined[i] == first[i]);
        }
        assert forall|i: int| 0 <= i < second.len() implies second[i] != '\x1b' by {
            assert(joined[first.len() + i] == second[i]);
        }
    }
}

/// Cutting a text or filling it up with spaces brings in no escape
/// character.
pub proof fn lemma_fitted_free_of_escapes(text: Seq<char>, width: nat)
    requires
        free_of_escapes(text),
    ensures
        free_of_escapes(fitted(text, width)),
{
}

} // verus!
