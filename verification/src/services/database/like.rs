//! Patterns for `LIKE` that stand for a text itself: a caller's text is
//! searched for as it is, whatever characters it holds.

use vstd::prelude::*;

verus! {

/// The character that takes the special meaning from the one after it.
pub const ESCAPE: char = '\\';

/// The characters that `LIKE` does not take for themselves: `%` stands for
/// any text, `_` for any one character, and the escape character for the
/// character after it.
pub open spec fn is_special(c: char) -> bool {
    c == '%' || c == '_' || c == ESCAPE
}

/// `c` as it stands in a pattern where it is meant itself: after the
/// escape character where it is special.
pub open spec fn escaped_char(c: char) -> Seq<char> {
    if is_special(c) {
        seq![ESCAPE, c]
    } else {
        seq![c]
    }
}

/// The pattern that stands for `text` itself: each of its characters, the
/// special ones escaped.
pub open spec fn escaped(text: Seq<char>) -> Seq<char>
    decreases text.len(),
{
    if text.len() == 0 {
        Seq::empty()
    } else {
        escaped_char(text[0]) + escaped(text.drop_first())
    }
}

/// The pattern that matches the texts in which `text` occurs: anything,
/// then `text` itself, then anything.
pub open spec fn containing(text: Seq<char>) -> Seq<char> {
    seq!['%'] + escaped(text) + seq!['%']
}

/// The text that `pattern` stands for, where it stands for one text only:
/// a character after the escape character is itself, a character that is
/// not special is itself, and a bare `%` or `_`, or an escape character
/// with nothing after it, leaves the pattern without such a text.
pub open spec fn literal(pattern: Seq<char>) -> Option<Seq<char>>
    decreases pattern.len(),
{
    if pattern.len() == 0 {
        Some(Seq::empty())
    } else if pattern[0] == ESCAPE {
        if pattern.len() < 2 {
            None
        } else {
            match literal(pattern.skip(2)) {
                Some(rest) => Some(seq![pattern[1]] + rest),
                None => None,
            }
        }
    } else if is_special(pattern[0]) {
        None
    } else {
        match literal(pattern.drop_first()) {
            Some(rest) => Some(seq![pattern[0]] + rest),
            None => None,
        }
    }
}

/// The escaped form of a text stands for that text and for no other: no
/// character of the text is left with a special meaning.
pub proof fn lemma_escaped_is_literal(text: Seq<char>)
    ensures
        literal(escaped(text)) == Some(text),
    decreases text.len(),
{
    if text.len() > 0 {
        let c = text[0];
        let rest = text.drop_first();
        let pattern = escaped(text);
        lemma_escaped_is_literal(rest);
        if is_special(c) {
            assert(pattern[0] == ESCAPE && pattern[1] == c);
            assert(pattern.skip(2) =~= escaped(rest));
        } else {
            assert(pattern[0] == c);
            assert(pattern.drop_first() =~= escaped(rest));
        }
        assert(seq![c] + rest =~= text);
    }
}

/// A text without special characters is its own escaped form.
pub proof fn lemma_escaped_plain(text: Seq<char>)
    requires
        forall|i: int| 0 <= i < text.len() ==> !is_special(#[trigger] text[i]),
    ensures
        escaped(text) == text,
    decreases text.len(),
{
    if text.len() > 0 {
        let rest = text.drop_first();
        assert forall|i: int| 0 <= i < rest.len() implies !is_special(#[trigger] rest[i]) by {
            assert(rest[i] == text[i + 1]);
        }
        lemma_escaped_plain(rest);
        assert(seq![text[0]] + rest =~= text);
    }
}

/// Escaping goes character by character: a text with one more character
/// has that character, escaped, at its end.
pub proof fn lemma_escaped_push(text: Seq<char>, c: char)
    ensures
        escaped(text.push(c)) == escaped(text) + escaped_char(c),
    decreases text.len(),
{
    if text.len() == 0 {
        let single = text.push(c);
        assert(single.drop_first() =~= Seq::<char>::empty());
        assert(escaped(single.drop_first()) =~= Seq::<char>::empty());
        assert(single[0] == c);
        assert(escaped(single) =~= escaped_char(c));
        assert(escaped(text) + escaped_char(c) =~= escaped_char(c));
    } else {
        let rest = text.drop_first();
        let longer = text.push(c);
        lemma_escaped_push(rest, c);
        assert(longer.drop_first() =~= rest.push(c));
        assert(longer[0] == text[0]);
        assert(escaped(longer) == escaped_char(text[0]) + escaped(rest.push(c)));
        assert(escaped(text) == escaped_char(text[0]) + escaped(rest));
        assert(escaped_char(text[0]) + (escaped(rest) + escaped_char(c)) =~= (escaped_char(
            text[0],
        ) + escaped(rest)) + escaped_char(c));
    }
}

/// The pattern that stands for `text` itself.
pub fn escape(text: &str) -> (pattern: String)
    ensures
        pattern@ == escaped(text@),
{
    let mut pattern = String::new();
    for c in it: text.chars()
        invariant
            it.seq() == text@,
            pattern@ == escaped(text@.take(it.index() as int)),
    {
        proof {
            lemma_escaped_push(text@.take(it.index() as int), c);
            assert(text@.take(it.index() + 1) =~= text@.take(it.index() as int).push(c));
        }
        if c == '%' || c == '_' || c == ESCAPE {
            pattern.push(ESCAPE);
        }
        pattern.push(c);
    }
    proof {
        assert(text@.take(text@.len() as int) =~= text@);
    }
    pattern
}

/// The pattern that matches the texts in which `text` occurs.
pub fn pattern_containing(text: &str) -> (pattern: String)
    ensures
        pattern@ == containing(text@),
{
    let mut pattern = String::new();
    pattern.push('%');
    let inner = escape(text);
    pattern.append(inner.as_str());
    pattern.push('%');
    pattern
}

} // verus!
