//! Statistics derived from a document's text.

use vstd::prelude::*;

verus! {

/// Words that a reader is taken to read per minute.
pub const WORDS_PER_MINUTE: u32 = 200;

/// The characters that carry the Unicode `White_Space` property.
pub open spec fn is_whitespace(c: char) -> bool {
    let n = c as u32;
    ||| 0x09 <= n <= 0x0D
    ||| n == 0x20
    ||| n == 0x85
    ||| n == 0xA0
    ||| n == 0x1680
    ||| 0x2000 <= n <= 0x200A
    ||| n == 0x2028
    ||| n == 0x2029
    ||| n == 0x202F
    ||| n == 0x205F
    ||| n == 0x3000
}

/// A word starts at `i` when `s[i]` is not whitespace and follows either the
/// beginning of the text or a whitespace character.
pub open spec fn word_starts_at(s: Seq<char>, i: int) -> bool {
    &&& 0 <= i < s.len()
    &&& !is_whitespace(s[i])
    &&& (i == 0 || is_whitespace(s[i - 1]))
}

/// The positions at which a whitespace-delimited word starts.
pub open spec fn word_starts(s: Seq<char>) -> Set<int> {
    Set::new(|i: int| word_starts_at(s, i))
}

/// The number of whitespace-delimited words in `s`.
pub open spec fn count_words(s: Seq<char>) -> nat {
    word_starts(s).len()
}

/// Minutes needed to read `words` words: `words / 200`, rounded up.
pub open spec fn reading_minutes(words: int) -> int {
    (words + 199) / 200
}

/// Tells whether `c` is a Unicode whitespace character.
pub fn char_is_whitespace(c: char) -> (r: bool)
    ensures
        r == is_whitespace(c),
{
    let n: u32 = c as u32;
    (0x09 <= n && n <= 0x0D) || n == 0x20 || n == 0x85 || n == 0xA0 || n == 0x1680 || (0x2000 <= n
        && n <= 0x200A) || n == 0x2028 || n == 0x2029 || n == 0x202F || n == 0x205F || n == 0x3000
}

/// Extending a text by one character adds a word start exactly when the new
/// character begins a word.
pub proof fn lemma_word_starts_push(s: Seq<char>, c: char)
    ensures
        word_starts(s).finite(),
        word_starts(s.push(c)).finite(),
        count_words(s.push(c)) == count_words(s) + if word_starts_at(s.push(c), s.len() as int) {
            1nat
        } else {
            0nat
        },
    decreases s.len(),
{
    lemma_word_starts_bounded(s);
    lemma_word_starts_bounded(s.push(c));
    let t = s.push(c);
    let last = s.len() as int;
    assert forall|i: int| i != last implies (word_starts_at(t, i) <==> word_starts_at(s, i)) by {
        if 0 <= i < s.len() {
            assert(t[i] == s[i]);
            if i > 0 {
                assert(t[i - 1] == s[i - 1]);
            }
        }
    }
    if word_starts_at(t, last) {
        assert(word_starts(t) =~= word_starts(s).insert(last));
        assert(!word_starts(s).contains(last));
    } else {
        assert(word_starts(t) =~= word_starts(s));
    }
}

/// Word starts are positions of the text, so there are at most as many as
/// the text has characters.
pub proof fn lemma_word_starts_bounded(s: Seq<char>)
    ensures
        word_starts(s).finite(),
        count_words(s) <= s.len(),
{
    let all = Set::new(|i: int| 0 <= i < s.len());
    vstd::set_lib::lemma_int_range(0, s.len() as int);
    assert(all =~= vstd::set_lib::set_int_range(0, s.len() as int));
    assert(word_starts(s).subset_of(all));
    vstd::set_lib::lemma_len_subset(word_starts(s), all);
}

/// Counts the whitespace-delimited words of `content`.
pub fn count_text_words(content: &str) -> (n: usize)
    ensures
        n == count_words(content@),
{
    let total: usize = content.unicode_len();
    let mut n: usize = 0;
    let mut in_word: bool = false;
    let ghost mut seen: Seq<char> = Seq::empty();
    proof {
        lemma_word_starts_bounded(seen);
        assert(word_starts(seen) =~= Set::<int>::empty());
    }
    for c in it: content.chars()
        invariant
            it.seq() == content@,
            seen == content@.take(it.index() as int),
            n == count_words(seen),
            n <= it.index(),
            total == content@.len(),
            in_word == (seen.len() > 0 && !is_whitespace(seen.last())),
    {
        let white = char_is_whitespace(c);
        proof {
            lemma_word_starts_push(seen, c);
            assert(content@.take(it.index() + 1) =~= seen.push(c));
            seen = seen.push(c);
        }
        if !white && !in_word {
            n = n + 1;
        }
        in_word = !white;
    }
    proof {
        assert(content@.take(content@.len() as int) =~= content@);
    }
    n
}

/// The figures that are stored with a document's text.
#[derive(Clone, Copy, Debug, PartialEq, Eq, Structural)]
pub struct TextStats {
    pub word_count: u32,
    pub char_count: u32,
    pub reading_time: u32,
}

/// The statistics of the text `s`. Counts beyond the range of `u32` keep
/// their low 32 bits.
pub open spec fn stats_of(s: Seq<char>) -> TextStats {
    let word_count = count_words(s) as u32;
    TextStats {
        word_count,
        char_count: s.len() as u32,
        reading_time: reading_minutes(word_count as int) as u32,
    }
}

/// A text that holds no whitespace, and at least one character, is one word.
pub proof fn lemma_one_word(s: Seq<char>)
    requires
        s.len() > 0,
        forall|i: int| 0 <= i < s.len() ==> !is_whitespace(#[trigger] s[i]),
    ensures
        count_words(s) == 1,
{
    assert(word_starts_at(s, 0));
    assert forall|i: int| word_starts(s).contains(i) implies i == 0 by {
        if i != 0 {
            assert(!is_whitespace(s[i - 1]));
        }
    }
    assert(word_starts(s) =~= set![0int]);
}

/// A text that holds nothing but whitespace has no words.
pub proof fn lemma_no_word(s: Seq<char>)
    requires
        forall|i: int| 0 <= i < s.len() ==> is_whitespace(#[trigger] s[i]),
    ensures
        count_words(s) == 0,
{
    assert(word_starts(s) =~= Set::<int>::empty());
}

/// Two texts joined by a whitespace character have the words of both.
/// Together with [`lemma_one_word`] and [`lemma_no_word`] this says that
/// the words are the tokens between whitespace.
pub proof fn lemma_words_of_joined(a: Seq<char>, separator: char, b: Seq<char>)
    requires
        is_whitespace(separator),
    ensures
        count_words(a.push(separator) + b) == count_words(a) + count_words(b),
    decreases b.len(),
{
    let head = a.push(separator);
    if b.len() == 0 {
        assert(head + b =~= head);
        lemma_word_starts_push(a, separator);
        assert(word_starts(b) =~= Set::<int>::empty());
    } else {
        let front = b.drop_last();
        let last = b.last();
        lemma_words_of_joined(a, separator, front);
        assert(b =~= front.push(last));
        assert(head + b =~= (head + front).push(last));
        lemma_word_starts_push(head + front, last);
        lemma_word_starts_push(front, last);
        let joined = (head + front).push(last);
        let alone = front.push(last);
        assert(joined[(head + front).len() as int] == last);
        assert(alone[front.len() as int] == last);
        if front.len() > 0 {
            assert(joined[(head + front).len() - 1] == front[front.len() - 1]);
            assert(alone[front.len() - 1] == front[front.len() - 1]);
        } else {
            assert(joined[(head + front).len() - 1] == separator);
        }
        assert(word_starts_at(joined, (head + front).len() as int) == word_starts_at(
            alone,
            front.len() as int,
        ));
    }
}

/// The reading time is the least number of minutes in which `words` words
/// can be read at 200 words a minute: it is enough, and no time `minutes`
/// that is enough is shorter.
pub proof fn lemma_reading_minutes_is_ceiling(words: nat, minutes: nat)
    ensures
        reading_minutes(words as int) * 200 >= words,
        minutes * 200 >= words ==> reading_minutes(words as int) <= minutes,
{
    let r = reading_minutes(words as int);
    if minutes * 200 >= words && minutes < r {
        assert(minutes * 200 <= (r - 1) * 200) by (nonlinear_arith)
            requires
                minutes <= r - 1,
        ;
    }
}

/// A text without characters has no words, and takes no time to read.
pub proof fn lemma_empty_text()
    ensures
        count_words(Seq::empty()) == 0,
        stats_of(Seq::empty()) == (TextStats { word_count: 0, char_count: 0, reading_time: 0 }),
{
    assert(word_starts(Seq::empty()) =~= Set::<int>::empty());
}

/// Minutes needed to read `words` words at [`WORDS_PER_MINUTE`], rounded up.
pub fn reading_time_for(words: u32) -> (minutes: u32)
    ensures
        minutes == reading_minutes(words as int),
        minutes * 200 >= words,
        words > 0 ==> (minutes - 1) * 200 < words,
{
    let whole: u32 = words / WORDS_PER_MINUTE;
    if words % WORDS_PER_MINUTE == 0 {
        whole
    } else {
        whole + 1
    }
}

/// Computes word count, character count and reading time of `content`.
pub fn text_stats(content: &str) -> (stats: TextStats)
    ensures
        stats == stats_of(content@),
{
    let words: usize = count_text_words(content);
    let chars: usize = content.unicode_len();
    let word_count: u32 = #[verifier::truncate] (words as u32);
    let char_count: u32 = #[verifier::truncate] (chars as u32);
    TextStats { word_count, char_count, reading_time: reading_time_for(word_count) }
}

} // verus!
