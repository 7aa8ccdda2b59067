//! The counting engine: the `WcrStats` record, its mathematical model,
//! the counting functions over character sequences, and the laws that
//! hold of counting and merging.

use crate::config::Config;
use vstd::prelude::*;
use vstd::string::StrSliceExecFns;
use vstd::string::StringSliceAdditionalSpecFns;

verus! {

/// Mathematical model of one counter record: four unbounded counters.
pub struct StatsModel {
    pub lines: nat,
    pub words: nat,
    pub chars: nat,
    pub bytes: nat,
}

/// Field-wise sum of two models: what merging two counter records means.
pub open spec fn stats_add(a: StatsModel, b: StatsModel) -> StatsModel {
    StatsModel {
        lines: a.lines + b.lines,
        words: a.words + b.words,
        chars: a.chars + b.chars,
        bytes: a.bytes + b.bytes,
    }
}

/// The four counters measured on one input, or accumulated over several.
#[derive(Debug, PartialEq, Eq, Structural, Clone, Copy)]
pub struct WcrStats {
    pub num_lines: usize,
    pub num_words: usize,
    pub num_chars: usize,
    pub num_bytes: usize,
}

impl View for WcrStats {
    type V = StatsModel;

    open spec fn view(&self) -> StatsModel {
        StatsModel {
            lines: self.num_lines as nat,
            words: self.num_words as nat,
            chars: self.num_chars as nat,
            bytes: self.num_bytes as nat,
        }
    }
}

impl WcrStats {
    /// A record with the given counter values; note the field order.
    pub fn new(num_lines: usize, num_words: usize, num_bytes: usize, num_chars: usize) -> (r:
        WcrStats)
        ensures
            r.num_lines == num_lines,
            r.num_words == num_words,
            r.num_bytes == num_bytes,
            r.num_chars == num_chars,
    {
        WcrStats { num_lines, num_words, num_chars, num_bytes }
    }

    /// Folds another record into this one, counter by counter.
    pub fn merge_with(&mut self, other: &Self)
        requires
            old(self).num_lines + other.num_lines <= usize::MAX,
            old(self).num_words + other.num_words <= usize::MAX,
            old(self).num_chars + other.num_chars <= usize::MAX,
            old(self).num_bytes + other.num_bytes <= usize::MAX,
        ensures
            final(self)@ == stats_add(old(self)@, other@),
    {
        self.num_lines = self.num_lines + other.num_lines;
        self.num_words = self.num_words + other.num_words;
        self.num_bytes = self.num_bytes + other.num_bytes;
        self.num_chars = self.num_chars + other.num_chars;
    }
}

/// The characters with the Unicode `White_Space` property: the ones that
/// separate words.
pub open spec fn is_wspace(c: char) -> bool {
    let u = c as u32;
    (0x09 <= u && u <= 0x0D) || u == 0x20 || u == 0x85 || u == 0xA0 || u == 0x1680 || (0x2000 <= u
        && u <= 0x200A) || u == 0x2028 || u == 0x2029 || u == 0x202F || u == 0x205F || u == 0x3000
}

/// Runtime test for [`is_wspace`].
fn char_is_space(c: char) -> (b: bool)
    ensures
        b == is_wspace(c),
{
    let u = c as u32;
    (0x09 <= u && u <= 0x0D) || u == 0x20 || u == 0x85 || u == 0xA0 || u == 0x1680 || (0x2000 <= u
        && u <= 0x200A) || u == 0x2028 || u == 0x2029 || u == 0x202F || u == 0x205F || u == 0x3000
}

/// Number of line terminators in the text. An unterminated final fragment
/// contributes nothing: the count follows the terminators, not the reads.
pub open spec fn count_lines(s: Seq<char>) -> nat
    decreases s.len(),
{
    if s.len() == 0 {
        0
    } else {
        (if s[0] == '\n' {
            1nat
        } else {
            0nat
        }) + count_lines(s.drop_first())
    }
}

/// Number of maximal whitespace-delimited tokens in the text, scanned with
/// the state `in_word`: whether the previous character was part of a token.
pub open spec fn words_rec(s: Seq<char>, in_word: bool) -> nat
    decreases s.len(),
{
    if s.len() == 0 {
        0
    } else {
        let w = !is_wspace(s[0]);
        (if w && !in_word {
            1nat
        } else {
            0nat
        }) + words_rec(s.drop_first(), w)
    }
}

/// Number of maximal whitespace-delimited tokens in the text.
pub open spec fn count_words(s: Seq<char>) -> nat {
    words_rec(s, false)
}

/// Number of bytes in the UTF-8 encoding of the text.
pub open spec fn count_bytes(s: Seq<char>) -> nat {
    vstd::utf8::encode_utf8(s).len()
}

/// Measures one whole input. Each counter holds its count of the text when
/// its flag requests it and stays exactly zero otherwise.
///
/// The byte length of the input must fit the machine word, as it does for
/// any text that actually sits in memory.
pub fn compute_stats(input: &str, config: &Config) -> (stats: WcrStats)
    requires
        count_bytes(input@) <= usize::MAX,
    ensures
        stats.num_lines as nat == (if config.lines {
            count_lines(input@)
        } else {
            0nat
        }),
        stats.num_words as nat == (if config.words {
            count_words(input@)
        } else {
            0nat
        }),
        stats.num_chars as nat == (if config.chars {
            input@.len()
        } else {
            0nat
        }),
        stats.num_bytes as nat == (if config.bytes {
            count_bytes(input@)
        } else {
            0nat
        }),
{
    let n: usize = input.unicode_len();
    let mut lines_count: usize = 0;
    let mut words_count: usize = 0;
    let mut in_word = false;
    let mut i: usize = 0;
    proof {
        assert(input@.skip(0) =~= input@);
    }
    while i < n
        invariant
            n as nat == input@.len(),
            i <= n,
            lines_count <= i,
            words_count <= i,
            lines_count + count_lines(input@.skip(i as int)) == count_lines(input@),
            words_count + words_rec(input@.skip(i as int), in_word) == count_words(input@),
        decreases n - i,
    {
        let c = input.get_char(i);
        proof {
            assert(input@.skip(i as int).len() > 0);
            assert(input@.skip(i as int)[0] == input@[i as int]);
            assert(input@.skip(i as int).drop_first() =~= input@.skip(i as int + 1));
        }
        if c == '\n' {
            lines_count = lines_count + 1;
        }
        let w = !char_is_space(c);
        if w && !in_word {
            words_count = words_count + 1;
        }
        in_word = w;
        i = i + 1;
    }
    proof {
        assert(input@.skip(n as int) =~= Seq::<char>::empty());
        assert(input.spec_bytes() == vstd::utf8::encode_utf8(input@));
    }
    WcrStats {
        num_lines: if config.lines {
            lines_count
        } else {
            0
        },
        num_words: if config.words {
            words_count
        } else {
            0
        },
        num_chars: if config.chars {
            n
        } else {
            0
        },
        num_bytes: if config.bytes {
            input.len()
        } else {
            0
        },
    }
}

/// Every counter of a record is non-negative in the model.
pub proof fn lemma_counters_nonnegative(s: WcrStats)
    ensures
        s@.lines >= 0,
        s@.words >= 0,
        s@.chars >= 0,
        s@.bytes >= 0,
{
}

/// Merging counter records is commutative: the order of two inputs does
/// not affect the total.
pub proof fn lemma_merge_commutative(a: StatsModel, b: StatsModel)
    ensures
        stats_add(a, b) == stats_add(b, a),
{
}

/// Merging counter records is associative: the total does not depend on
/// how the inputs are grouped.
pub proof fn lemma_merge_associative(a: StatsModel, b: StatsModel, c: StatsModel)
    ensures
        stats_add(stats_add(a, b), c) == stats_add(a, stats_add(b, c)),
{
}

/// The line count of a concatenation is the sum of the line counts.
pub proof fn lemma_count_lines_concat(s: Seq<char>, t: Seq<char>)
    ensures
        count_lines(s + t) == count_lines(s) + count_lines(t),
    decreases s.len(),
{
    if s.len() == 0 {
        assert(s + t =~= t);
    } else {
        assert((s + t)[0] == s[0]);
        assert((s + t).drop_first() =~= s.drop_first() + t);
        lemma_count_lines_concat(s.drop_first(), t);
    }
}

/// Text without a line terminator holds no line.
pub proof fn lemma_no_terminator_no_line(t: Seq<char>)
    requires
        forall|k: int| 0 <= k < t.len() ==> t[k] != '\n',
    ensures
        count_lines(t) == 0,
    decreases t.len(),
{
    if t.len() > 0 {
        assert(forall|k: int|
            0 <= k < t.drop_first().len() ==> t.drop_first()[k] == t[k + 1] && t[k + 1] != '\n');
        lemma_no_terminator_no_line(t.drop_first());
    }
}

/// A final fragment with no terminator does not increment the line count:
/// the count follows the terminators seen, not the reads made.
pub proof fn lemma_trailing_fragment_adds_no_line(s: Seq<char>, t: Seq<char>)
    requires
        forall|k: int| 0 <= k < t.len() ==> t[k] != '\n',
    ensures
        count_lines(s + t) == count_lines(s),
{
    lemma_count_lines_concat(s, t);
    lemma_no_terminator_no_line(t);
}

/// A character never takes less than one byte to encode, so the character
/// count of a text never exceeds its byte count.
pub proof fn lemma_chars_le_bytes(s: Seq<char>)
    ensures
        s.len() <= count_bytes(s),
    decreases s.len(),
{
    if s.len() > 0 {
        assert(vstd::utf8::encode_scalar(s[0] as u32).len() >= 1);
        lemma_chars_le_bytes(s.drop_first());
    }
}

} // verus!
