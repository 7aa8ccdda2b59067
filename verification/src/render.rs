//! Rendering of counter records as output text: fixed-width right-justified
//! fields, the per-input line, and the final total line.

use crate::config::Config;
use crate::stats::WcrStats;
use vstd::prelude::*;
use vstd::string::StrSliceExecFns;
use vstd::string::StringExecFns;

verus! {

/// Relies on `String::push` of std: appends exactly the one character.
pub assume_specification[ String::push ](s: &mut String, ch: char)
    ensures
        final(s)@ == old(s)@.push(ch),
;

/// The decimal digit characters.
pub open spec fn digit_char(d: nat) -> char
    recommends
        d < 10,
{
    if d == 0 {
        '0'
    } else if d == 1 {
        '1'
    } else if d == 2 {
        '2'
    } else if d == 3 {
        '3'
    } else if d == 4 {
        '4'
    } else if d == 5 {
        '5'
    } else if d == 6 {
        '6'
    } else if d == 7 {
        '7'
    } else if d == 8 {
        '8'
    } else {
        '9'
    }
}

/// The decimal numeral of `n`: most significant digit first, no leading
/// zeros, a single `0` for zero itself.
pub open spec fn dec_str(n: nat) -> Seq<char>
    decreases n,
{
    if n < 10 {
        seq![digit_char(n)]
    } else {
        dec_str(n / 10) + seq![digit_char(n % 10)]
    }
}

/// One output field: the numeral right-justified to a minimum width of 8
/// when the counter is requested, and nothing at all otherwise.
pub open spec fn format_field_spec(v: nat, show: bool) -> Seq<char> {
    if show {
        if dec_str(v).len() >= 8 {
            dec_str(v)
        } else {
            Seq::new((8 - dec_str(v).len()) as nat, |k: int| ' ') + dec_str(v)
        }
    } else {
        Seq::empty()
    }
}

/// Runtime table for [`digit_char`].
fn digit_to_char(d: usize) -> (c: char)
    requires
        d < 10,
    ensures
        c == digit_char(d as nat),
{
    if d == 0 {
        '0'
    } else if d == 1 {
        '1'
    } else if d == 2 {
        '2'
    } else if d == 3 {
        '3'
    } else if d == 4 {
        '4'
    } else if d == 5 {
        '5'
    } else if d == 6 {
        '6'
    } else if d == 7 {
        '7'
    } else if d == 8 {
        '8'
    } else {
        '9'
    }
}

/// Renders one counter field as text, as [`format_field_spec`] says.
pub fn format_field(field_val: usize, show_field: bool) -> (r: String)
    ensures
        r@ == format_field_spec(field_val as nat, show_field),
{
    if !show_field {
        return String::new();
    }
    let mut rev: Vec<char> = Vec::new();
    let mut m: usize = field_val;
    proof {
        assert(rev@.reverse() =~= Seq::<char>::empty());
        assert(dec_str(field_val as nat) + Seq::<char>::empty() =~= dec_str(field_val as nat));
    }
    loop
        invariant_except_break
            dec_str(field_val as nat) == dec_str(m as nat) + rev@.reverse(),
        ensures
            rev@.reverse() == dec_str(field_val as nat),
        decreases m,
    {
        let d: usize = m % 10;
        let ghost rev_old = rev@;
        rev.push(digit_to_char(d));
        proof {
            assert(rev@.reverse() =~= seq![digit_char(d as nat)] + rev_old.reverse());
        }
        if m < 10 {
            proof {
                assert(dec_str(m as nat) + rev_old.reverse() =~= seq![digit_char(d as nat)]
                    + rev_old.reverse());
            }
            break;
        }
        m = m / 10;
        proof {
            assert((dec_str(m as nat) + seq![digit_char(d as nat)]) + rev_old.reverse()
                =~= dec_str(m as nat) + (seq![digit_char(d as nat)] + rev_old.reverse()));
        }
    }
    let ndig: usize = rev.len();
    let mut out = String::new();
    let pad_n: usize = if ndig >= 8 {
        0
    } else {
        8 - ndig
    };
    let mut j: usize = 0;
    proof {
        assert(out@ =~= Seq::new(0nat, |k: int| ' '));
    }
    while j < pad_n
        invariant
            j <= pad_n,
            out@ == Seq::new(j as nat, |k: int| ' '),
        decreases pad_n - j,
    {
        out.push(' ');
        proof {
            assert(out@ =~= Seq::new((j + 1) as nat, |k: int| ' '));
        }
        j = j + 1;
    }
    let mut i: usize = rev.len();
    proof {
        assert(dec_str(field_val as nat).take(0) =~= Seq::<char>::empty());
        assert(out@ + Seq::<char>::empty() =~= out@);
    }
    while i > 0
        invariant
            i <= rev.len(),
            rev@.reverse() == dec_str(field_val as nat),
            out@ == Seq::new(pad_n as nat, |k: int| ' ') + dec_str(field_val as nat).take(
                rev@.len() - i,
            ),
        decreases i,
    {
        i = i - 1;
        let ghost out_old = out@;
        let c = rev[i];
        out.push(c);
        proof {
            assert(rev@[i as int] == rev@.reverse()[rev@.len() - 1 - i]);
            assert(dec_str(field_val as nat).take(rev@.len() - i) =~= dec_str(
                field_val as nat,
            ).take(rev@.len() - i - 1).push(dec_str(field_val as nat)[rev@.len() - 1 - i]));
            assert(out@ =~= Seq::new(pad_n as nat, |k: int| ' ') + dec_str(field_val as nat).take(
                rev@.len() - i,
            ));
        }
    }
    proof {
        assert(dec_str(field_val as nat).take(rev@.len() as int) =~= dec_str(field_val as nat));
        assert(dec_str(field_val as nat).len() == rev@.len());
        if ndig >= 8 {
            assert(Seq::new(0nat, |k: int| ' ') + dec_str(field_val as nat) =~= dec_str(
                field_val as nat,
            ));
        }
    }
    out
}

/// The four fields of one output line, in the fixed order lines, words,
/// characters, bytes, with nothing between them.
pub open spec fn fields_spec(s: WcrStats, lines: bool, words: bool, chars: bool, bytes: bool) -> Seq<
    char,
> {
    format_field_spec(s.num_lines as nat, lines) + format_field_spec(s.num_words as nat, words)
        + format_field_spec(s.num_chars as nat, chars) + format_field_spec(
        s.num_bytes as nat,
        bytes,
    )
}

/// One per-input output line: the active fields, then a space and the
/// input's name, unless the name is the standard-input placeholder `-`,
/// which displays as nothing.
pub open spec fn line_spec(s: WcrStats, c: Config, name: Seq<char>) -> Seq<char> {
    if name.len() == 1 && name[0] == '-' {
        fields_spec(s, c.lines, c.words, c.chars, c.bytes)
    } else {
        fields_spec(s, c.lines, c.words, c.chars, c.bytes) + seq![' '] + name
    }
}

/// The final total line: the active fields followed by the literal
/// suffix ` total`.
pub open spec fn total_spec(s: WcrStats, c: Config) -> Seq<char> {
    fields_spec(s, c.lines, c.words, c.chars, c.bytes) + seq![' ', 't', 'o', 't', 'a', 'l']
}

/// Renders the active fields of one record, concatenated in fixed order.
fn format_fields(stats: &WcrStats, config: &Config) -> (r: String)
    ensures
        r@ == fields_spec(*stats, config.lines, config.words, config.chars, config.bytes),
{
    let mut out = format_field(stats.num_lines, config.lines);
    let f_words = format_field(stats.num_words, config.words);
    out.append(f_words.as_str());
    let f_chars = format_field(stats.num_chars, config.chars);
    out.append(f_chars.as_str());
    let f_bytes = format_field(stats.num_bytes, config.bytes);
    out.append(f_bytes.as_str());
    out
}

/// Renders one per-input output line, as [`line_spec`] says.
pub fn format_stats_line(stats: &WcrStats, config: &Config, name: &str) -> (r: String)
    ensures
        r@ == line_spec(*stats, *config, name@),
{
    let mut out = format_fields(stats, config);
    let is_dash = name.unicode_len() == 1 && name.get_char(0) == '-';
    if !is_dash {
        out.push(' ');
        out.append(name);
        proof {
            assert(out@ =~= fields_spec(*stats, config.lines, config.words, config.chars,
                config.bytes) + seq![' '] + name@);
        }
    }
    out
}

/// Renders the final total line, as [`total_spec`] says.
pub fn format_total_line(stats: &WcrStats, config: &Config) -> (r: String)
    ensures
        r@ == total_spec(*stats, *config),
{
    let mut out = format_fields(stats, config);
    out.append(" total");
    proof {
        reveal_strlit(" total");
        assert(" total"@ =~= seq![' ', 't', 'o', 't', 'a', 'l']);
    }
    out
}

/// Rendering is a pure function of the record, the flags and the name:
/// two renderings of the same values are the same text.
pub proof fn lemma_format_idempotent(
    s: WcrStats,
    c: Config,
    name: Seq<char>,
    r1: Seq<char>,
    r2: Seq<char>,
)
    requires
        r1 == line_spec(s, c, name),
        r2 == line_spec(s, c, name),
    ensures
        r1 == r2,
{
}

} // verus!
