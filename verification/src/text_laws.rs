//! What holds of texts and their parts.
use crate::text::{
    all_digits, decimal, digits_value, distinct, find, integer_of, is_blank, is_digit, is_space,
    join, lemma_find, lemma_find_unique, lemma_trim_edges, lines, lower, split, strip_cr, trim,
    trim_end, trim_end_char, trim_start, trim_start_char, u64_of, word_len, words,
};
use vstd::prelude::*;

verus! {

/// Joining keeps every part and their order: two lists joined one after the other are the joined
/// lists with the separator between them.
pub proof fn law_join(a: Seq<Seq<char>>, b: Seq<Seq<char>>, sep: Seq<char>)
    ensures
        join(Seq::empty(), sep).len() == 0,
        forall|part: Seq<char>| join(#[trigger] seq![part], sep) == part,
        a.len() > 0 && b.len() > 0 ==> join(a + b, sep) == join(a, sep) + sep + join(b, sep),
    decreases b.len(),
{
    if a.len() > 0 && b.len() > 0 {
        assert((a + b).drop_last() =~= a + b.drop_last());
        if b.len() == 1 {
            assert(a + b.drop_last() =~= a);
            assert((a + b).last() == b[0]);
        } else {
            law_join(a, b.drop_last(), sep);
            assert((a + b).last() == b.last());
            assert(join(a + b, sep) =~= join(a, sep) + sep + join(b, sep));
        }
    }
}

/// A text is its parts with the character between them, and no part holds the character.
pub proof fn law_split(s: Seq<char>, c: char)
    ensures
        join(split(s, c), seq![c]) == s,
        split(s, c).len() > 0,
        forall|i: int| 0 <= i < split(s, c).len() ==> !(#[trigger] split(s, c)[i]).contains(c),
    decreases s.len(),
{
    lemma_find(s, c);
    let at = find(s, c);
    if at < s.len() {
        let first = s.take(at);
        let rest = s.skip(at + 1);
        law_split(rest, c);
        law_join(seq![first], split(rest, c), seq![c]);
        assert(join(split(s, c), seq![c]) =~= first + seq![c] + rest);
        assert(s =~= first + seq![c] + rest);
        assert forall|i: int| 0 <= i < split(s, c).len() implies !(#[trigger] split(
            s,
            c,
        )[i]).contains(c) by {
            if i == 0 {
                assert(split(s, c)[0] == first);
            } else {
                assert(split(s, c)[i] == split(rest, c)[i - 1]);
            }
        }
    } else {
        assert(split(s, c) =~= seq![s]);
        assert(!s.contains(c));
        assert(join(seq![s], seq![c]) == s);
    }
}

/// Parts without the character are told apart again when it stands between them.
pub proof fn law_split_of_join(parts: Seq<Seq<char>>, c: char)
    requires
        parts.len() > 0,
        forall|i: int| 0 <= i < parts.len() ==> !(#[trigger] parts[i]).contains(c),
    ensures
        split(join(parts, seq![c]), c) == parts,
    decreases parts.len(),
{
    reveal_with_fuel(split, 2);
    let first = parts[0];
    if parts.len() == 1 {
        lemma_find(first, c);
        if find(first, c) < first.len() {
            assert(first[find(first, c)] == c);
        }
        assert(seq![first] =~= parts);
    } else {
        let rest = parts.skip(1);
        assert forall|i: int| 0 <= i < rest.len() implies !(#[trigger] rest[i]).contains(c) by {
            assert(rest[i] == parts[i + 1]);
        }
        law_split_of_join(rest, c);
        law_join(seq![first], rest, seq![c]);
        assert(seq![first] + rest =~= parts);
        let text = join(parts, seq![c]);
        let at = first.len() as int;
        assert(text[at] == c);
        lemma_find_unique(text, c, at);
        assert(text.take(at) =~= first);
        assert(text.skip(at + 1) =~= join(rest, seq![c]));
        assert(split(text, c) =~= parts);
    }
}

/// Lines are told apart by line feeds alone: what stands before a line feed and what stands behind
/// it have their lines apart, a text without one is one line, and a carriage return before it does
/// not count.
pub proof fn law_lines(a: Seq<char>, b: Seq<char>)
    ensures
        lines(Seq::empty()).len() == 0,
        lines(a.push('\n') + b) == lines(a.push('\n')) + lines(b),
        !a.contains('\n') && a.len() > 0 ==> lines(a) == seq![a],
        !a.contains('\n') ==> lines(a.push('\n')) == seq![strip_cr(a)],
    decreases a.len(),
{
    let whole = a.push('\n');
    lemma_find(a, '\n');
    lemma_find(whole, '\n');
    lemma_find(whole + b, '\n');
    let at = find(whole, '\n');
    assert(whole[a.len() as int] == '\n');
    assert(at < whole.len());
    assert((whole + b)[at] == '\n');
    assert(find(whole + b, '\n') == at) by {
        lemma_find_unique(whole + b, '\n', at);
    }
    assert((whole + b).take(at) =~= whole.take(at));
    assert((whole + b).skip(at + 1) =~= whole.skip(at + 1) + b);
    if at < a.len() {
        let rest = a.skip(at + 1);
        assert(whole.skip(at + 1) =~= rest.push('\n'));
        law_lines(rest, b);
        assert(lines(whole + b) =~= lines(whole) + lines(b));
        assert(a.contains('\n')) by {
            assert(a[at] == '\n');
        }
    } else {
        assert(whole.skip(at + 1) =~= Seq::empty());
        assert(whole.skip(at + 1) + b =~= b);
        assert(whole.take(at) =~= a);
        assert(lines(whole.skip(at + 1)) =~= Seq::empty());
        assert(lines(whole) =~= seq![strip_cr(a)]);
        assert(lines(whole + b) =~= lines(whole) + lines(b));
    }
    if !a.contains('\n') && a.len() > 0 {
        if find(a, '\n') < a.len() {
            assert(a[find(a, '\n')] == '\n');
        }
    }
}

/// Words are told apart by whitespace alone: what stands on either side of it has its words apart,
/// and a text without whitespace is one word.
pub proof fn law_words(a: Seq<char>, c: char, b: Seq<char>)
    requires
        is_space(c),
    ensures
        words(Seq::empty()).len() == 0,
        words(a.push(c) + b) == words(a) + words(b),
        a.len() > 0 && (forall|i: int| 0 <= i < a.len() ==> !is_space(#[trigger] a[i])) ==> words(a)
            == seq![a],
    decreases a.len(),
{
    let whole = a.push(c) + b;
    if a.len() == 0 {
        assert(whole.skip(1) =~= b);
        assert(words(a) + words(b) =~= words(b));
    } else if is_space(a[0]) {
        assert(whole.skip(1) =~= a.skip(1).push(c) + b);
        law_words(a.skip(1), c, b);
    } else {
        lemma_word_runs(a, c, b);
        let n = word_len(a);
        assert(whole.take(n) =~= a.take(n));
        assert(whole.skip(n) =~= a.skip(n).push(c) + b);
        law_words(a.skip(n), c, b);
        assert(words(whole) =~= words(a) + words(b));
        if forall|i: int| 0 <= i < a.len() ==> !is_space(#[trigger] a[i]) {
            assert(n == a.len());
            assert(a.take(n) =~= a);
            assert(a.skip(n) =~= Seq::empty());
            assert(words(a) =~= seq![a]);
        }
    }
}

proof fn lemma_word_runs(a: Seq<char>, c: char, b: Seq<char>)
    requires
        is_space(c),
    ensures
        word_len(a.push(c) + b) == word_len(a),
        0 <= word_len(a) <= a.len(),
        a.len() > 0 && !is_space(a[0]) ==> word_len(a) > 0,
        word_len(a) < a.len() ==> is_space(a[word_len(a)]),
    decreases a.len(),
{
    if a.len() > 0 && !is_space(a[0]) {
        lemma_word_runs(a.skip(1), c, b);
        assert((a.push(c) + b).skip(1) =~= a.skip(1).push(c) + b);
    }
}

/// Trimming takes whitespace off both ends, and nothing else.
pub proof fn law_trim(s: Seq<char>)
    ensures
        exists|i: int, j: int|
            0 <= i <= j <= s.len() && #[trigger] s.subrange(i, j) == trim(s) && is_blank(s.take(i))
                && is_blank(s.skip(j)),
        trim(s).len() > 0 ==> !is_space(trim(s)[0]) && !is_space(trim(s).last()),
{
    lemma_trim_edges(s);
    let i = lemma_start_cut(s);
    let rest = s.skip(i);
    let k = lemma_end_cut(rest);
    assert(s.subrange(i, i + k) =~= rest.take(k));
    assert(s.skip(i + k) =~= rest.skip(k));
}

proof fn lemma_start_cut(s: Seq<char>) -> (i: int)
    ensures
        0 <= i <= s.len(),
        trim_start(s) == s.skip(i),
        is_blank(s.take(i)),
    decreases s.len(),
{
    if s.len() > 0 && is_space(s[0]) {
        let i = lemma_start_cut(s.skip(1));
        assert(s.skip(1).skip(i) =~= s.skip(i + 1));
        assert forall|k: int| 0 <= k < i + 1 implies is_space(#[trigger] s.take(i + 1)[k]) by {
            if k > 0 {
                assert(s.skip(1).take(i)[k - 1] == s[k]);
            }
        }
        i + 1
    } else {
        assert(s.skip(0) =~= s);
        0
    }
}

proof fn lemma_end_cut(s: Seq<char>) -> (j: int)
    ensures
        0 <= j <= s.len(),
        trim_end(s) == s.take(j),
        is_blank(s.skip(j)),
    decreases s.len(),
{
    if s.len() > 0 && is_space(s.last()) {
        let j = lemma_end_cut(s.drop_last());
        assert(s.drop_last().take(j) =~= s.take(j));
        assert forall|k: int| 0 <= k < s.skip(j).len() implies is_space(
            #[trigger] s.skip(j)[k],
        ) by {
            if k < s.len() - 1 - j {
                assert(s.drop_last().skip(j)[k] == s[j + k]);
            }
        }
        j
    } else {
        assert(s.take(s.len() as int) =~= s);
        s.len() as int
    }
}

/// Taking a character off the end takes off all of it, and nothing else.
pub proof fn law_trim_end_char(s: Seq<char>, c: char)
    ensures
        trim_end_char(s, c).is_prefix_of(s),
        forall|i: int| trim_end_char(s, c).len() <= i < s.len() ==> #[trigger] s[i] == c,
        trim_end_char(s, c).len() > 0 ==> trim_end_char(s, c).last() != c,
    decreases s.len(),
{
    if s.len() > 0 && s.last() == c {
        let front = s.drop_last();
        law_trim_end_char(front, c);
        let t = trim_end_char(front, c);
        assert(front.take(t.len() as int) =~= s.take(t.len() as int));
        assert forall|i: int| t.len() <= i < s.len() implies #[trigger] s[i] == c by {
            if i < front.len() {
                assert(front[i] == s[i]);
            }
        }
    } else {
        assert(s.take(s.len() as int) =~= s);
    }
}

/// Taking a character off the beginning takes off all of it, and nothing else.
pub proof fn law_trim_start_char(s: Seq<char>, c: char)
    ensures
        trim_start_char(s, c) == s.skip(s.len() - trim_start_char(s, c).len()),
        trim_start_char(s, c).len() <= s.len(),
        forall|i: int| 0 <= i < s.len() - trim_start_char(s, c).len() ==> #[trigger] s[i] == c,
        trim_start_char(s, c).len() > 0 ==> trim_start_char(s, c)[0] != c,
    decreases s.len(),
{
    if s.len() > 0 && s[0] == c {
        let rest = s.skip(1);
        law_trim_start_char(rest, c);
        let t = trim_start_char(rest, c);
        assert(rest.skip(rest.len() - t.len()) =~= s.skip(s.len() - t.len()));
        assert forall|i: int| 0 <= i < s.len() - t.len() implies #[trigger] s[i] == c by {
            if i > 0 {
                assert(rest[i - 1] == s[i]);
            }
        }
    } else {
        assert(s.skip(0) =~= s);
    }
}

/// Small letters stand for capitals, every other character for itself.
pub proof fn law_lower(s: Seq<char>)
    ensures
        lower(s).len() == s.len(),
        forall|i: int|
            0 <= i < s.len() ==> (#[trigger] lower(s)[i] as int) == (if 'A' <= s[i] <= 'Z' {
                s[i] as int + 32
            } else {
                s[i] as int
            }),
{
}

/// The order of the first occurrences is kept.
pub proof fn law_distinct_in_order(a: Seq<Seq<char>>, b: Seq<Seq<char>>)
    ensures
        distinct(a).is_prefix_of(distinct(a + b)),
        a.no_duplicates() ==> distinct(a) == a,
    decreases b.len(),
{
    if b.len() == 0 {
        assert(a + b =~= a);
        assert(distinct(a).take(distinct(a).len() as int) =~= distinct(a));
    } else {
        law_distinct_in_order(a, b.drop_last());
        assert((a + b).drop_last() =~= a + b.drop_last());
        let n = distinct(a).len() as int;
        let before = distinct(a + b.drop_last());
        assert(distinct(a + b).take(n) =~= before.take(n));
    }
    lemma_distinct_as_is(a);
}

proof fn lemma_distinct_as_is(a: Seq<Seq<char>>)
    ensures
        a.no_duplicates() ==> distinct(a) == a,
    decreases a.len(),
{
    if a.no_duplicates() && a.len() > 0 {
        let front = a.drop_last();
        lemma_distinct_as_is(front);
        if front.contains(a.last()) {
            let i = choose|i: int| 0 <= i < front.len() && front[i] == a.last();
            assert(a[i] == a[a.len() - 1]);
        }
        assert(front.push(a.last()) =~= a);
    }
}

/// A number that was written is read back.
pub proof fn law_decimal_reads_back(n: u64)
    ensures
        u64_of(decimal(n as nat)) == Some(n),
        integer_of(decimal(n as nat)) == Some(n as int),
{
    lemma_decimal_value(n as nat);
}

pub proof fn lemma_decimal_value(n: nat)
    ensures
        decimal(n).len() > 0,
        all_digits(decimal(n)),
        digits_value(decimal(n)) == n,
        is_digit(decimal(n)[0]),
    decreases n,
{
    reveal_with_fuel(digits_value, 2);
    let d = decimal(n);
    if n < 10 {
        assert(d.drop_last() =~= Seq::empty());
        assert(d.last() as nat == n + 48);
        assert forall|i: int| 0 <= i < d.len() implies is_digit(#[trigger] d[i]) by {}
    } else {
        lemma_decimal_value(n / 10);
        let front = decimal(n / 10);
        assert(d.drop_last() =~= front);
        assert(d.last() as nat == n % 10 + 48);
        assert forall|i: int| 0 <= i < d.len() implies is_digit(#[trigger] d[i]) by {
            if i < front.len() {
                assert(d[i] == front[i]);
            }
        }
        assert(d[0] == front[0]);
    }
}

} // verus!
