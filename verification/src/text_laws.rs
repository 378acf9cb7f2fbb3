//! What the text primitives give on texts that are written out piece by piece.

use crate::text::{
    all_digits, contains_text, decimal_of, digits_value, find_from, find_in, first_word_of,
    is_ascii_alnum, is_ctrl, is_digit, is_space, join_of, lemma_decimal_digits, lemma_until_char,
    lines_of, lower, lower_char, occurs_at, parse_digits, parse_unsigned, popped,
    signed_decimal_of, split_of, starts_with_text, strip_cr, text_less, trim_end_of, trim_of,
    trim_start_of, until_char, word_len, words_of,
};
use vstd::prelude::*;

verus! {

/// Nothing but white space.
pub open spec fn all_space(s: Seq<char>) -> bool {
    forall|i: int| 0 <= i < s.len() ==> is_space(#[trigger] s[i])
}

/// No white space at all.
pub open spec fn no_space(s: Seq<char>) -> bool {
    forall|i: int| 0 <= i < s.len() ==> !is_space(#[trigger] s[i])
}

/// Some character is not white space.
pub open spec fn some_solid(s: Seq<char>) -> bool {
    exists|i: int| 0 <= i < s.len() && !is_space(#[trigger] s[i])
}

/// Empty, or without white space at either end.
pub open spec fn bare(s: Seq<char>) -> bool {
    s.len() > 0 ==> !is_space(s[0]) && !is_space(s.last())
}

proof fn lemma_trim_start_pieces(before: Seq<char>, rest: Seq<char>)
    requires
        all_space(before),
        rest.len() > 0 ==> !is_space(rest[0]),
    ensures
        trim_start_of(before + rest) == rest,
    decreases before.len(),
{
    let s = before + rest;
    if before.len() > 0 {
        assert(s[0] == before[0]);
        assert(s.drop_first() =~= before.drop_first() + rest);
        assert forall|i: int| 0 <= i < before.drop_first().len() implies is_space(
            #[trigger] before.drop_first()[i],
        ) by {
            assert(before.drop_first()[i] == before[i + 1]);
        }
        lemma_trim_start_pieces(before.drop_first(), rest);
    } else {
        assert(s =~= rest);
    }
}

proof fn lemma_trim_end_pieces(rest: Seq<char>, after: Seq<char>)
    requires
        all_space(after),
        rest.len() > 0 ==> !is_space(rest.last()),
    ensures
        trim_end_of(rest + after) == rest,
    decreases after.len(),
{
    let s = rest + after;
    if after.len() > 0 {
        assert(s.last() == after.last());
        assert(s.drop_last() =~= rest + after.drop_last());
        assert forall|i: int| 0 <= i < after.drop_last().len() implies is_space(
            #[trigger] after.drop_last()[i],
        ) by {
            assert(after.drop_last()[i] == after[i]);
        }
        lemma_trim_end_pieces(rest, after.drop_last());
    } else {
        assert(s =~= rest);
    }
}

/// Trimming takes off the white space at the ends, all of it, and nothing else.
pub proof fn trimming_takes_off_white_space(before: Seq<char>, core: Seq<char>, after: Seq<char>)
    requires
        all_space(before),
        all_space(after),
        bare(core),
    ensures
        trim_of(before + core + after) == core,
        trim_end_of(before + core + after) == if core.len() > 0 {
            before + core
        } else {
            Seq::empty()
        },
        trim_start_of(before + core + after) == if core.len() > 0 {
            core + after
        } else {
            Seq::empty()
        },
        trim_of(core) == core,
{
    let s = before + core + after;
    assert(s =~= before + (core + after));
    if core.len() > 0 {
        assert((core + after)[0] == core[0]);
        lemma_trim_start_pieces(before, core + after);
        assert((before + core).last() == core.last());
        lemma_trim_end_pieces(core, after);
        lemma_trim_end_pieces(before + core, after);
    } else {
        let none = Seq::<char>::empty();
        assert(s =~= (before + after) + none);
        assert(s =~= none + (before + after));
        assert forall|i: int| 0 <= i < (before + after).len() implies is_space(
            #[trigger] (before + after)[i],
        ) by {
            if i < before.len() {
                assert((before + after)[i] == before[i]);
            } else {
                assert((before + after)[i] == after[i - before.len()]);
            }
        }
        lemma_trim_start_pieces(before + after, none);
        lemma_trim_end_pieces(none, before + after);
        assert(trim_end_of(none) =~= none);
    }
    let none = Seq::<char>::empty();
    assert(core =~= none + core && core =~= core + none);
    lemma_trim_start_pieces(none, core);
    lemma_trim_end_pieces(core, none);
}

/// Every text is white space, what trimming leaves of it, and white space.
pub proof fn texts_fall_apart_when_trimmed(s: Seq<char>) -> (r: (int, int))
    ensures
        0 <= r.0 <= r.1 <= s.len(),
        trim_of(s) == s.subrange(r.0, r.1),
        trim_end_of(s) == if r.0 < r.1 {
            s.take(r.1)
        } else {
            Seq::empty()
        },
        bare(s.subrange(r.0, r.1)),
        all_space(s.take(r.0)),
        all_space(s.skip(r.1)),
        trim_of(s).len() == 0 <==> all_space(s),
{
    if all_space(s) {
        let none = Seq::<char>::empty();
        trimming_takes_off_white_space(s, none, none);
        assert(s + none + none =~= s);
        assert(s.subrange(0, 0) =~= none);
        assert(s.skip(s.len() as int) =~= none);
        let n = s.len() as int;
        assert(s.subrange(n, n) =~= none);
        assert(s.take(n) =~= s);
        (n, n)
    } else {
        let i = choose|i: int| 0 <= i < s.len() && !is_space(#[trigger] s[i]);
        let a = lemma_first_solid(s, i);
        let b = lemma_last_solid(s, i);
        let core = s.subrange(a, b + 1);
        assert(core[0] == s[a] && core.last() == s[b]);
        assert(s.take(a) + core + s.skip(b + 1) =~= s);
        trimming_takes_off_white_space(s.take(a), core, s.skip(b + 1));
        assert(s.take(a) + core =~= s.take(b + 1));
        (a, b + 1)
    }
}

proof fn lemma_first_solid(s: Seq<char>, i: int) -> (r: int)
    requires
        0 <= i < s.len(),
        !is_space(s[i]),
    ensures
        0 <= r <= i,
        !is_space(s[r]),
        all_space(s.take(r)),
    decreases i,
{
    if all_space(s.take(i)) {
        i
    } else {
        let k = choose|k: int| 0 <= k < s.take(i).len() && !is_space(#[trigger] s.take(i)[k]);
        assert(s.take(i)[k] == s[k]);
        lemma_first_solid(s, k)
    }
}

proof fn lemma_last_solid(s: Seq<char>, i: int) -> (r: int)
    requires
        0 <= i < s.len(),
        !is_space(s[i]),
    ensures
        i <= r < s.len(),
        !is_space(s[r]),
        all_space(s.skip(r + 1)),
    decreases s.len() - i,
{
    let rest = s.skip(i + 1);
    if all_space(rest) {
        i
    } else {
        let k = choose|k: int| 0 <= k < rest.len() && !is_space(#[trigger] rest[k]);
        assert(rest[k] == s[i + 1 + k]);
        lemma_last_solid(s, i + 1 + k)
    }
}

/// The first `c` of a text ends the part in front of it.
pub proof fn the_first_one_counts(head: Seq<char>, c: char, rest: Seq<char>)
    requires
        !head.contains(c),
    ensures
        until_char(head + seq![c] + rest, c) == head.len(),
        until_char(head, c) == head.len(),
{
    let s = head + seq![c] + rest;
    let n = until_char(s, c) as int;
    lemma_until_char(s, c);
    assert(s[head.len() as int] == c);
    if n < head.len() {
        assert(head[n] == s[n]);
        assert(head.contains(c));
    }
    lemma_until_char(head, c);
    let k = until_char(head, c) as int;
    if k < head.len() {
        assert(head[k] == c);
    }
}

/// A line break ends a line, with or without a carriage return; the last line
/// needs none; and there is no line in an empty text.
pub proof fn breaks_end_lines(line: Seq<char>, rest: Seq<char>)
    requires
        !line.contains('\n'),
    ensures
        line.len() == 0 || line.last() != '\r' ==> lines_of(line + seq!['\n'] + rest) == seq![line]
            + lines_of(rest),
        lines_of(line + seq!['\r', '\n'] + rest) == seq![line] + lines_of(rest),
        line.len() > 0 ==> lines_of(line) == seq![line],
        lines_of(Seq::empty()) == Seq::<Seq<char>>::empty(),
{
    let s = line + seq!['\n'] + rest;
    the_first_one_counts(line, '\n', rest);
    assert(s.take(line.len() as int) =~= line);
    assert(s.skip(line.len() as int + 1) =~= rest);
    let with = line.push('\r');
    assert(!with.contains('\n')) by {
        assert forall|i: int| 0 <= i < with.len() implies with[i] != '\n' by {
            if i < line.len() {
                assert(with[i] == line[i]);
            }
        }
    }
    let s2 = line + seq!['\r', '\n'] + rest;
    assert(s2 =~= with + seq!['\n'] + rest);
    the_first_one_counts(with, '\n', rest);
    assert(s2.take(with.len() as int) =~= with);
    assert(s2.skip(with.len() as int + 1) =~= rest);
    assert(with.drop_last() =~= line);
    assert(lines_of(s2) == seq![strip_cr(with)] + lines_of(rest));
    assert(lines_of(Seq::<char>::empty()) =~= Seq::<Seq<char>>::empty());
}

proof fn lemma_word_pieces(word: Seq<char>, rest: Seq<char>)
    requires
        no_space(word),
        rest.len() > 0 ==> is_space(rest[0]),
    ensures
        word_len(word + rest) == word.len(),
    decreases word.len(),
{
    let s = word + rest;
    if word.len() > 0 {
        assert(s[0] == word[0]);
        assert(s.drop_first() =~= word.drop_first() + rest);
        assert forall|i: int| 0 <= i < word.drop_first().len() implies !is_space(
            #[trigger] word.drop_first()[i],
        ) by {
            assert(word.drop_first()[i] == word[i + 1]);
        }
        lemma_word_pieces(word.drop_first(), rest);
    } else {
        assert(s =~= rest);
    }
}

/// White space parts words, wherever it stands and however much there is.
pub proof fn white_space_parts_words(gap: Seq<char>, word: Seq<char>, rest: Seq<char>)
    requires
        all_space(gap),
        word.len() > 0,
        no_space(word),
        rest.len() > 0 ==> is_space(rest[0]),
    ensures
        words_of(gap + word + rest) == seq![word] + words_of(rest),
        words_of(gap) == Seq::<Seq<char>>::empty(),
        first_word_of(gap + word + rest) == word,
{
    let s = gap + word + rest;
    assert(s =~= gap + (word + rest));
    assert((word + rest)[0] == word[0]);
    lemma_trim_start_pieces(gap, word + rest);
    lemma_word_pieces(word, rest);
    assert((word + rest).take(word.len() as int) =~= word);
    assert((word + rest).skip(word.len() as int) =~= rest);
    let none = Seq::<char>::empty();
    assert(gap + none =~= gap);
    lemma_trim_start_pieces(gap, none);
    assert(words_of(gap) =~= Seq::<Seq<char>>::empty());
}

proof fn lemma_find(s: Seq<char>, pat: Seq<char>, from: int, at: int)
    requires
        0 <= from <= at,
        occurs_at(s, pat, at),
        forall|k: int| from <= k < at ==> !occurs_at(s, pat, k),
    ensures
        find_from(s, pat, from) == Some(at),
    decreases at - from,
{
    if from < at {
        assert(!occurs_at(s, pat, from));
        lemma_find(s, pat, from + 1, at);
    }
}

proof fn lemma_find_none(s: Seq<char>, pat: Seq<char>, from: int)
    requires
        0 <= from,
        forall|k: int| from <= k ==> !occurs_at(s, pat, k),
    ensures
        find_from(s, pat, from) is None,
    decreases s.len() - from,
{
    if from + pat.len() <= s.len() {
        assert(!occurs_at(s, pat, from));
        if from < s.len() {
            lemma_find_none(s, pat, from + 1);
        }
    }
}

pub proof fn lemma_found(s: Seq<char>, pat: Seq<char>, from: int)
    ensures
        find_from(s, pat, from) matches Some(i) ==> i >= from && occurs_at(s, pat, i),
    decreases s.len() - from,
{
    if from >= 0 && from + pat.len() <= s.len() && !occurs_at(s, pat, from) && from < s.len() {
        lemma_found(s, pat, from + 1);
    }
}

/// A text is found where it stands first, and found at all exactly if it stands
/// somewhere.
pub proof fn texts_are_found_where_they_stand_first(s: Seq<char>, pat: Seq<char>)
    ensures
        contains_text(s, pat) <==> exists|i: int| #[trigger] occurs_at(s, pat, i),
        forall|i: int| #[trigger]
            occurs_at(s, pat, i) && (forall|k: int| 0 <= k < i ==> !occurs_at(s, pat, k))
                ==> find_in(s, pat) == Some(i),
        starts_with_text(s, pat) <==> s.len() >= pat.len() && s.take(pat.len() as int) == pat,
{
    assert forall|i: int| #[trigger]
        occurs_at(s, pat, i) && (forall|k: int| 0 <= k < i ==> !occurs_at(s, pat, k)) implies find_in(
        s,
        pat,
    ) == Some(i) by {
        lemma_find(s, pat, 0, i);
    }
    if exists|i: int| #[trigger] occurs_at(s, pat, i) {
        let i = choose|i: int| #[trigger] occurs_at(s, pat, i);
        let f = lemma_first_place(s, pat, i);
        lemma_find(s, pat, 0, f);
    } else {
        assert(forall|k: int| 0 <= k ==> !occurs_at(s, pat, k));
        lemma_find_none(s, pat, 0);
    }
    assert(s.len() >= pat.len() ==> s.subrange(0, pat.len() as int) =~= s.take(pat.len() as int));
}

proof fn lemma_first_place(s: Seq<char>, pat: Seq<char>, i: int) -> (r: int)
    requires
        occurs_at(s, pat, i),
    ensures
        0 <= r <= i,
        occurs_at(s, pat, r),
        forall|k: int| 0 <= k < r ==> !occurs_at(s, pat, k),
    decreases i,
{
    if exists|k: int| 0 <= k < i && occurs_at(s, pat, k) {
        let k = choose|k: int| 0 <= k < i && occurs_at(s, pat, k);
        lemma_first_place(s, pat, k)
    } else {
        i
    }
}

/// A text falls apart at every separator, and a piece without one stays whole.
pub proof fn separators_part_texts(piece: Seq<char>, c: char, rest: Seq<char>)
    requires
        !piece.contains(c),
    ensures
        split_of(piece + seq![c] + rest, c) == seq![piece] + split_of(rest, c),
        split_of(piece, c) == seq![piece],
{
    let s = piece + seq![c] + rest;
    the_first_one_counts(piece, c, rest);
    assert(s.take(piece.len() as int) =~= piece);
    assert(s.skip(piece.len() as int + 1) =~= rest);
}

/// A separator stands between two neighbours, none in front and none behind.
pub proof fn separators_stand_between(parts: Seq<Seq<char>>, sep: Seq<char>, last: Seq<char>)
    ensures
        join_of(seq![last], sep) == last,
        join_of(Seq::empty(), sep) == Seq::<char>::empty(),
        parts.len() > 0 ==> join_of(parts.push(last), sep) == join_of(parts, sep) + sep + last,
{
    assert(parts.push(last).drop_last() =~= parts);
}

/// What was typed last is what is taken back.
pub proof fn taking_back_undoes_typing(s: Seq<char>, c: char)
    ensures
        popped(s.push(c)) == s,
        popped(Seq::empty()) == Seq::<char>::empty(),
{
    assert(s.push(c).drop_last() =~= s);
}

/// A digit behind a number makes it ten times as large, plus the digit.
pub proof fn digits_count_by_tens(s: Seq<char>, c: char)
    requires
        all_digits(s.push(c)),
    ensures
        digits_value(s.push(c)) == 10 * digits_value(s) + (c as int - 0x30),
        digits_value(Seq::empty()) == 0,
{
    assert(s.push(c).drop_last() =~= s);
    assert(is_digit(s.push(c)[s.len() as int]));
}

// ---------------------------------------------------------------------------
// Characters, numbers and order
// ---------------------------------------------------------------------------
/// Digits, letters and control characters are those of ASCII and Latin-1; the white space
/// below U+0100 is the tab, the line ends, the space, and the two of Latin-1.
pub proof fn characters_are_classed(c: char)
    ensures
        is_digit(c) <==> '0' <= c && c <= '9',
        is_ascii_alnum(c) <==> ('0' <= c && c <= '9') || ('a' <= c && c <= 'z') || ('A' <= c && c
            <= 'Z'),
        is_ctrl(c) <==> c < ' ' || ('\u{7f}' <= c && c <= '\u{9f}'),
        c < '\u{100}' ==> (is_space(c) <==> c == ' ' || ('\t' <= c && c <= '\r') || c == '\u{85}'
            || c == '\u{a0}'),
        is_space('\u{2028}') && is_space('\u{2029}') && is_space('\u{3000}') && is_space('\u{2003}')
            && is_space('\u{1680}') && is_space('\u{202f}') && is_space('\u{205f}'),
{
}

/// Small letters are thirty-two behind their capitals; whatever is no capital letter stays.
pub proof fn capitals_become_small(c: char, s: Seq<char>, i: int)
    requires
        0 <= i < s.len(),
    ensures
        'A' <= c && c <= 'Z' ==> lower_char(c) as int == c as int + 32,
        c < 'A' || 'Z' < c ==> lower_char(c) == c,
        lower(s).len() == s.len(),
        lower(s)[i] == lower_char(s[i]),
        lower(lower(s)) == lower(s),
{
    assert(lower(lower(s)) =~= lower(s));
}

/// Two texts are in order by the first character in which they differ; a text comes
/// before its continuations.
pub proof fn texts_are_in_order_by_their_first_difference(
    head: Seq<char>,
    a: char,
    b: char,
    x: Seq<char>,
    y: Seq<char>,
)
    requires
        a != b,
    ensures
        text_less(head + seq![a] + x, head + seq![b] + y) <==> a < b,
        text_less(head, head + seq![a] + x),
        !text_less(head + seq![a] + x, head),
        !text_less(head, head),
    decreases head.len(),
{
    let p = head + seq![a] + x;
    let q = head + seq![b] + y;
    if head.len() > 0 {
        let rest = head.drop_first();
        texts_are_in_order_by_their_first_difference(rest, a, b, x, y);
        assert(p.drop_first() =~= rest + seq![a] + x);
        assert(q.drop_first() =~= rest + seq![b] + y);
        assert(p[0] == head[0] && q[0] == head[0]);
    } else {
        assert(p[0] == a && q[0] == b);
    }
}

/// A number below zero has a minus in front, any other one is its digits alone.
pub proof fn numbers_have_their_sign(n: int)
    ensures
        n >= 0 ==> signed_decimal_of(n) == decimal_of(n as nat),
        n < 0 ==> signed_decimal_of(n) == seq!['-'] + decimal_of((-n) as nat),
        n >= 0 ==> parse_digits(signed_decimal_of(n)) == Some(n as nat),
{
    if n >= 0 {
        lemma_decimal_digits(n as nat);
    }
}

/// A number can be read with a plus in front and with zeros, up to the limit.
pub proof fn numbers_are_read(digits: Seq<char>, max: nat)
    requires
        digits.len() > 0,
        all_digits(digits),
    ensures
        digits_value(digits) <= max ==> parse_unsigned(digits, max) == Some(digits_value(digits))
            && parse_unsigned(seq!['+'] + digits, max) == Some(digits_value(digits)),
        digits_value(digits) > max ==> parse_unsigned(digits, max) is None,
        parse_unsigned(Seq::empty(), max) is None,
        parse_unsigned(seq!['-'] + digits, max) is None,
{
    assert(is_digit(digits[0]));
    let plus = seq!['+'] + digits;
    assert(plus.drop_first() =~= digits);
    let minus = seq!['-'] + digits;
    assert(minus[0] == '-' && !is_digit(minus[0]));
}

} // verus!
