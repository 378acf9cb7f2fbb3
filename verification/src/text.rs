//! Text primitives over sequences of characters.
//!
//! Strings are modelled by their characters (`Seq<char>`). The executable
//! functions work on character slices, so that a line is decoded once and then
//! cut into borrowed pieces.

use vstd::prelude::*;
use vstd::slice::slice_subrange;

verus! {

/// `String::push` appends one character.
pub assume_specification[ String::push ](s: &mut String, c: char)
    ensures
        final(s)@ == old(s)@.push(c),
;

// ---------------------------------------------------------------------------
// Characters
// ---------------------------------------------------------------------------
/// The Unicode property `White_Space`.
pub open spec fn is_space(c: char) -> bool {
    let n = c as int;
    ||| 0x09 <= n <= 0x0d
    ||| n == 0x20
    ||| n == 0x85
    ||| n == 0xa0
    ||| n == 0x1680
    ||| 0x2000 <= n <= 0x200a
    ||| n == 0x2028
    ||| n == 0x2029
    ||| n == 0x202f
    ||| n == 0x205f
    ||| n == 0x3000
}

/// The Unicode general category `Cc`: C0, DEL and C1.
pub open spec fn is_ctrl(c: char) -> bool {
    let n = c as int;
    n <= 0x1f || 0x7f <= n <= 0x9f
}

pub open spec fn is_digit(c: char) -> bool {
    0x30 <= c as int <= 0x39
}

pub open spec fn is_ascii_alpha(c: char) -> bool {
    0x41 <= c as int <= 0x5a || 0x61 <= c as int <= 0x7a
}

pub open spec fn is_ascii_alnum(c: char) -> bool {
    is_digit(c) || is_ascii_alpha(c)
}

/// Nothing but ASCII characters.
pub open spec fn is_ascii_text(s: Seq<char>) -> bool {
    forall|i: int| 0 <= i < s.len() ==> #[trigger] s[i] as int <= 0x7f
}

/// ASCII capital letters become small ones; everything else stays.
pub open spec fn lower_char(c: char) -> char {
    if 0x41 <= c as int <= 0x5a {
        (c as int + 0x20) as char
    } else {
        c
    }
}

pub open spec fn lower(s: Seq<char>) -> Seq<char> {
    s.map_values(|c: char| lower_char(c))
}

pub fn is_whitespace(c: char) -> (r: bool)
    ensures
        r == is_space(c),
{
    let n: u32 = c as u32;
    (0x09 <= n && n <= 0x0d) || n == 0x20 || n == 0x85 || n == 0xa0 || n == 0x1680 || (0x2000 <= n
        && n <= 0x200a) || n == 0x2028 || n == 0x2029 || n == 0x202f || n == 0x205f || n == 0x3000
}

pub fn is_control(c: char) -> (r: bool)
    ensures
        r == is_ctrl(c),
{
    let n: u32 = c as u32;
    n <= 0x1f || (0x7f <= n && n <= 0x9f)
}

pub fn is_ascii_digit(c: char) -> (r: bool)
    ensures
        r == is_digit(c),
{
    let n: u32 = c as u32;
    0x30 <= n && n <= 0x39
}

pub fn is_ascii_alphanumeric(c: char) -> (r: bool)
    ensures
        r == is_ascii_alnum(c),
{
    let n: u32 = c as u32;
    (0x30 <= n && n <= 0x39) || (0x41 <= n && n <= 0x5a) || (0x61 <= n && n <= 0x7a)
}

pub fn ascii_lowercase(c: char) -> (r: char)
    ensures
        r == lower_char(c),
{
    let n: u32 = c as u32;
    if 0x41 <= n && n <= 0x5a {
        ((n + 0x20) as u8) as char
    } else {
        c
    }
}

// ---------------------------------------------------------------------------
// Conversions
// ---------------------------------------------------------------------------
/// The models of a list of strings.
pub open spec fn views(v: Seq<String>) -> Seq<Seq<char>> {
    v.map_values(|s: String| s@)
}

/// The model of an optional string.
pub open spec fn opt_view(o: Option<String>) -> Option<Seq<char>> {
    match o {
        Some(s) => Some(s@),
        None => None,
    }
}

/// The characters of a string, in order.
pub fn chars_of(s: &str) -> (r: Vec<char>)
    ensures
        r@ == s@,
{
    let mut out: Vec<char> = Vec::new();
    for c in it: s.chars()
        invariant
            it.seq() == s@,
            out@ == s@.take(it.index() as int),
    {
        out.push(c);
    }
    out
}

/// A string made of the given characters.
pub fn string_of(s: &[char]) -> (r: String)
    ensures
        r@ == s@,
{
    let mut out: String = String::new();
    let mut i: usize = 0;
    while i < s.len()
        invariant
            i <= s@.len(),
            out@ == s@.take(i as int),
        decreases s.len() - i,
    {
        out.push(s[i]);
        i += 1;
    }
    out
}

pub fn clone_opt(o: &Option<String>) -> (r: Option<String>)
    ensures
        opt_view(r) == opt_view(*o),
{
    match o {
        Some(s) => Some(s.clone()),
        None => None,
    }
}

pub fn clone_strings(v: &Vec<String>) -> (r: Vec<String>)
    ensures
        views(r@) == views(v@),
{
    let mut out: Vec<String> = Vec::new();
    let mut i: usize = 0;
    while i < v.len()
        invariant
            i <= v@.len(),
            out@.len() == i,
            forall|k: int| 0 <= k < i ==> (#[trigger] out@[k])@ == v@[k]@,
        decreases v.len() - i,
    {
        out.push(v[i].clone());
        i += 1;
    }
    assert(views(out@) =~= views(v@));
    out
}

/// The text without its last character.
pub open spec fn popped(s: Seq<char>) -> Seq<char> {
    if s.len() > 0 {
        s.drop_last()
    } else {
        s
    }
}

/// Removes the last character, if there is one.
pub fn pop_char(s: &mut String)
    ensures
        final(s)@ == popped(old(s)@),
{
    let chars: Vec<char> = chars_of(s.as_str());
    if chars.len() > 0 {
        let head = slice_subrange(chars.as_slice(), 0, chars.len() - 1);
        assert(head@ =~= chars@.drop_last());
        *s = string_of(head);
    }
}

/// Equality of two strings given as characters and as a `str`.
pub fn same_text(a: &[char], b: &str) -> (r: bool)
    ensures
        r == (a@ == b@),
{
    let other: Vec<char> = chars_of(b);
    same_chars(a, other.as_slice())
}

pub fn same_chars(a: &[char], b: &[char]) -> (r: bool)
    ensures
        r == (a@ == b@),
{
    if a.len() != b.len() {
        return false;
    }
    let mut i: usize = 0;
    while i < a.len()
        invariant
            a@.len() == b@.len(),
            i <= a@.len(),
            forall|k: int| 0 <= k < i ==> a@[k] == b@[k],
        decreases a.len() - i,
    {
        if a[i] != b[i] {
            return false;
        }
        i += 1;
    }
    assert(a@ =~= b@);
    true
}

/// Equality of two strings.
pub fn same_str(a: &str, b: &str) -> (r: bool)
    ensures
        r == (a@ == b@),
{
    let left: Vec<char> = chars_of(a);
    same_text(left.as_slice(), b)
}

pub fn lowercase_ascii(s: &[char]) -> (r: Vec<char>)
    ensures
        r@ == lower(s@),
{
    let mut out: Vec<char> = Vec::new();
    let mut i: usize = 0;
    while i < s.len()
        invariant
            i <= s@.len(),
            out@.len() == i,
            forall|k: int| 0 <= k < i ==> out@[k] == lower_char(s@[k]),
        decreases s.len() - i,
    {
        out.push(ascii_lowercase(s[i]));
        i += 1;
    }
    assert(out@ =~= lower(s@));
    out
}

// ---------------------------------------------------------------------------
// Trimming
// ---------------------------------------------------------------------------
/// The text without its leading white space.
pub open spec fn trim_start_of(s: Seq<char>) -> Seq<char>
    decreases s.len(),
{
    if s.len() > 0 && is_space(s[0]) {
        trim_start_of(s.drop_first())
    } else {
        s
    }
}

/// The text without its trailing white space.
pub open spec fn trim_end_of(s: Seq<char>) -> Seq<char>
    decreases s.len(),
{
    if s.len() > 0 && is_space(s.last()) {
        trim_end_of(s.drop_last())
    } else {
        s
    }
}

/// The text without the white space around it.
pub open spec fn trim_of(s: Seq<char>) -> Seq<char> {
    trim_end_of(trim_start_of(s))
}

pub fn trim_start(s: &[char]) -> (r: &[char])
    ensures
        r@ == trim_start_of(s@),
{
    let mut i: usize = 0;
    assert(s@.skip(0) =~= s@);
    while i < s.len() && is_whitespace(s[i])
        invariant
            i <= s@.len(),
            trim_start_of(s@.skip(i as int)) == trim_start_of(s@),
        decreases s.len() - i,
    {
        assert(s@.skip(i as int).drop_first() =~= s@.skip(i + 1));
        i += 1;
    }
    let r = slice_subrange(s, i, s.len());
    assert(r@ =~= s@.skip(i as int));
    r
}

pub fn trim_end(s: &[char]) -> (r: &[char])
    ensures
        r@ == trim_end_of(s@),
{
    let mut n: usize = s.len();
    assert(s@.take(n as int) =~= s@);
    while n > 0 && is_whitespace(s[n - 1])
        invariant
            n <= s@.len(),
            trim_end_of(s@.take(n as int)) == trim_end_of(s@),
        decreases n,
    {
        assert(s@.take(n as int).drop_last() =~= s@.take(n - 1));
        n -= 1;
    }
    let r = slice_subrange(s, 0, n);
    assert(r@ =~= s@.take(n as int));
    r
}

pub fn trim(s: &[char]) -> (r: &[char])
    ensures
        r@ == trim_of(s@),
{
    trim_end(trim_start(s))
}

/// `trim` on a `str`.
pub fn trim_str(s: &str) -> (r: String)
    ensures
        r@ == trim_of(s@),
{
    let chars: Vec<char> = chars_of(s);
    string_of(trim(chars.as_slice()))
}

/// A text whose trimmed form is empty.
pub fn is_blank(s: &str) -> (r: bool)
    ensures
        r == (trim_of(s@).len() == 0),
{
    let chars: Vec<char> = chars_of(s);
    trim(chars.as_slice()).len() == 0
}

// ---------------------------------------------------------------------------
// Searching
// ---------------------------------------------------------------------------
/// `pat` stands in `s` at position `i`.
pub open spec fn occurs_at(s: Seq<char>, pat: Seq<char>, i: int) -> bool {
    &&& 0 <= i
    &&& i + pat.len() <= s.len()
    &&& s.subrange(i, i + pat.len()) == pat
}

/// The first position at or after `i` where `pat` stands in `s`.
pub open spec fn find_from(s: Seq<char>, pat: Seq<char>, i: int) -> Option<int>
    decreases s.len() - i,
{
    if i < 0 || i + pat.len() > s.len() {
        None
    } else if occurs_at(s, pat, i) {
        Some(i)
    } else if i >= s.len() {
        None
    } else {
        find_from(s, pat, i + 1)
    }
}

/// The first position where `pat` stands in `s`.
pub open spec fn find_in(s: Seq<char>, pat: Seq<char>) -> Option<int> {
    find_from(s, pat, 0)
}

pub open spec fn contains_text(s: Seq<char>, pat: Seq<char>) -> bool {
    find_in(s, pat) is Some
}

pub open spec fn starts_with_text(s: Seq<char>, pat: Seq<char>) -> bool {
    occurs_at(s, pat, 0)
}

/// `pat` stands in the slice at position `i`.
fn matches_at(s: &[char], pat: &[char], i: usize) -> (r: bool)
    requires
        i <= s@.len(),
    ensures
        r == occurs_at(s@, pat@, i as int),
{
    let n: usize = s.len();
    if pat.len() > n - i {
        return false;
    }
    let mut k: usize = 0;
    while k < pat.len()
        invariant
            k <= pat@.len(),
            n == s@.len(),
            i + pat@.len() <= s@.len(),
            forall|j: int| 0 <= j < k ==> s@[i + j] == pat@[j],
        decreases pat.len() - k,
    {
        if s[i + k] != pat[k] {
            assert(s@.subrange(i as int, i + pat@.len())[k as int] != pat@[k as int]);
            return false;
        }
        k += 1;
    }
    assert(s@.subrange(i as int, i + pat@.len()) =~= pat@);
    true
}

pub fn find(s: &[char], pat: &str) -> (r: Option<usize>)
    ensures
        match r {
            Some(i) => find_in(s@, pat@) == Some(i as int) && i + pat@.len() <= s@.len(),
            None => find_in(s@, pat@) is None,
        },
{
    let p: Vec<char> = chars_of(pat);
    let mut i: usize = 0;
    while i < s.len()
        invariant
            i <= s@.len(),
            p@ == pat@,
            find_from(s@, pat@, i as int) == find_in(s@, pat@),
        decreases s.len() - i,
    {
        if matches_at(s, p.as_slice(), i) {
            return Some(i);
        }
        i += 1;
    }
    if matches_at(s, p.as_slice(), i) {
        Some(i)
    } else {
        None
    }
}

pub fn starts_with(s: &[char], pat: &str) -> (r: bool)
    ensures
        r == starts_with_text(s@, pat@),
{
    let p: Vec<char> = chars_of(pat);
    matches_at(s, p.as_slice(), 0)
}

pub fn contains_char(s: &[char], c: char) -> (r: bool)
    ensures
        r == s@.contains(c),
{
    let mut i: usize = 0;
    while i < s.len()
        invariant
            i <= s@.len(),
            forall|k: int| 0 <= k < i ==> s@[k] != c,
        decreases s.len() - i,
    {
        if s[i] == c {
            return true;
        }
        i += 1;
    }
    false
}

/// The number of characters before the first `c`, or all of them.
pub open spec fn until_char(s: Seq<char>, c: char) -> nat
    decreases s.len(),
{
    if s.len() == 0 || s[0] == c {
        0
    } else {
        1 + until_char(s.drop_first(), c)
    }
}

pub proof fn lemma_until_char(s: Seq<char>, c: char)
    ensures
        until_char(s, c) <= s.len(),
        until_char(s, c) < s.len() ==> s[until_char(s, c) as int] == c,
        forall|k: int| 0 <= k < until_char(s, c) ==> s[k] != c,
    decreases s.len(),
{
    if s.len() == 0 || s[0] == c {
    } else {
        lemma_until_char(s.drop_first(), c);
        assert forall|k: int| 0 <= k < until_char(s, c) implies s[k] != c by {
            if k > 0 {
                assert(s.drop_first()[k - 1] == s[k]);
            }
        }
    }
}

pub fn index_of_char(s: &[char], c: char) -> (r: usize)
    ensures
        r == until_char(s@, c),
        r <= s@.len(),
        r < s@.len() ==> s@[r as int] == c,
{
    let mut i: usize = 0;
    assert(s@.skip(0) =~= s@);
    while i < s.len() && s[i] != c
        invariant
            i <= s@.len(),
            until_char(s@, c) == i + until_char(s@.skip(i as int), c),
        decreases s.len() - i,
    {
        assert(s@.skip(i as int).drop_first() =~= s@.skip(i + 1));
        i += 1;
    }
    i
}

// ---------------------------------------------------------------------------
// Words and lines
// ---------------------------------------------------------------------------
/// The length of the longest prefix without white space.
pub open spec fn word_len(s: Seq<char>) -> nat
    decreases s.len(),
{
    if s.len() == 0 || is_space(s[0]) {
        0
    } else {
        1 + word_len(s.drop_first())
    }
}

pub proof fn lemma_word_len(s: Seq<char>)
    ensures
        word_len(s) <= s.len(),
    decreases s.len(),
{
    if s.len() == 0 || is_space(s[0]) {
    } else {
        lemma_word_len(s.drop_first());
    }
}

pub proof fn lemma_trim_start_len(s: Seq<char>)
    ensures
        trim_start_of(s).len() <= s.len(),
        trim_start_of(s).len() > 0 ==> !is_space(trim_start_of(s)[0]),
    decreases s.len(),
{
    if s.len() > 0 && is_space(s[0]) {
        lemma_trim_start_len(s.drop_first());
    }
}

/// The first maximal run of characters other than white space; empty if there is none.
pub open spec fn first_word_of(s: Seq<char>) -> Seq<char> {
    let t = trim_start_of(s);
    t.take(word_len(t) as int)
}

/// The maximal runs of characters other than white space, in order.
pub open spec fn words_of(s: Seq<char>) -> Seq<Seq<char>>
    decreases s.len(),
{
    let t = trim_start_of(s);
    if t.len() == 0 {
        Seq::empty()
    } else {
        let n = word_len(t) as int;
        proof {
            lemma_trim_start_len(s);
            lemma_word_len(t);
            lemma_word_len(t.drop_first());
        }
        seq![t.take(n)] + words_of(t.skip(n))
    }
}

fn count_word(s: &[char]) -> (r: usize)
    ensures
        r == word_len(s@),
        r <= s@.len(),
{
    let mut i: usize = 0;
    assert(s@.skip(0) =~= s@);
    while i < s.len() && !is_whitespace(s[i])
        invariant
            i <= s@.len(),
            word_len(s@) == i + word_len(s@.skip(i as int)),
        decreases s.len() - i,
    {
        assert(s@.skip(i as int).drop_first() =~= s@.skip(i + 1));
        i += 1;
    }
    i
}

pub fn first_word(s: &[char]) -> (r: &[char])
    ensures
        r@ == first_word_of(s@),
{
    let t = trim_start(s);
    let n: usize = count_word(t);
    let r = slice_subrange(t, 0, n);
    assert(r@ =~= t@.take(n as int));
    r
}

/// The rest of the text after its first word.
pub open spec fn after_first_word(s: Seq<char>) -> Seq<char> {
    let t = trim_start_of(s);
    t.skip(word_len(t) as int)
}

/// Splits off the first word; `None` for a text of white space only.
pub fn next_word(s: &[char]) -> (r: Option<(&[char], &[char])>)
    ensures
        match r {
            Some((word, rest)) => {
                &&& words_of(s@) == seq![word@] + words_of(rest@)
                &&& word@ == first_word_of(s@)
                &&& rest@ == after_first_word(s@)
                &&& rest@.len() < s@.len()
                &&& word@.len() > 0
            },
            None => words_of(s@) =~= Seq::<Seq<char>>::empty() && first_word_of(s@).len() == 0,
        },
{
    proof {
        lemma_trim_start_len(s@);
    }
    let t = trim_start(s);
    if t.len() == 0 {
        return None;
    }
    let n: usize = count_word(t);
    let word = slice_subrange(t, 0, n);
    let rest = slice_subrange(t, n, t.len());
    assert(word@ =~= t@.take(n as int));
    assert(rest@ =~= t@.skip(n as int));
    Some((word, rest))
}

/// A carriage return at the end is part of the line break.
pub open spec fn strip_cr(s: Seq<char>) -> Seq<char> {
    if s.len() > 0 && s.last() == '\r' {
        s.drop_last()
    } else {
        s
    }
}

/// The lines of a text: what stands before each `\n` (without a `\r` before
/// it), and what follows the last one unless it is empty.
pub open spec fn lines_of(s: Seq<char>) -> Seq<Seq<char>>
    decreases s.len(),
{
    if s.len() == 0 {
        Seq::empty()
    } else {
        let n = until_char(s, '\n') as int;
        if n >= s.len() {
            seq![s]
        } else {
            seq![strip_cr(s.take(n))] + lines_of(s.skip(n + 1))
        }
    }
}

pub fn without_cr(s: &[char]) -> (r: &[char])
    ensures
        r@ == strip_cr(s@),
{
    if s.len() > 0 && s[s.len() - 1] == '\r' {
        let r = slice_subrange(s, 0, s.len() - 1);
        assert(r@ =~= s@.drop_last());
        r
    } else {
        s
    }
}

/// Splits off the first line; `None` for the empty text.
pub fn next_line(s: &[char]) -> (r: Option<(&[char], &[char])>)
    ensures
        match r {
            Some((line, rest)) => {
                &&& lines_of(s@) == seq![line@] + lines_of(rest@)
                &&& rest@.len() < s@.len()
            },
            None => s@.len() == 0 && lines_of(s@) =~= Seq::<Seq<char>>::empty(),
        },
{
    if s.len() == 0 {
        return None;
    }
    let n: usize = index_of_char(s, '\n');
    if n >= s.len() {
        let rest = slice_subrange(s, s.len(), s.len());
        assert(lines_of(rest@) =~= Seq::<Seq<char>>::empty());
        assert(seq![s@] + lines_of(rest@) =~= seq![s@]);
        Some((s, rest))
    } else {
        let line = without_cr(slice_subrange(s, 0, n));
        let rest = slice_subrange(s, n + 1, s.len());
        assert(s@.subrange(0, n as int) =~= s@.take(n as int));
        assert(rest@ =~= s@.skip(n + 1));
        Some((line, rest))
    }
}

/// The lines of a text.
pub fn lines(s: &str) -> (r: Vec<String>)
    ensures
        views(r@) == lines_of(s@),
{
    let chars: Vec<char> = chars_of(s);
    let mut rest: &[char] = chars.as_slice();
    let mut out: Vec<String> = Vec::new();
    assert(views(out@) + lines_of(rest@) =~= lines_of(s@));
    while rest.len() > 0
        invariant
            views(out@) + lines_of(rest@) == lines_of(s@),
        decreases rest@.len(),
    {
        match next_line(rest) {
            Some((line, tail)) => {
                let ghost before = views(out@);
                let owned: String = string_of(line);
                out.push(owned);
                assert(views(out@) =~= before + seq![line@]);
                assert(views(out@) + lines_of(tail@) =~= before + (seq![line@] + lines_of(tail@)));
                rest = tail;
            },
            None => {},
        }
    }
    assert(views(out@) + lines_of(rest@) =~= views(out@));
    out
}

/// The words of a text.
pub fn words(s: &str) -> (r: Vec<String>)
    ensures
        views(r@) == words_of(s@),
{
    let chars: Vec<char> = chars_of(s);
    let mut rest: &[char] = chars.as_slice();
    let mut out: Vec<String> = Vec::new();
    let mut more: bool = true;
    assert(views(out@) + words_of(rest@) =~= words_of(s@));
    while more
        invariant
            views(out@) + words_of(rest@) == words_of(s@),
            !more ==> words_of(rest@).len() == 0,
        decreases rest@.len() + if more {
            1int
        } else {
            0
        },
    {
        match next_word(rest) {
            Some((word, tail)) => {
                let ghost before = views(out@);
                let owned: String = string_of(word);
                out.push(owned);
                assert(views(out@) =~= before + seq![word@]);
                assert(views(out@) + words_of(tail@) =~= before + (seq![word@] + words_of(tail@)));
                rest = tail;
            },
            None => {
                more = false;
            },
        }
    }
    assert(views(out@) + words_of(rest@) =~= views(out@));
    out
}

/// The pieces of a text between occurrences of `c`; one more than those.
pub open spec fn split_of(s: Seq<char>, c: char) -> Seq<Seq<char>>
    decreases s.len(),
{
    let n = until_char(s, c) as int;
    if n >= s.len() {
        seq![s]
    } else {
        seq![s.take(n)] + split_of(s.skip(n + 1), c)
    }
}

/// Splits a text at every `c`.
pub fn split_char(s: &[char], c: char) -> (r: Vec<String>)
    ensures
        views(r@) == split_of(s@, c),
{
    let mut rest: &[char] = s;
    let mut out: Vec<String> = Vec::new();
    let mut n: usize = index_of_char(rest, c);
    assert(views(out@) + split_of(rest@, c) =~= split_of(s@, c));
    while n < rest.len()
        invariant
            n == until_char(rest@, c),
            n <= rest@.len(),
            views(out@) + split_of(rest@, c) == split_of(s@, c),
        decreases rest@.len(),
    {
        let piece = slice_subrange(rest, 0, n);
        let tail = slice_subrange(rest, n + 1, rest.len());
        assert(piece@ =~= rest@.take(n as int));
        assert(tail@ =~= rest@.skip(n + 1));
        let ghost before = views(out@);
        let owned: String = string_of(piece);
        out.push(owned);
        assert(views(out@) =~= before + seq![piece@]);
        assert(views(out@) + split_of(tail@, c) =~= before + (seq![piece@] + split_of(tail@, c)));
        rest = tail;
        n = index_of_char(rest, c);
    }
    let ghost before = views(out@);
    let owned: String = string_of(rest);
    out.push(owned);
    assert(views(out@) =~= before + seq![rest@]);
    out
}

/// Whether `pat` stands anywhere in `s`.
pub fn contains(s: &str, pat: &str) -> (r: bool)
    ensures
        r == contains_text(s@, pat@),
{
    let chars: Vec<char> = chars_of(s);
    match find(chars.as_slice(), pat) {
        Some(_) => true,
        None => false,
    }
}

// ---------------------------------------------------------------------------
// Numbers
// ---------------------------------------------------------------------------
pub open spec fn all_digits(s: Seq<char>) -> bool {
    forall|i: int| 0 <= i < s.len() ==> is_digit(#[trigger] s[i])
}

/// The number that a run of decimal digits stands for.
pub open spec fn digits_value(s: Seq<char>) -> nat
    decreases s.len(),
{
    if s.len() == 0 {
        0
    } else {
        10 * digits_value(s.drop_last()) + (s.last() as int - 0x30) as nat
    }
}

/// A non-empty run of decimal digits as a number.
pub open spec fn parse_digits(s: Seq<char>) -> Option<nat> {
    if s.len() > 0 && all_digits(s) {
        Some(digits_value(s))
    } else {
        None
    }
}

/// Decimal digits with an optional `+` in front, up to `max`.
pub open spec fn parse_unsigned(s: Seq<char>, max: nat) -> Option<nat> {
    let body = if s.len() > 0 && s[0] == '+' {
        s.drop_first()
    } else {
        s
    };
    match parse_digits(body) {
        Some(v) if v <= max => Some(v),
        _ => None,
    }
}

/// Decimal digits as a number of at most `max`.
pub fn read_digits(s: &[char], max: u64) -> (r: Option<u64>)
    ensures
        match parse_digits(s@) {
            Some(v) if v <= max => r == Some(v as u64),
            _ => r is None,
        },
{
    if s.len() == 0 {
        return None;
    }
    let mut i: usize = 0;
    let mut acc: u64 = 0;
    let mut fits: bool = true;
    while i < s.len()
        invariant
            i <= s@.len(),
            forall|k: int| 0 <= k < i ==> is_digit(#[trigger] s@[k]),
            fits ==> acc <= max && acc == digits_value(s@.take(i as int)),
            !fits ==> digits_value(s@.take(i as int)) > max,
        decreases s.len() - i,
    {
        if !is_ascii_digit(s[i]) {
            return None;
        }
        let d: u64 = s[i] as u64 - 0x30;
        assert(s@.take(i + 1).drop_last() =~= s@.take(i as int));
        if fits {
            if d <= max && acc <= (max - d) / 10 {
                acc = 10 * acc + d;
            } else {
                fits = false;
            }
        }
        i += 1;
    }
    assert(s@.take(i as int) =~= s@);
    assert(all_digits(s@));
    if fits {
        Some(acc)
    } else {
        None
    }
}

/// `parse` to an unsigned integer of at most `max`.
pub fn read_unsigned(s: &[char], max: u64) -> (r: Option<u64>)
    ensures
        match parse_unsigned(s@, max as nat) {
            Some(v) => r == Some(v as u64) && v <= max,
            None => r is None,
        },
{
    if s.len() > 0 && s[0] == '+' {
        let body = slice_subrange(s, 1, s.len());
        assert(body@ =~= s@.drop_first());
        read_digits(body, max)
    } else {
        read_digits(s, max)
    }
}

/// The decimal digit for a number below ten.
pub open spec fn digit_char(d: nat) -> char {
    (0x30 + d) as char
}

/// A natural number in decimal notation.
pub open spec fn decimal_of(n: nat) -> Seq<char>
    decreases n,
{
    if n < 10 {
        seq![digit_char(n)]
    } else {
        decimal_of(n / 10).push(digit_char(n % 10))
    }
}

/// An integer in decimal notation.
pub open spec fn signed_decimal_of(n: int) -> Seq<char> {
    if n < 0 {
        seq!['-'] + decimal_of((-n) as nat)
    } else {
        decimal_of(n as nat)
    }
}

fn push_decimal(n: u64, out: &mut String)
    ensures
        final(out)@ == old(out)@ + decimal_of(n as nat),
    decreases n,
{
    if n >= 10 {
        push_decimal(n / 10, out);
    }
    let c: char = (0x30u8 + (n % 10) as u8) as char;
    out.push(c);
    assert(out@ =~= old(out)@ + decimal_of(n as nat));
}

pub fn decimal(n: u64) -> (r: String)
    ensures
        r@ == decimal_of(n as nat),
{
    let mut out: String = String::new();
    push_decimal(n, &mut out);
    assert(out@ =~= decimal_of(n as nat));
    out
}

pub fn signed_decimal(n: i64) -> (r: String)
    ensures
        r@ == signed_decimal_of(n as int),
{
    let mut out: String = String::new();
    if n < 0 {
        out.push('-');
        let magnitude: u64 = (0 - n as i128) as u64;
        push_decimal(magnitude, &mut out);
        assert(out@ =~= signed_decimal_of(n as int));
    } else {
        push_decimal(n as u64, &mut out);
        assert(out@ =~= signed_decimal_of(n as int));
    }
    out
}

pub proof fn lemma_decimal_digits(n: nat)
    ensures
        decimal_of(n).len() > 0,
        all_digits(decimal_of(n)),
        digits_value(decimal_of(n)) == n,
    decreases n,
{
    if n < 10 {
        let s = decimal_of(n);
        assert(s.drop_last() =~= Seq::empty());
        assert(digits_value(s.drop_last()) == 0);
    } else {
        lemma_decimal_digits(n / 10);
        let s = decimal_of(n);
        assert(s.drop_last() =~= decimal_of(n / 10));
        assert forall|i: int| 0 <= i < s.len() implies is_digit(#[trigger] s[i]) by {
            if i < s.len() - 1 {
                assert(s[i] == decimal_of(n / 10)[i]);
            }
        }
    }
}

/// Reading back a number that was written in decimal notation gives the number.
pub proof fn decimal_reads_back(n: nat)
    ensures
        parse_digits(decimal_of(n)) == Some(n),
{
    lemma_decimal_digits(n);
}

// ---------------------------------------------------------------------------
// Joining
// ---------------------------------------------------------------------------
/// The parts with `sep` between them.
pub open spec fn join_of(parts: Seq<Seq<char>>, sep: Seq<char>) -> Seq<char>
    decreases parts.len(),
{
    if parts.len() == 0 {
        Seq::empty()
    } else if parts.len() == 1 {
        parts[0]
    } else {
        join_of(parts.drop_last(), sep) + sep + parts.last()
    }
}

pub fn join(parts: &Vec<String>, sep: &str) -> (r: String)
    ensures
        r@ == join_of(views(parts@), sep@),
{
    let mut out: String = String::new();
    let mut i: usize = 0;
    while i < parts.len()
        invariant
            i <= parts@.len(),
            out@ == join_of(views(parts@.take(i as int)), sep@),
        decreases parts.len() - i,
    {
        let ghost now = views(parts@.take(i + 1));
        assert(now.drop_last() =~= views(parts@.take(i as int)));
        assert(now.last() == parts@[i as int]@);
        if i > 0 {
            out.append(sep);
        }
        out.append(parts[i].as_str());
        assert(out@ =~= join_of(now, sep@));
        i += 1;
    }
    assert(parts@.take(i as int) =~= parts@);
    out
}

// ---------------------------------------------------------------------------
// Order
// ---------------------------------------------------------------------------
/// Lexicographic order by code point.
pub open spec fn text_less(a: Seq<char>, b: Seq<char>) -> bool
    decreases a.len(),
{
    if b.len() == 0 {
        false
    } else if a.len() == 0 {
        true
    } else if a[0] == b[0] {
        text_less(a.drop_first(), b.drop_first())
    } else {
        (a[0] as int) < (b[0] as int)
    }
}

/// The order is irreflexive, and of two different texts one comes first.
pub proof fn text_order_is_total(a: Seq<char>, b: Seq<char>)
    ensures
        !text_less(a, a),
        !(text_less(a, b) && text_less(b, a)),
        a != b ==> text_less(a, b) || text_less(b, a),
    decreases a.len(),
{
    if a.len() > 0 {
        if b.len() > 0 {
            text_order_is_total(a.drop_first(), b.drop_first());
            if a[0] == b[0] && a.drop_first() == b.drop_first() {
                assert(a =~= seq![a[0]] + a.drop_first());
                assert(b =~= seq![b[0]] + b.drop_first());
            }
        } else {
            text_order_is_total(a.drop_first(), b);
        }
    } else if b.len() == 0 {
        assert(a =~= b);
    }
}

pub proof fn text_order_is_transitive(a: Seq<char>, b: Seq<char>, c: Seq<char>)
    requires
        text_less(a, b),
        text_less(b, c),
    ensures
        text_less(a, c),
    decreases a.len(),
{
    if a.len() > 0 && a[0] == b[0] && b[0] == c[0] {
        text_order_is_transitive(a.drop_first(), b.drop_first(), c.drop_first());
    }
}

fn char_less(a: char, b: char) -> (r: bool)
    ensures
        r == ((a as int) < (b as int)),
{
    (a as u32) < (b as u32)
}

pub fn less(a: &str, b: &str) -> (r: bool)
    ensures
        r == text_less(a@, b@),
{
    let left: Vec<char> = chars_of(a);
    let right: Vec<char> = chars_of(b);
    let mut i: usize = 0;
    assert(left@.skip(0) =~= left@);
    assert(right@.skip(0) =~= right@);
    while i < left.len() && i < right.len() && left[i] == right[i]
        invariant
            i <= left@.len(),
            i <= right@.len(),
            left@ == a@,
            right@ == b@,
            text_less(left@.skip(i as int), right@.skip(i as int)) == text_less(a@, b@),
        decreases left.len() - i,
    {
        assert(left@.skip(i as int).drop_first() =~= left@.skip(i + 1));
        assert(right@.skip(i as int).drop_first() =~= right@.skip(i + 1));
        i += 1;
    }
    if i >= right.len() {
        false
    } else if i >= left.len() {
        true
    } else {
        assert(left@.skip(i as int)[0] == left@[i as int]);
        assert(right@.skip(i as int)[0] == right@[i as int]);
        char_less(left[i], right[i])
    }
}

} // verus!
