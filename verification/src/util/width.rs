//! Cutting text by the columns it takes on a screen.
//!
//! East Asian characters take two columns and some characters none, so neither
//! bytes nor characters can be counted. No character is ever cut in half.

use crate::text::{
    chars_of, is_control, is_ctrl, string_of,
};
use unicode_width::{UnicodeWidthChar, UnicodeWidthStr};
use vstd::prelude::*;
use vstd::slice::slice_subrange;

verus! {

/// What `unicode_width` gives as the width of a string.
pub uninterp spec fn text_columns(s: Seq<char>) -> nat;

/// What `unicode_width` gives as the width of a character.
pub uninterp spec fn char_columns(c: char) -> Option<usize>;

/// A character between the space and the tilde.
pub open spec fn is_printable_ascii(c: char) -> bool {
    0x20 <= c as int <= 0x7e
}

pub open spec fn printable_ascii(s: Seq<char>) -> bool {
    forall|i: int| 0 <= i < s.len() ==> is_printable_ascii(#[trigger] s[i])
}

/// `UnicodeWidthStr::width`: the columns of a string. Printable ASCII takes one
/// column per character, and each space behind a text one more, as far as the sum can
/// be counted; for other text the width is only named.
#[verifier::external_body]
fn unicode_str_width(text: &str) -> (r: usize)
    ensures
        r == text_columns(text@),
        printable_ascii(text@) ==> r == text@.len(),
        forall|n: int|
            0 <= n && r + n <= usize::MAX ==> #[trigger] text_columns(text@ + spaces(n)) == r + n,
{
    UnicodeWidthStr::width(text)
}

/// `UnicodeWidthChar::width`: the columns of a character, none exactly for a
/// control character. Printable ASCII takes one column; the width of other
/// characters is only named.
#[verifier::external_body]
fn unicode_char_width(c: char) -> (r: Option<usize>)
    ensures
        r == char_columns(c),
        r is None <==> is_ctrl(c),
        is_printable_ascii(c) ==> r == Some(1usize),
{
    UnicodeWidthChar::width(c)
}

/// The columns that a character is counted with; control characters with none.
pub open spec fn columns_of(c: char) -> usize {
    match char_columns(c) {
        Some(w) => w,
        None => 0,
    }
}

pub open spec fn all_columns(s: Seq<char>) -> Seq<usize> {
    s.map_values(|c: char| columns_of(c))
}

/// The columns of a row of characters, one by one.
pub open spec fn sum_columns(widths: Seq<usize>) -> nat
    decreases widths.len(),
{
    if widths.len() == 0 {
        0
    } else {
        sum_columns(widths.drop_last()) + widths.last() as nat
    }
}

/// How many of the leading widths fit into `max` columns.
pub open spec fn fitting_of(widths: Seq<usize>, max: int) -> nat
    decreases widths.len(),
{
    if widths.len() == 0 || widths[0] > max {
        0
    } else {
        1 + fitting_of(widths.drop_first(), max - widths[0])
    }
}

/// The longest prefix that fits when characters are counted one by one, unless
/// the text as a whole fits.
pub open spec fn clip_of(s: Seq<char>, max: nat) -> Seq<char> {
    if text_columns(s) <= max {
        s
    } else {
        s.take(fitting_of(all_columns(s), max as int) as int)
    }
}

/// The text cut to `max` columns, the last one taken by an ellipsis if it was cut.
pub open spec fn ellipsis_of(s: Seq<char>, max: nat) -> Seq<char> {
    if s.len() == 0 || text_columns(s) <= max {
        s
    } else if max == 0 {
        Seq::empty()
    } else {
        clip_of(s, (max - 1) as nat).push('…')
    }
}

pub open spec fn spaces(n: int) -> Seq<char> {
    Seq::new(
        if n < 0 {
            0
        } else {
            n as nat
        },
        |i: int| ' ',
    )
}

/// The text with spaces behind it up to `cols` columns.
pub open spec fn pad_of(s: Seq<char>, cols: nat) -> Seq<char> {
    s + spaces(cols - text_columns(s))
}

/// Control characters become question marks.
pub open spec fn sanitize_of(s: Seq<char>) -> Seq<char> {
    s.map_values(
        |c: char|
            if is_ctrl(c) {
                '?'
            } else {
                c
            },
    )
}

/// The columns that a text takes.
pub fn display_width(text: &str) -> (r: usize)
    ensures
        r == text_columns(text@),
        printable_ascii(text@) ==> r == text@.len(),
        forall|n: int|
            0 <= n && r + n <= usize::MAX ==> #[trigger] text_columns(text@ + spaces(n)) == r + n,
{
    unicode_str_width(text)
}

pub proof fn lemma_fitting_bound(widths: Seq<usize>, max: int)
    ensures
        fitting_of(widths, max) <= widths.len(),
    decreases widths.len(),
{
    if widths.len() == 0 || widths[0] > max {
    } else {
        lemma_fitting_bound(widths.drop_first(), max - widths[0]);
    }
}

/// The number of leading widths that together stay within `max`.
pub fn fitting(widths: &Vec<usize>, max: usize) -> (r: usize)
    ensures
        r == fitting_of(widths@, max as int),
        r <= widths@.len(),
{
    let mut i: usize = 0;
    let mut left: usize = max;
    assert(widths@.skip(0) =~= widths@);
    while i < widths.len() && widths[i] <= left
        invariant
            i <= widths@.len(),
            fitting_of(widths@, max as int) == i + fitting_of(widths@.skip(i as int), left as int),
        decreases widths.len() - i,
    {
        assert(widths@.skip(i as int).drop_first() =~= widths@.skip(i + 1));
        left = left - widths[i];
        i += 1;
    }
    i
}

proof fn lemma_sum_push(widths: Seq<usize>)
    requires
        widths.len() > 0,
    ensures
        sum_columns(widths) == widths[0] + sum_columns(widths.drop_first()),
    decreases widths.len(),
{
    if widths.len() == 1 {
        assert(widths.drop_last() =~= Seq::<usize>::empty());
        assert(widths.drop_first() =~= Seq::<usize>::empty());
    } else {
        lemma_sum_push(widths.drop_last());
        assert(widths.drop_last().drop_first() =~= widths.drop_first().drop_last());
        assert(widths.drop_first().last() == widths.last());
    }
}

/// What fits stays within the budget, and one more character would not.
pub proof fn clipping_fills_the_budget(widths: Seq<usize>, max: nat)
    ensures
        ({
            let n = fitting_of(widths, max as int) as int;
            &&& n <= widths.len()
            &&& sum_columns(widths.take(n)) <= max
            &&& n < widths.len() ==> sum_columns(widths.take(n + 1)) > max
        }),
    decreases widths.len(),
{
    let n = fitting_of(widths, max as int) as int;
    lemma_fitting_bound(widths, max as int);
    if widths.len() == 0 || widths[0] > max {
        assert(widths.take(0) =~= Seq::<usize>::empty());
        if widths.len() > 0 {
            lemma_sum_push(widths.take(1));
            assert(widths.take(1).drop_first() =~= Seq::<usize>::empty());
        }
    } else {
        let rest = widths.drop_first();
        clipping_fills_the_budget(rest, (max - widths[0]) as nat);
        lemma_sum_push(widths.take(n));
        assert(widths.take(n).drop_first() =~= rest.take(n - 1));
        if n < widths.len() {
            lemma_sum_push(widths.take(n + 1));
            assert(widths.take(n + 1).drop_first() =~= rest.take(n));
        }
    }
}

/// Where the width of a text is the sum of the widths of its characters, a
/// clipped text stays within its budget as the screen counts it.
pub proof fn clipped_text_fits(s: Seq<char>, max: nat)
    requires
        forall|n: int|
            0 <= n <= s.len() ==> text_columns(#[trigger] s.take(n)) == sum_columns(
                all_columns(s).take(n),
            ),
    ensures
        text_columns(clip_of(s, max)) <= max,
{
    clipping_fills_the_budget(all_columns(s), max);
    if text_columns(s) > max {
        assert(clip_of(s, max) == s.take(fitting_of(all_columns(s), max as int) as int));
    }
}

proof fn lemma_fitting_ones(widths: Seq<usize>, max: int)
    requires
        0 <= max,
        forall|i: int| 0 <= i < widths.len() ==> #[trigger] widths[i] == 1,
    ensures
        fitting_of(widths, max) == if widths.len() <= max {
            widths.len() as int
        } else {
            max
        },
    decreases widths.len(),
{
    if widths.len() > 0 && max > 0 {
        let rest = widths.drop_first();
        assert forall|i: int| 0 <= i < rest.len() implies #[trigger] rest[i] == 1 by {
            assert(rest[i] == widths[i + 1]);
        }
        lemma_fitting_ones(rest, max - 1);
    }
}

/// The widths of the characters of a text.
fn measure(chars: &Vec<char>) -> (r: Vec<usize>)
    ensures
        r@ == all_columns(chars@),
        printable_ascii(chars@) ==> forall|i: int| 0 <= i < r@.len() ==> #[trigger] r@[i] == 1,
{
    let mut out: Vec<usize> = Vec::new();
    let mut i: usize = 0;
    while i < chars.len()
        invariant
            i <= chars@.len(),
            out@.len() == i,
            forall|k: int| 0 <= k < i ==> #[trigger] out@[k] == columns_of(chars@[k]),
            printable_ascii(chars@) ==> forall|k: int| 0 <= k < i ==> #[trigger] out@[k] == 1,
        decreases chars.len() - i,
    {
        let w: usize = match unicode_char_width(chars[i]) {
            Some(w) => w,
            None => 0,
        };
        assert(printable_ascii(chars@) ==> is_printable_ascii(chars@[i as int]));
        out.push(w);
        i += 1;
    }
    assert(out@ =~= all_columns(chars@));
    out
}

/// The text cut to `max` columns, nothing appended.
pub fn clip(text: &str, max: usize) -> (r: String)
    ensures
        r@ == clip_of(text@, max as nat),
        printable_ascii(text@) ==> r@ == text@.take(
            if text@.len() <= max {
                text@.len() as int
            } else {
                max as int
            },
        ),
{
    if display_width(text) <= max {
        assert(text@.take(text@.len() as int) =~= text@);
        return text.to_owned();
    }
    let chars: Vec<char> = chars_of(text);
    let widths: Vec<usize> = measure(&chars);
    let n: usize = fitting(&widths, max);
    proof {
        if printable_ascii(text@) {
            lemma_fitting_ones(widths@, max as int);
        }
    }
    let kept = slice_subrange(chars.as_slice(), 0, n);
    assert(kept@ =~= text@.take(n as int));
    string_of(kept)
}

/// The text cut to `max` columns, with an ellipsis in the last one if it was cut.
pub fn clip_with_ellipsis(text: &str, max: usize) -> (r: String)
    ensures
        r@ == ellipsis_of(text@, max as nat),
        printable_ascii(text@) ==> r@ == if text@.len() <= max {
            text@
        } else if max == 0 {
            Seq::empty()
        } else {
            text@.take(max - 1).push('…')
        },
{
    if display_width(text) <= max {
        return text.to_owned();
    }
    if max == 0 {
        return String::new();
    }
    let mut out: String = clip(text, max - 1);
    out.push('…');
    out
}

/// Appends spaces.
pub fn push_spaces(out: &mut String, n: usize)
    ensures
        final(out)@ == old(out)@ + spaces(n as int),
{
    let mut i: usize = 0;
    assert(out@ =~= old(out)@ + spaces(0));
    while i < n
        invariant
            i <= n,
            out@ == old(out)@ + spaces(i as int),
        decreases n - i,
    {
        out.push(' ');
        i += 1;
        assert(out@ =~= old(out)@ + spaces(i as int));
    }
}

/// Spaces behind a text of `width` columns up to `cols` columns.
pub fn pad_measured(text: &str, width: usize, cols: usize) -> (r: String)
    ensures
        r@ == text@ + spaces(cols - width),
{
    let mut out: String = text.to_owned();
    if width < cols {
        push_spaces(&mut out, cols - width);
    } else {
        assert(out@ + spaces(cols - width) =~= out@);
    }
    out
}

/// The text with spaces behind it up to `cols` columns; never cut. What was padded takes
/// at least `cols` columns, and padding it again changes nothing.
pub fn pad_right(text: &str, cols: usize) -> (r: String)
    ensures
        r@ == pad_of(text@, cols as nat),
        printable_ascii(text@) ==> r@ == text@ + spaces(cols - text@.len()),
        text_columns(text@) >= cols ==> r@ == text@,
        text_columns(text@) <= cols ==> text_columns(r@) == cols,
        pad_of(r@, cols as nat) == r@,
{
    let width: usize = display_width(text);
    let r: String = pad_measured(text, width, cols);
    proof {
        if width >= cols {
            assert(r@ =~= text@);
        }
        assert(pad_of(r@, cols as nat) =~= r@);
    }
    r
}

/// Control characters become question marks, so that no text can move the
/// cursor or carry an escape sequence.
pub fn sanitize(text: &str) -> (r: String)
    ensures
        r@ == sanitize_of(text@),
{
    let chars: Vec<char> = chars_of(text);
    let mut out: String = String::new();
    let mut i: usize = 0;
    while i < chars.len()
        invariant
            i <= chars@.len(),
            chars@ == text@,
            out@.len() == i,
            forall|k: int| 0 <= k < i ==> out@[k] == sanitize_of(text@)[k],
        decreases chars.len() - i,
    {
        if is_control(chars[i]) {
            out.push('?');
        } else {
            out.push(chars[i]);
        }
        i += 1;
    }
    assert(out@ =~= sanitize_of(text@));
    out
}

/// A sanitized text holds no control character, keeps its length, and is left
/// alone by sanitizing again.
pub proof fn sanitized_text_is_inert(s: Seq<char>)
    ensures
        forall|i: int| 0 <= i < s.len() ==> !is_ctrl(#[trigger] sanitize_of(s)[i]),
        sanitize_of(s).len() == s.len(),
        sanitize_of(sanitize_of(s)) == sanitize_of(s),
{
    assert(sanitize_of(sanitize_of(s)) =~= sanitize_of(s));
}

} // verus!
