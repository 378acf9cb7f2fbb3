//! What labels and stamps say, read back, and what is left of a text that is cut.

use crate::text::{
    decimal_of, digit_char, digits_value, is_ctrl, lemma_decimal_digits,
};
use crate::util::time::{
    LocalTime, datetime_of, in_range, label_of, padded,
};
use crate::util::tmpfile::temp_name_of;
use crate::util::width::{
    all_columns, clip_of, ellipsis_of, lemma_fitting_bound, pad_of, sanitize_of, text_columns,
};
use vstd::prelude::*;

verus! {

proof fn lemma_two(n: nat)
    requires
        n < 100,
    ensures
        padded(n, 2).len() == 2,
        digits_value(padded(n, 2)) == n,
{
    reveal_with_fuel(decimal_of, 3);
    reveal_with_fuel(digits_value, 4);
    lemma_decimal_digits(n);
    let p = padded(n, 2);
    if n < 10 {
        assert(decimal_of(n).len() == 1);
        assert(p =~= seq!['0', digit_char(n)]);
        assert(p.drop_last() =~= seq!['0']);
        assert(seq!['0'].drop_last() =~= Seq::<char>::empty());
        assert(digits_value(seq!['0']) == 0);
    } else {
        assert(p =~= decimal_of(n));
    }
}

/// A label says month, day, hour and minute, two digits each, with a hyphen in the middle.
pub proof fn labels_read_back(t: LocalTime)
    requires
        in_range(t),
    ensures
        ({
            let l = label_of(t);
            &&& digits_value(l.subrange(0, 2)) == t.month
            &&& digits_value(l.subrange(2, 4)) == t.day
            &&& l[4] == '-'
            &&& digits_value(l.subrange(5, 7)) == t.hour
            &&& digits_value(l.subrange(7, 9)) == t.minute
        }),
{
    reveal_strlit("-");
    lemma_two(t.month as nat);
    lemma_two(t.day as nat);
    lemma_two(t.hour as nat);
    lemma_two(t.minute as nat);
    let l = label_of(t);
    assert(l.subrange(0, 2) =~= padded(t.month as nat, 2));
    assert(l.subrange(2, 4) =~= padded(t.day as nat, 2));
    assert(l.subrange(5, 7) =~= padded(t.hour as nat, 2));
    assert(l.subrange(7, 9) =~= padded(t.minute as nat, 2));
}

/// A stamp says the date and the time to the second.
pub proof fn stamps_read_back(t: LocalTime)
    requires
        in_range(t),
    ensures
        ({
            let s = datetime_of(t);
            &&& digits_value(s.subrange(0, 4)) == t.year
            &&& digits_value(s.subrange(5, 7)) == t.month
            &&& digits_value(s.subrange(8, 10)) == t.day
            &&& digits_value(s.subrange(11, 13)) == t.hour
            &&& digits_value(s.subrange(14, 16)) == t.minute
            &&& digits_value(s.subrange(17, 19)) == t.second
        }),
{
    reveal_strlit("-");
    reveal_strlit(" ");
    reveal_strlit(":");
    lemma_two(t.month as nat);
    lemma_two(t.day as nat);
    lemma_two(t.hour as nat);
    lemma_two(t.minute as nat);
    lemma_two(t.second as nat);
    reveal_with_fuel(decimal_of, 5);
    lemma_decimal_digits(t.year as nat);
    assert(decimal_of(t.year as nat).len() == 4);
    assert(padded(t.year as nat, 4) =~= decimal_of(t.year as nat));
    let s = datetime_of(t);
    assert(s.subrange(0, 4) =~= padded(t.year as nat, 4));
    assert(s.subrange(5, 7) =~= padded(t.month as nat, 2));
    assert(s.subrange(8, 10) =~= padded(t.day as nat, 2));
    assert(s.subrange(11, 13) =~= padded(t.hour as nat, 2));
    assert(s.subrange(14, 16) =~= padded(t.minute as nat, 2));
    assert(s.subrange(17, 19) =~= padded(t.second as nat, 2));
}

/// What is left of a text that is cut is its beginning, and the text itself where it fits;
/// where an ellipsis marks the cut, it stands behind the beginning.
pub proof fn cut_text_is_a_beginning(s: Seq<char>, max: nat)
    ensures
        clip_of(s, max).len() <= s.len(),
        clip_of(s, max) == s.take(clip_of(s, max).len() as int),
        text_columns(s) <= max ==> clip_of(s, max) == s && ellipsis_of(s, max) == s,
        s.len() > 0 && text_columns(s) > max > 0 ==> ellipsis_of(s, max) == clip_of(
            s,
            (max - 1) as nat,
        ) + seq!['…'],
{
    lemma_fitting_bound(all_columns(s), max as int);
    assert(all_columns(s).len() == s.len());
    assert(s.take(s.len() as int) =~= s);
    if max > 0 {
        let kept = clip_of(s, (max - 1) as nat);
        assert(kept.push('…') =~= kept + seq!['…']);
    }
}

/// Padding adds spaces behind a text up to its column and nothing where it is as wide.
pub proof fn padding_adds_spaces(s: Seq<char>, cols: nat)
    ensures
        text_columns(s) <= cols ==> pad_of(s, cols).len() == s.len() + cols - text_columns(s),
        text_columns(s) >= cols ==> pad_of(s, cols) == s,
        pad_of(s, cols).len() >= s.len() && pad_of(s, cols).take(s.len() as int) == s,
        forall|i: int| s.len() <= i < pad_of(s, cols).len() ==> #[trigger] pad_of(s, cols)[i] == ' ',
{
    assert(pad_of(s, cols).take(s.len() as int) =~= s);
    if text_columns(s) >= cols {
        assert(pad_of(s, cols) =~= s);
    }
}

/// Only control characters are replaced before a text is shown.
pub proof fn only_control_characters_are_replaced(s: Seq<char>, i: int)
    requires
        0 <= i < s.len(),
    ensures
        is_ctrl(s[i]) ==> sanitize_of(s)[i] == '?',
        !is_ctrl(s[i]) ==> sanitize_of(s)[i] == s[i],
{
}

/// The name of a temporary file says what it is for and which process made it, and has a number.
pub proof fn temporary_names_say_who_made_them(prefix: Seq<char>, pid: u32, n: u32)
    ensures
        temp_name_of(prefix, pid, n) == prefix + seq!['-'] + decimal_of(pid as nat) + seq!['-']
            + decimal_of(n as nat),
{
    reveal_strlit("-");
    assert("-"@ =~= seq!['-']);
}

} // verus!
