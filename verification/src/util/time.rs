//! Labels for a moment of local time.

use crate::text::{
    all_digits, chars_of, decimal, decimal_of, is_digit, lemma_decimal_digits,
};
use vstd::prelude::*;

verus! {

/// A moment of local time, already broken down. Months and days count from one.
#[derive(Debug, Clone, Copy)]
pub struct LocalTime {
    pub year: u32,
    pub month: u32,
    pub day: u32,
    pub hour: u32,
    pub minute: u32,
    pub second: u32,
}

pub open spec fn zeros(n: int) -> Seq<char> {
    Seq::new(
        if n < 0 {
            0
        } else {
            n as nat
        },
        |i: int| '0',
    )
}

/// A number with zeros in front up to `width` digits.
pub open spec fn padded(n: nat, width: nat) -> Seq<char> {
    zeros(width - decimal_of(n).len()) + decimal_of(n)
}

fn push_padded(out: &mut String, n: u32, width: usize)
    ensures
        final(out)@ == old(out)@ + padded(n as nat, width as nat),
{
    let digits: String = decimal(n as u64);
    let chars: Vec<char> = chars_of(digits.as_str());
    let mut missing: usize = if chars.len() < width {
        width - chars.len()
    } else {
        0
    };
    let ghost total = missing;
    assert(out@ =~= old(out)@ + zeros(total - missing));
    while missing > 0
        invariant
            missing <= total,
            out@ == old(out)@ + zeros(total - missing),
        decreases missing,
    {
        out.push('0');
        missing -= 1;
        assert(out@ =~= old(out)@ + zeros(total - missing));
    }
    out.append(digits.as_str());
    assert(zeros(total as int) =~= zeros(width - chars@.len()));
    assert(out@ =~= old(out)@ + padded(n as nat, width as nat));
}

/// `MMDD-HHMM`.
pub open spec fn label_of(t: LocalTime) -> Seq<char> {
    padded(t.month as nat, 2) + padded(t.day as nat, 2) + "-"@ + padded(t.hour as nat, 2) + padded(
        t.minute as nat,
        2,
    )
}

/// `YYYY-MM-DD HH:MM:SS`.
pub open spec fn datetime_of(t: LocalTime) -> Seq<char> {
    padded(t.year as nat, 4) + "-"@ + padded(t.month as nat, 2) + "-"@ + padded(t.day as nat, 2)
        + " "@ + padded(t.hour as nat, 2) + ":"@ + padded(t.minute as nat, 2) + ":"@ + padded(
        t.second as nat,
        2,
    )
}

/// The label `MMDD-HHMM`; empty when the clock cannot be read.
pub fn local_label(now: Option<LocalTime>) -> (r: String)
    ensures
        r@ == match now {
            Some(t) => label_of(t),
            None => Seq::empty(),
        },
{
    let mut out: String = String::new();
    if let Some(t) = now {
        push_padded(&mut out, t.month, 2);
        push_padded(&mut out, t.day, 2);
        out.append("-");
        push_padded(&mut out, t.hour, 2);
        push_padded(&mut out, t.minute, 2);
        assert(out@ =~= label_of(t));
    }
    out
}

/// The stamp `YYYY-MM-DD HH:MM:SS`; empty when the clock cannot be read.
pub fn local_datetime(now: Option<LocalTime>) -> (r: String)
    ensures
        r@ == match now {
            Some(t) => datetime_of(t),
            None => Seq::empty(),
        },
{
    let mut out: String = String::new();
    if let Some(t) = now {
        push_padded(&mut out, t.year, 4);
        out.append("-");
        push_padded(&mut out, t.month, 2);
        out.append("-");
        push_padded(&mut out, t.day, 2);
        out.append(" ");
        push_padded(&mut out, t.hour, 2);
        out.append(":");
        push_padded(&mut out, t.minute, 2);
        out.append(":");
        push_padded(&mut out, t.second, 2);
        assert(out@ =~= datetime_of(t));
    }
    out
}

/// The fields lie in the ranges of a calendar and a clock.
pub open spec fn in_range(t: LocalTime) -> bool {
    &&& 1000 <= t.year <= 9999
    &&& 1 <= t.month <= 12
    &&& 1 <= t.day <= 31
    &&& t.hour <= 23
    &&& t.minute <= 59
    &&& t.second <= 60
}

proof fn lemma_padded_two(n: nat)
    requires
        n < 100,
    ensures
        padded(n, 2).len() == 2,
        all_digits(padded(n, 2)),
{
    reveal_with_fuel(decimal_of, 3);
    lemma_decimal_digits(n);
    assert(decimal_of(n).len() == if n < 10 {
        1int
    } else {
        2
    });
    let p = padded(n, 2);
    let z = zeros(2 - decimal_of(n).len());
    assert forall|i: int| 0 <= i < p.len() implies is_digit(#[trigger] p[i]) by {
        if i >= z.len() {
            assert(p[i] == decimal_of(n)[i - z.len()]);
        }
    }
}

/// A label is four digits, a hyphen and four digits.
pub proof fn label_shape(t: LocalTime)
    requires
        in_range(t),
    ensures
        label_of(t).len() == 9,
        label_of(t)[4] == '-',
        forall|i: int| 0 <= i < 9 && i != 4 ==> is_digit(#[trigger] label_of(t)[i]),
{
    reveal_strlit("-");
    lemma_padded_two(t.month as nat);
    lemma_padded_two(t.day as nat);
    lemma_padded_two(t.hour as nat);
    lemma_padded_two(t.minute as nat);
    let l = label_of(t);
    let a = padded(t.month as nat, 2);
    let b = padded(t.day as nat, 2);
    let c = padded(t.hour as nat, 2);
    let d = padded(t.minute as nat, 2);
    assert forall|i: int| 0 <= i < 9 && i != 4 implies is_digit(#[trigger] l[i]) by {
        if i < 2 {
            assert(l[i] == a[i]);
        } else if i < 4 {
            assert(l[i] == b[i - 2]);
        } else if i < 7 {
            assert(l[i] == c[i - 5]);
        } else {
            assert(l[i] == d[i - 7]);
        }
    }
}

/// A stamp has nineteen characters with its separators in fixed places.
pub proof fn datetime_shape(t: LocalTime)
    requires
        in_range(t),
    ensures
        datetime_of(t).len() == 19,
        datetime_of(t)[4] == '-',
        datetime_of(t)[7] == '-',
        datetime_of(t)[10] == ' ',
        datetime_of(t)[13] == ':',
        datetime_of(t)[16] == ':',
{
    reveal_strlit("-");
    reveal_strlit(" ");
    reveal_strlit(":");
    lemma_padded_two(t.month as nat);
    lemma_padded_two(t.day as nat);
    lemma_padded_two(t.hour as nat);
    lemma_padded_two(t.minute as nat);
    lemma_padded_two(t.second as nat);
    reveal_with_fuel(decimal_of, 5);
    assert(decimal_of(t.year as nat).len() == 4);
    assert(padded(t.year as nat, 4).len() == 4);
}

} // verus!
