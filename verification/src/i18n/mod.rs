//! Languages and message templates.
//!
//! The language is chosen once: an explicit setting first, then the locale, then
//! English. What was never chosen is English.

use crate::text::{
    all_digits, chars_of, decimal_of, digits_value, is_ascii_digit, is_digit,
    lemma_decimal_digits, lower, lowercase_ascii, opt_view, read_digits, same_text, starts_with,
    starts_with_text, trim, trim_of,
};
use vstd::prelude::*;

pub mod complete;
pub mod dict;
pub mod en;
pub mod zh;

use dict::Dict;

verus! {

/// The environment variable that overrides the language.
pub const LANG_ENV: &'static str = "STUI_LANG";

#[derive(Debug, Clone, Copy, PartialEq, Eq, Structural)]
pub enum Lang {
    En,
    Zh,
}

/// The locale variables in the order in which they count.
#[derive(Debug)]
pub struct Locale {
    pub lc_all: Option<String>,
    pub lc_messages: Option<String>,
    pub lang: Option<String>,
}

/// The language that a locale value begins with.
pub open spec fn locale_lang(value: Option<Seq<char>>) -> Option<Lang> {
    match value {
        Some(v) => if starts_with_text(lower(v), "zh"@) {
            Some(Lang::Zh)
        } else if starts_with_text(lower(v), "en"@) {
            Some(Lang::En)
        } else {
            None
        },
        None => None,
    }
}

/// The first locale variable that names a known language decides.
pub open spec fn from_locale_of(l: Locale) -> Lang {
    match locale_lang(opt_view(l.lc_all)) {
        Some(lang) => lang,
        None => match locale_lang(opt_view(l.lc_messages)) {
            Some(lang) => lang,
            None => match locale_lang(opt_view(l.lang)) {
                Some(lang) => lang,
                None => Lang::En,
            },
        },
    }
}

pub open spec fn detected_lang(setting: Seq<char>, l: Locale) -> Lang {
    let key = lower(trim_of(setting));
    if key == "zh"@ || key == "chinese"@ {
        Lang::Zh
    } else if key == "en"@ || key == "english"@ {
        Lang::En
    } else {
        from_locale_of(l)
    }
}

fn language_of(value: &Option<String>) -> (r: Option<Lang>)
    ensures
        r == locale_lang(opt_view(*value)),
{
    match value {
        Some(v) => {
            let chars: Vec<char> = chars_of(v.as_str());
            let key: Vec<char> = lowercase_ascii(chars.as_slice());
            if starts_with(key.as_slice(), "zh") {
                Some(Lang::Zh)
            } else if starts_with(key.as_slice(), "en") {
                Some(Lang::En)
            } else {
                None
            }
        },
        None => None,
    }
}

impl Lang {
    /// The language for a setting; anything but the name of a language means
    /// that the locale decides.
    pub fn detect(setting: &str, locale: &Locale) -> (r: Lang)
        ensures
            r == detected_lang(setting@, *locale),
    {
        let chars: Vec<char> = chars_of(setting);
        let key: Vec<char> = lowercase_ascii(trim(chars.as_slice()));
        if same_text(key.as_slice(), "zh") || same_text(key.as_slice(), "chinese") {
            Lang::Zh
        } else if same_text(key.as_slice(), "en") || same_text(key.as_slice(), "english") {
            Lang::En
        } else {
            Lang::from_locale(locale)
        }
    }

    /// The language of the locale, English if it names none that is known.
    pub fn from_locale(locale: &Locale) -> (r: Lang)
        ensures
            r == from_locale_of(*locale),
    {
        if let Some(lang) = language_of(&locale.lc_all) {
            return lang;
        }
        if let Some(lang) = language_of(&locale.lc_messages) {
            return lang;
        }
        if let Some(lang) = language_of(&locale.lang) {
            return lang;
        }
        Lang::En
    }
}

/// Chooses the language; only the first choice counts.
pub fn init(chosen: &mut Option<Lang>, lang: Lang)
    ensures
        *final(chosen) == match *old(chosen) {
            Some(first) => Some(first),
            None => Some(lang),
        },
{
    if chosen.is_none() {
        *chosen = Some(lang);
    }
}

pub open spec fn lang_of(chosen: Option<Lang>) -> Lang {
    match chosen {
        Some(lang) => lang,
        None => Lang::En,
    }
}

/// The language in force; English as long as none was chosen.
pub fn lang(chosen: Option<Lang>) -> (r: Lang)
    ensures
        r == lang_of(chosen),
{
    match chosen {
        Some(lang) => lang,
        None => Lang::En,
    }
}

/// The texts of a language.
pub open spec fn dict_of(lang: Lang) -> Dict {
    match lang {
        Lang::En => en::english_texts(),
        Lang::Zh => zh::chinese_texts(),
    }
}

/// The texts of a language.
pub fn dict(lang: Lang) -> (r: Dict)
    ensures
        r == dict_of(lang),
{
    match lang {
        Lang::En => en::english(),
        Lang::Zh => zh::chinese(),
    }
}

/// The texts of the language in force.
pub fn t(chosen: Option<Lang>) -> (r: Dict)
    ensures
        r == dict_of(lang_of(chosen)),
{
    dict(lang(chosen))
}

// ---------------------------------------------------------------------------
// Templates
// ---------------------------------------------------------------------------
/// The models of a list of string slices.
pub open spec fn str_views(v: Seq<&str>) -> Seq<Seq<char>> {
    v.map_values(|s: &str| s@)
}

/// The number of leading digits.
pub open spec fn digit_run(s: Seq<char>) -> nat
    decreases s.len(),
{
    if s.len() == 0 || !is_digit(s[0]) {
        0
    } else {
        1 + digit_run(s.drop_first())
    }
}

/// The argument that the template asks for at its beginning: `{`, the number of
/// an argument that there is, `}`.
pub open spec fn placeholder(t: Seq<char>, count: nat) -> Option<nat> {
    if t.len() == 0 || t[0] != '{' {
        None
    } else {
        let d = digit_run(t.drop_first()) as int;
        let digits = t.subrange(1, 1 + d);
        if d > 0 && 1 + d < t.len() && t[1 + d] == '}' && digits_value(digits) < count {
            Some(digits_value(digits))
        } else {
            None
        }
    }
}

/// The template with every placeholder replaced by its argument. Arguments are
/// not looked into, and a placeholder without an argument stays.
pub open spec fn fmt_of(t: Seq<char>, args: Seq<Seq<char>>) -> Seq<char>
    decreases t.len(),
{
    if t.len() == 0 {
        Seq::empty()
    } else {
        match placeholder(t, args.len()) {
            Some(n) => args[n as int] + fmt_of(t.skip(digit_run(t.drop_first()) as int + 2), args),
            None => seq![t[0]] + fmt_of(t.drop_first(), args),
        }
    }
}

proof fn lemma_digit_run(s: Seq<char>)
    ensures
        digit_run(s) <= s.len(),
        forall|i: int| 0 <= i < digit_run(s) ==> is_digit(#[trigger] s[i]),
        digit_run(s) < s.len() ==> !is_digit(s[digit_run(s) as int]),
    decreases s.len(),
{
    if s.len() == 0 || !is_digit(s[0]) {
    } else {
        let rest = s.drop_first();
        lemma_digit_run(rest);
        assert forall|i: int| 0 <= i < digit_run(s) implies is_digit(#[trigger] s[i]) by {
            if i > 0 {
                assert(rest[i - 1] == s[i]);
            }
        }
    }
}

fn count_digits(s: &[char], from: usize) -> (r: usize)
    requires
        from <= s@.len(),
    ensures
        r == digit_run(s@.skip(from as int)),
        from + r <= s@.len(),
{
    let mut i: usize = from;
    while i < s.len() && is_ascii_digit(s[i])
        invariant
            from <= i <= s@.len(),
            digit_run(s@.skip(from as int)) == (i - from) + digit_run(s@.skip(i as int)),
        decreases s.len() - i,
    {
        assert(s@.skip(i as int).drop_first() =~= s@.skip(i + 1));
        i += 1;
    }
    i - from
}

/// Fills a template: `{0}`, `{1}` and so on become the arguments.
pub fn fmt(template: &str, args: &[&str]) -> (r: String)
    ensures
        r@ == fmt_of(template@, str_views(args@)),
{
    let chars: Vec<char> = chars_of(template);
    let s: &[char] = chars.as_slice();
    let n: usize = s.len();
    let count: usize = args.len();
    let ghost texts = str_views(args@);
    let mut out: String = String::new();
    let mut i: usize = 0;
    assert(s@.skip(0) =~= s@);
    assert(out@ + fmt_of(s@.skip(0), texts) =~= fmt_of(s@, texts));
    while i < n
        invariant
            n == s@.len(),
            count == args@.len(),
            s@ == template@,
            texts == str_views(args@),
            i <= n,
            out@ + fmt_of(s@.skip(i as int), texts) == fmt_of(template@, texts),
        decreases n - i,
    {
        let ghost rest = s@.skip(i as int);
        let ghost before = out@;
        assert(rest[0] == s@[i as int]);
        assert(rest.drop_first() =~= s@.skip(i + 1));
        let mut hole: Option<usize> = None;
        let mut next: usize = i + 1;
        if s[i] == '{' {
            let d: usize = count_digits(s, i + 1);
            proof {
                lemma_digit_run(rest.drop_first());
            }
            if d > 0 && i + 1 + d < n && s[i + 1 + d] == '}' {
                let digits = vstd::slice::slice_subrange(s, i + 1, i + 1 + d);
                assert(digits@ =~= rest.subrange(1, 1 + d));
                assert(all_digits(digits@)) by {
                    assert forall|k: int| 0 <= k < digits@.len() implies is_digit(
                        #[trigger] digits@[k],
                    ) by {
                        assert(rest.drop_first()[k] == digits@[k]);
                    }
                }
                assert(rest[1 + d] == s@[i + 1 + d]);
                if let Some(v) = read_digits(digits, u64::MAX) {
                    if v < count as u64 {
                        hole = Some(v as usize);
                        next = i + 2 + d;
                    }
                }
                assert(hole is Some <==> digits_value(digits@) < args@.len());
            }
            assert(placeholder(rest, texts.len()) == match hole {
                Some(v) => Some(v as nat),
                None => None,
            });
        }
        match hole {
            Some(v) => {
                out.append(args[v]);
                assert(texts[v as int] == args@[v as int]@);
                assert(rest.skip(digit_run(rest.drop_first()) as int + 2) =~= s@.skip(next as int));
                assert(out@ + fmt_of(s@.skip(next as int), texts) =~= before + (texts[v as int]
                    + fmt_of(s@.skip(next as int), texts)));
            },
            None => {
                out.push(s[i]);
                assert(out@ + fmt_of(s@.skip(next as int), texts) =~= before + (seq![rest[0]]
                    + fmt_of(s@.skip(next as int), texts)));
            },
        }
        i = next;
    }
    assert(s@.skip(i as int) =~= Seq::<char>::empty());
    assert(out@ + Seq::<char>::empty() =~= out@);
    out
}

/// A text without an opening brace is copied, in front of whatever follows it.
pub proof fn plain_text_is_copied(text: Seq<char>, rest: Seq<char>, args: Seq<Seq<char>>)
    requires
        !text.contains('{'),
    ensures
        fmt_of(text + rest, args) == text + fmt_of(rest, args),
    decreases text.len(),
{
    if text.len() == 0 {
        assert(text + rest =~= rest);
        assert(text + fmt_of(rest, args) =~= fmt_of(rest, args));
    } else {
        let tail = text.drop_first();
        assert(!tail.contains('{')) by {
            if tail.contains('{') {
                let k = choose|k: int| 0 <= k < tail.len() && tail[k] == '{';
                assert(text[k + 1] == '{');
            }
        }
        plain_text_is_copied(tail, rest, args);
        let whole = text + rest;
        assert(whole[0] == text[0]);
        assert(text.contains(text[0]));
        assert(whole.drop_first() =~= tail + rest);
        assert(seq![text[0]] + (tail + fmt_of(rest, args)) =~= text + fmt_of(rest, args));
    }
}

/// A placeholder gives its argument as it is, braces and all, and the rest of
/// the template is filled as if the argument were not there.
pub proof fn arguments_are_not_rescanned(n: nat, rest: Seq<char>, args: Seq<Seq<char>>)
    requires
        n < args.len(),
    ensures
        fmt_of(seq!['{'] + decimal_of(n) + seq!['}'] + rest, args) == args[n as int] + fmt_of(
            rest,
            args,
        ),
{
    let digits = decimal_of(n);
    let t = seq!['{'] + digits + seq!['}'] + rest;
    let tail = t.drop_first();
    lemma_decimal_digits(n);
    lemma_digit_run(tail);
    let d = digits.len() as int;
    assert forall|k: int| 0 <= k < d implies is_digit(#[trigger] tail[k]) by {
        assert(tail[k] == digits[k]);
    }
    assert(tail[d] == '}');
    assert(digit_run(tail) == d) by {
        if digit_run(tail) < d {
            assert(is_digit(tail[digit_run(tail) as int]));
        }
        if digit_run(tail) > d {
            assert(is_digit(tail[d]));
        }
    }
    assert(t.subrange(1, 1 + d) =~= digits);
    assert(t[1 + d] == '}');
    assert(t.skip(d + 2) =~= rest);
}

} // verus!
