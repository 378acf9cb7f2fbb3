//! Names of sessions, paths, and small texts that the user or screen provides.

use crate::config::{
    join_path, keep_non_empty, non_empty, path_in,
};
use crate::i18n::{
    Lang, dict, dict_of, fmt, fmt_of, str_views,
};
use crate::screen::parse::{
    SessionRecord, SessionView, is_digit_run, session_views,
};
use crate::text::{
    after_first_word, chars_of, decimal, decimal_of, first_word_of, index_of_char, is_blank,
    is_control, is_ctrl, is_digit, is_space, is_whitespace, lemma_decimal_digits, lines, lines_of,
    next_word, opt_view, parse_digits, parse_unsigned, read_unsigned, same_str, same_text,
    split_char, split_of, starts_with, starts_with_text, string_of, trim, trim_of, until_char,
    views,
};
use vstd::prelude::*;
use vstd::slice::slice_subrange;

verus! {

/// The longest session name in characters.
pub const NAME_MAX: usize = 80;

/// The last number that is tried behind a name that is taken.
pub const SUFFIX_MAX: u32 = 9999;

// ---------------------------------------------------------------------------
// Valid names
// ---------------------------------------------------------------------------
/// A character that may not stand in a name.
pub open spec fn is_bad(c: char) -> bool {
    is_ctrl(c) || is_space(c)
}

/// The first character that may not stand in a name.
pub open spec fn first_bad(name: Seq<char>) -> Option<char>
    decreases name.len(),
{
    if name.len() == 0 {
        None
    } else if is_bad(name[0]) {
        Some(name[0])
    } else {
        first_bad(name.drop_first())
    }
}

/// What the `Debug` format makes of a character.
pub uninterp spec fn char_debug(c: char) -> Seq<char>;

/// `format!("{:?}", c)`: the character in quotes, escaped where it cannot be
/// shown. Which characters are escaped and how is only named.
#[verifier::external_body]
fn debug_char(c: char) -> (r: String)
    ensures
        r@ == char_debug(c),
{
    format!("{c:?}")
}

/// Why a name is refused.
pub open spec fn name_error(name: Seq<char>, lang: Lang) -> Option<Seq<char>> {
    let t = dict_of(lang);
    if name.len() == 0 {
        Some(t.name_empty@)
    } else if name[0] == '-' {
        Some(t.name_leading_dash@)
    } else {
        match first_bad(name) {
            Some(bad) => Some(fmt_of(t.name_bad_char@, seq![char_debug(bad)])),
            None => if name.len() > NAME_MAX {
                Some(fmt_of(t.name_too_long@, seq![decimal_of(NAME_MAX as nat)]))
            } else {
                None
            },
        }
    }
}

/// A name that is not refused.
pub open spec fn valid_name(name: Seq<char>) -> bool {
    &&& 0 < name.len() <= NAME_MAX
    &&& name[0] != '-'
    &&& forall|i: int| 0 <= i < name.len() ==> !is_bad(#[trigger] name[i])
}

proof fn lemma_first_bad(name: Seq<char>)
    ensures
        first_bad(name) is None <==> forall|i: int|
            0 <= i < name.len() ==> !is_bad(#[trigger] name[i]),
    decreases name.len(),
{
    if name.len() > 0 {
        let rest = name.drop_first();
        lemma_first_bad(rest);
        if forall|i: int| 0 <= i < name.len() ==> !is_bad(#[trigger] name[i]) {
            assert forall|i: int| 0 <= i < rest.len() implies !is_bad(#[trigger] rest[i]) by {
                assert(rest[i] == name[i + 1]);
            }
        }
        if first_bad(name) is None {
            assert forall|i: int| 0 <= i < name.len() implies !is_bad(#[trigger] name[i]) by {
                if i > 0 {
                    assert(name[i] == rest[i - 1]);
                }
            }
        }
    }
}

/// A name is accepted exactly if it is not empty, not too long, does not begin
/// with a hyphen and holds neither white space nor control characters.
pub proof fn accepted_names(name: Seq<char>, lang: Lang)
    ensures
        name_error(name, lang) is None <==> valid_name(name),
{
    lemma_first_bad(name);
}

/// Checks a session name. That a name is taken is no error.
pub fn validate_name(name: &str, lang: Lang) -> (r: Result<(), String>)
    ensures
        match name_error(name@, lang) {
            None => r is Ok,
            Some(e) => r matches Err(m) && m@ == e,
        },
{
    let t = dict(lang);
    let chars: Vec<char> = chars_of(name);
    if chars.len() == 0 {
        return Err(t.name_empty.to_owned());
    }
    if chars[0] == '-' {
        return Err(t.name_leading_dash.to_owned());
    }
    let mut i: usize = 0;
    assert(chars@.skip(0) =~= chars@);
    while i < chars.len()
        invariant
            chars@ == name@,
            name@.len() > 0,
            name@[0] != '-',
            t == dict_of(lang),
            i <= chars@.len(),
            first_bad(name@) == first_bad(chars@.skip(i as int)),
        decreases chars.len() - i,
    {
        let c: char = chars[i];
        assert(chars@.skip(i as int)[0] == c);
        if is_control(c) || is_whitespace(c) {
            let shown: String = debug_char(c);
            let args: [&str; 1] = [shown.as_str()];
            assert(str_views(args@) =~= seq![char_debug(c)]);
            return Err(fmt(t.name_bad_char, &args));
        }
        assert(chars@.skip(i as int).drop_first() =~= chars@.skip(i + 1));
        i += 1;
    }
    if chars.len() > NAME_MAX {
        let max: String = decimal(NAME_MAX as u64);
        let args: [&str; 1] = [max.as_str()];
        assert(str_views(args@) =~= seq![decimal_of(NAME_MAX as nat)]);
        return Err(fmt(t.name_too_long, &args));
    }
    Ok(())
}

// ---------------------------------------------------------------------------
// Default names
// ---------------------------------------------------------------------------
/// The last component of a path; none for the root and for a path that ends in `..`.
pub open spec fn last_part(parts: Seq<Seq<char>>) -> Option<Seq<char>>
    decreases parts.len(),
{
    if parts.len() == 0 {
        None
    } else if parts.last().len() == 0 || parts.last() == "."@ {
        last_part(parts.drop_last())
    } else if parts.last() == ".."@ {
        None
    } else {
        Some(parts.last())
    }
}

pub open spec fn file_name_of(path: Seq<char>) -> Option<Seq<char>> {
    last_part(split_of(path, '/'))
}

/// The last component of a path.
pub fn file_name(path: &str) -> (r: Option<String>)
    ensures
        opt_view(r) == file_name_of(path@),
{
    let chars: Vec<char> = chars_of(path);
    let parts: Vec<String> = split_char(chars.as_slice(), '/');
    let ghost all = split_of(path@, '/');
    let mut n: usize = parts.len();
    assert(views(parts@).len() == parts@.len());
    assert(all.take(n as int) =~= all);
    while n > 0
        invariant
            views(parts@) == all,
            all.len() == parts@.len(),
            n <= parts@.len(),
            all == split_of(path@, '/'),
            last_part(all) == last_part(all.take(n as int)),
        decreases n,
    {
        let part: &String = &parts[n - 1];
        assert(all.take(n as int).last() == views(parts@)[n - 1]);
        assert(all.take(n as int).drop_last() =~= all.take(n - 1));
        if part.as_str().is_empty() || same_str(part.as_str(), ".") {
            n -= 1;
        } else if same_str(part.as_str(), "..") {
            return None;
        } else {
            return Some(part.clone());
        }
    }
    None
}

/// Control characters dropped, white space turned into hyphens.
pub open spec fn cleaned(raw: Seq<char>) -> Seq<char>
    decreases raw.len(),
{
    if raw.len() == 0 {
        Seq::empty()
    } else if is_ctrl(raw.last()) {
        cleaned(raw.drop_last())
    } else if is_space(raw.last()) {
        cleaned(raw.drop_last()).push('-')
    } else {
        cleaned(raw.drop_last()).push(raw.last())
    }
}

/// Hyphens and dots at the beginning dropped.
pub open spec fn strip_lead(s: Seq<char>) -> Seq<char>
    decreases s.len(),
{
    if s.len() > 0 && (s[0] == '-' || s[0] == '.') {
        strip_lead(s.drop_first())
    } else {
        s
    }
}

/// At most `max` characters.
pub open spec fn clipped(s: Seq<char>, max: nat) -> Seq<char> {
    if s.len() <= max {
        s
    } else {
        s.take(max as int)
    }
}

/// The name that a directory suggests for a session.
pub open spec fn base_name_of(dir: Seq<char>) -> Seq<char> {
    let raw = match file_name_of(dir) {
        Some(n) => n,
        None => Seq::empty(),
    };
    let stripped = strip_lead(cleaned(raw));
    if stripped.len() == 0 {
        "session"@
    } else {
        clipped(stripped, NAME_MAX as nat)
    }
}

/// Cuts a text to `max` characters.
pub fn clip_chars(text: &str, max: usize) -> (r: String)
    ensures
        r@ == clipped(text@, max as nat),
{
    let chars: Vec<char> = chars_of(text);
    if chars.len() <= max {
        return text.to_owned();
    }
    let head = slice_subrange(chars.as_slice(), 0, max);
    assert(head@ =~= text@.take(max as int));
    string_of(head)
}

pub fn base_name(dir: &str) -> (r: String)
    ensures
        r@ == base_name_of(dir@),
{
    let raw: String = match file_name(dir) {
        Some(n) => n,
        None => String::new(),
    };
    let chars: Vec<char> = chars_of(raw.as_str());
    let mut clean: Vec<char> = Vec::new();
    let mut i: usize = 0;
    assert(clean@ =~= cleaned(chars@.take(0)));
    while i < chars.len()
        invariant
            i <= chars@.len(),
            clean@ == cleaned(chars@.take(i as int)),
        decreases chars.len() - i,
    {
        let c: char = chars[i];
        assert(chars@.take(i + 1).drop_last() =~= chars@.take(i as int));
        if !is_control(c) {
            if is_whitespace(c) {
                clean.push('-');
            } else {
                clean.push(c);
            }
        }
        i += 1;
    }
    assert(chars@.take(i as int) =~= chars@);
    let mut k: usize = 0;
    assert(clean@.skip(0) =~= clean@);
    while k < clean.len() && (clean[k] == '-' || clean[k] == '.')
        invariant
            k <= clean@.len(),
            strip_lead(clean@) == strip_lead(clean@.skip(k as int)),
        decreases clean.len() - k,
    {
        assert(clean@.skip(k as int).drop_first() =~= clean@.skip(k + 1));
        k += 1;
    }
    assert(k < clean@.len() ==> clean@.skip(k as int)[0] == clean@[k as int]);
    let stripped = slice_subrange(clean.as_slice(), k, clean.len());
    assert(stripped@ =~= clean@.skip(k as int));
    if stripped.len() == 0 {
        "session".to_owned()
    } else {
        clip_chars(string_of(stripped).as_str(), NAME_MAX)
    }
}

proof fn lemma_cleaned(raw: Seq<char>)
    ensures
        forall|i: int| 0 <= i < cleaned(raw).len() ==> !is_bad(#[trigger] cleaned(raw)[i]),
    decreases raw.len(),
{
    if raw.len() > 0 {
        lemma_cleaned(raw.drop_last());
        let c = cleaned(raw);
        let d = cleaned(raw.drop_last());
        assert forall|i: int| 0 <= i < c.len() implies !is_bad(#[trigger] c[i]) by {
            if i < d.len() {
                assert(c[i] == d[i]);
            }
        }
    }
}

proof fn lemma_strip_lead(s: Seq<char>)
    requires
        forall|i: int| 0 <= i < s.len() ==> !is_bad(#[trigger] s[i]),
    ensures
        forall|i: int| 0 <= i < strip_lead(s).len() ==> !is_bad(#[trigger] strip_lead(s)[i]),
        strip_lead(s).len() > 0 ==> strip_lead(s)[0] != '-' && strip_lead(s)[0] != '.',
    decreases s.len(),
{
    if s.len() > 0 && (s[0] == '-' || s[0] == '.') {
        let rest = s.drop_first();
        assert forall|i: int| 0 <= i < rest.len() implies !is_bad(#[trigger] rest[i]) by {
            assert(rest[i] == s[i + 1]);
        }
        lemma_strip_lead(rest);
    }
}

/// Whatever the directory, the name that it suggests is accepted.
pub proof fn default_names_are_valid(dir: Seq<char>)
    ensures
        valid_name(base_name_of(dir)),
{
    let raw = match file_name_of(dir) {
        Some(n) => n,
        None => Seq::empty(),
    };
    lemma_cleaned(raw);
    lemma_strip_lead(cleaned(raw));
    let stripped = strip_lead(cleaned(raw));
    let name = base_name_of(dir);
    if stripped.len() == 0 {
        reveal_strlit("session");
        assert(name[0] == 's' && name[1] == 'e' && name[2] == 's' && name[3] == 's' && name[4]
            == 'i' && name[5] == 'o' && name[6] == 'n');
    } else {
        assert forall|i: int| 0 <= i < name.len() implies !is_bad(#[trigger] name[i]) by {
            assert(name[i] == stripped[i]);
        }
    }
}

// ---------------------------------------------------------------------------
// Free names
// ---------------------------------------------------------------------------
/// The base with a number behind it, cut so that the whole is not too long and
/// the number stays complete.
pub open spec fn candidate(base: Seq<char>, n: nat) -> Seq<char> {
    let suffix = decimal_of(n);
    let room = if suffix.len() <= NAME_MAX {
        (NAME_MAX - suffix.len()) as nat
    } else {
        0
    };
    clipped(base, room) + suffix
}

/// `taken` was asked about `name` and answered `r`.
pub open spec fn answers<F: Fn(&str) -> bool>(taken: F, name: Seq<char>, r: bool) -> bool {
    exists|s: &str| s@ == name && #[trigger] call_ensures(taken, (s,), r)
}

/// All numbered names from 2 up to but not including `n` are taken.
pub open spec fn all_taken<F: Fn(&str) -> bool>(taken: F, base: Seq<char>, n: nat) -> bool {
    forall|m: nat| 2 <= m < n ==> answers(taken, #[trigger] candidate(base, m), true)
}

fn numbered(base: &str, n: u32) -> (r: String)
    ensures
        r@ == candidate(base@, n as nat),
{
    let suffix: String = decimal(n as u64);
    let digits: Vec<char> = chars_of(suffix.as_str());
    let room: usize = if digits.len() <= NAME_MAX {
        NAME_MAX - digits.len()
    } else {
        0
    };
    let mut out: String = clip_chars(base, room);
    out.append(suffix.as_str());
    out
}

/// The base if it is free, else the first free numbered name; the base again if
/// all of them are taken.
pub fn next_free_name<F: Fn(&str) -> bool>(base: &str, taken: F) -> (r: String)
    requires
        forall|s: &str| call_requires(taken, (s,)),
    ensures
        ({
            ||| r@ == base@ && answers(taken, base@, false)
            ||| answers(taken, base@, true) && exists|n: nat|
                {
                    &&& 2 <= n <= SUFFIX_MAX
                    &&& r@ == #[trigger] candidate(base@, n)
                    &&& answers(taken, candidate(base@, n), false)
                    &&& all_taken(taken, base@, n)
                }
            ||| r@ == base@ && answers(taken, base@, true) && all_taken(
                taken,
                base@,
                (SUFFIX_MAX + 1) as nat,
            )
        }),
{
    if !taken(base) {
        return base.to_owned();
    }
    assert(answers(taken, base@, true));
    let mut n: u32 = 2;
    while n <= SUFFIX_MAX
        invariant
            forall|s: &str| call_requires(taken, (s,)),
            answers(taken, base@, true),
            2 <= n <= SUFFIX_MAX + 1,
            all_taken(taken, base@, n as nat),
        decreases SUFFIX_MAX + 1 - n,
    {
        let name: String = numbered(base, n);
        if !taken(name.as_str()) {
            assert(answers(taken, candidate(base@, n as nat), false));
            return name;
        }
        assert(answers(taken, candidate(base@, n as nat), true));
        assert(all_taken(taken, base@, (n + 1) as nat)) by {
            assert forall|m: nat| 2 <= m < n + 1 implies answers(
                taken,
                #[trigger] candidate(base@, m),
                true,
            ) by {
                if m < n {
                    assert(answers(taken, candidate(base@, m), true));
                }
            }
        }
        n += 1;
    }
    base.to_owned()
}

/// The first free numbered name from `n` on.
pub open spec fn free_from(base: Seq<char>, taken: Seq<Seq<char>>, n: nat) -> Seq<char>
    decreases SUFFIX_MAX + 1 - n,
{
    if n > SUFFIX_MAX {
        base
    } else if !taken.contains(candidate(base, n)) {
        candidate(base, n)
    } else {
        free_from(base, taken, n + 1)
    }
}

/// The base if it is free, else the first free numbered name.
pub open spec fn free_name_of(base: Seq<char>, taken: Seq<Seq<char>>) -> Seq<char> {
    if !taken.contains(base) {
        base
    } else {
        free_from(base, taken, 2)
    }
}

proof fn lemma_free_from(base: Seq<char>, taken: Seq<Seq<char>>, n: nat, m: nat)
    requires
        n <= m <= SUFFIX_MAX + 1,
        forall|k: nat| n <= k < m ==> taken.contains(#[trigger] candidate(base, k)),
    ensures
        free_from(base, taken, n) == free_from(base, taken, m),
    decreases m - n,
{
    if n < m {
        assert(taken.contains(candidate(base, n)));
        lemma_free_from(base, taken, n + 1, m);
    }
}

/// Whether a name is in the list.
pub fn has_name(names: &Vec<String>, name: &str) -> (r: bool)
    ensures
        r == views(names@).contains(name@),
{
    let mut i: usize = 0;
    while i < names.len()
        invariant
            i <= names@.len(),
            forall|k: int| 0 <= k < i ==> (#[trigger] names@[k])@ != name@,
        decreases names.len() - i,
    {
        if same_str(names[i].as_str(), name) {
            assert(views(names@)[i as int] == name@);
            return true;
        }
        i += 1;
    }
    assert forall|k: int| 0 <= k < views(names@).len() implies views(names@)[k] != name@ by {
        assert(views(names@)[k] == names@[k]@);
    }
    false
}

/// [`next_free_name`] with the names that are taken as a list.
pub fn free_name(base: &str, names: &Vec<String>) -> (r: String)
    ensures
        r@ == free_name_of(base@, views(names@)),
{
    let ghost list = views(names@);
    let asked = |s: &str| -> (b: bool)
        ensures
            b == views(names@).contains(s@),
        { has_name(names, s) };
    let r: String = next_free_name(base, asked);
    proof {
        assert forall|name: Seq<char>, b: bool| answers(asked, name, b) implies list.contains(name)
            == b by {}
        if list.contains(base@) {
            if exists|n: nat|
                {
                    &&& 2 <= n <= SUFFIX_MAX
                    &&& r@ == #[trigger] candidate(base@, n)
                    &&& answers(asked, candidate(base@, n), false)
                    &&& all_taken(asked, base@, n)
                } {
                let n = choose|n: nat|
                    {
                        &&& 2 <= n <= SUFFIX_MAX
                        &&& r@ == #[trigger] candidate(base@, n)
                        &&& answers(asked, candidate(base@, n), false)
                        &&& all_taken(asked, base@, n)
                    };
                assert forall|k: nat| 2 <= k < n implies list.contains(
                    #[trigger] candidate(base@, k),
                ) by {
                    assert(answers(asked, candidate(base@, k), true));
                }
                lemma_free_from(base@, list, 2, n);
            } else {
                let n = (SUFFIX_MAX + 1) as nat;
                assert forall|k: nat| 2 <= k < n implies list.contains(
                    #[trigger] candidate(base@, k),
                ) by {
                    assert(answers(asked, candidate(base@, k), true));
                }
                lemma_free_from(base@, list, 2, n);
            }
        }
    }
    r
}

proof fn lemma_candidate_valid(base: Seq<char>, n: nat)
    requires
        valid_name(base),
        n <= SUFFIX_MAX,
    ensures
        valid_name(candidate(base, n)),
{
    reveal_with_fuel(decimal_of, 6);
    lemma_decimal_digits(n);
    let digits = decimal_of(n);
    assert(digits.len() <= 4);
    let name = candidate(base, n);
    let stem = clipped(base, (NAME_MAX - digits.len()) as nat);
    assert forall|i: int| 0 <= i < name.len() implies !is_bad(#[trigger] name[i]) by {
        if i < stem.len() {
            assert(name[i] == base[i]);
        } else {
            assert(name[i] == digits[i - stem.len()]);
            assert(is_digit(digits[i - stem.len()]));
        }
    }
    assert(name[0] == base[0]);
}

proof fn lemma_free_from_facts(base: Seq<char>, taken: Seq<Seq<char>>, n: nat)
    requires
        valid_name(base),
    ensures
        valid_name(free_from(base, taken, n)),
        !taken.contains(free_from(base, taken, n)) || (free_from(base, taken, n) == base
            && forall|k: nat|
            n <= k <= SUFFIX_MAX ==> taken.contains(#[trigger] candidate(base, k))),
    decreases SUFFIX_MAX + 1 - n,
{
    if n > SUFFIX_MAX {
    } else if !taken.contains(candidate(base, n)) {
        lemma_candidate_valid(base, n);
    } else {
        lemma_free_from_facts(base, taken, n + 1);
        assert forall|k: nat|
            free_from(base, taken, n) == base && taken.contains(base) && n <= k
                <= SUFFIX_MAX implies taken.contains(#[trigger] candidate(base, k)) by {}
    }
}

/// A name chosen for a valid base is valid, and it is free unless the base and
/// all numbered names are taken.
pub proof fn chosen_names_are_valid_and_free(base: Seq<char>, taken: Seq<Seq<char>>)
    requires
        valid_name(base),
    ensures
        valid_name(free_name_of(base, taken)),
        taken.contains(free_name_of(base, taken)) ==> free_name_of(base, taken) == base
            && forall|k: nat|
            2 <= k <= SUFFIX_MAX ==> taken.contains(#[trigger] candidate(base, k)),
        !taken.contains(base) ==> free_name_of(base, taken) == base,
{
    if taken.contains(base) {
        lemma_free_from_facts(base, taken, 2);
    }
}

// ---------------------------------------------------------------------------
// Environment values
// ---------------------------------------------------------------------------
pub open spec fn default_command_of(shell: Option<Seq<char>>) -> Seq<char> {
    match shell {
        Some(s) if trim_of(s).len() > 0 => s,
        _ => "/bin/sh"@,
    }
}

/// The value of `$SHELL` unless it is blank, else `/bin/sh`.
pub fn default_command(shell: &Option<String>) -> (r: String)
    ensures
        r@ == default_command_of(opt_view(*shell)),
{
    match shell {
        Some(s) => {
            if is_blank(s.as_str()) {
                "/bin/sh".to_owned()
            } else {
                s.clone()
            }
        },
        None => "/bin/sh".to_owned(),
    }
}

pub open spec fn expanded(path: Seq<char>, home: Option<Seq<char>>) -> Seq<char> {
    if path == "~"@ {
        match home {
            Some(h) => h,
            None => path,
        }
    } else if starts_with_text(path, "~/"@) {
        match non_empty(home) {
            Some(h) => h + "/"@ + path.skip(2),
            None => path,
        }
    } else {
        path
    }
}

/// Expands `~` and a leading `~/`; other forms stay as they are.
pub fn expand_tilde(path: &str, home: &Option<String>) -> (r: String)
    ensures
        r@ == expanded(path@, opt_view(*home)),
{
    proof {
        reveal_strlit("~/");
    }
    if same_str(path, "~") {
        return match home {
            Some(h) => h.clone(),
            None => path.to_owned(),
        };
    }
    let chars: Vec<char> = chars_of(path);
    if starts_with(chars.as_slice(), "~/") {
        if let Some(h) = home {
            if !h.as_str().is_empty() {
                let rest = slice_subrange(chars.as_slice(), 2, chars.len());
                assert(rest@ =~= path@.skip(2));
                let mut out: String = h.clone();
                out.append("/");
                out.append(string_of(rest).as_str());
                return out;
            }
        }
    }
    path.to_owned()
}

pub open spec fn auto_refresh_of(raw: Seq<char>) -> Option<nat> {
    match parse_unsigned(trim_of(raw), u64::MAX as nat) {
        Some(v) if v > 0 => Some(v),
        _ => None,
    }
}

/// A refresh interval in seconds: a positive number, anything else is none.
pub fn parse_auto_refresh_secs(raw: &str) -> (r: Option<u64>)
    ensures
        match auto_refresh_of(raw@) {
            Some(v) => r == Some(v as u64) && v <= u64::MAX,
            None => r is None,
        },
{
    let chars: Vec<char> = chars_of(raw);
    match read_unsigned(trim(chars.as_slice()), u64::MAX) {
        Some(v) => {
            if v > 0 {
                Some(v)
            } else {
                None
            }
        },
        None => None,
    }
}

// ---------------------------------------------------------------------------
// The escape prefix
// ---------------------------------------------------------------------------
/// ASCII small letters become capitals.
pub open spec fn upper_char(c: char) -> char {
    if 0x61 <= c as int <= 0x7a {
        (c as int - 0x20) as char
    } else {
        c
    }
}

fn ascii_uppercase(c: char) -> (r: char)
    ensures
        r == upper_char(c),
{
    let n: u32 = c as u32;
    if 0x61 <= n && n <= 0x7a {
        ((n - 0x20) as u8) as char
    } else {
        c
    }
}

/// Quotes at the beginning dropped.
pub open spec fn strip_quotes(s: Seq<char>) -> Seq<char>
    decreases s.len(),
{
    if s.len() > 0 && s[0] == '"' {
        strip_quotes(s.drop_first())
    } else {
        s
    }
}

/// How a prefix is described: `^a` as `Ctrl-A`, a plain character as itself.
pub open spec fn described(token: Seq<char>) -> Option<Seq<char>> {
    if token.len() > 0 && token[0] == '^' {
        if token.len() > 1 {
            Some("Ctrl-"@.push(upper_char(token[1])))
        } else {
            None
        }
    } else if token.len() > 0 {
        Some(seq![token[0]])
    } else {
        None
    }
}

/// The prefix on a line of the form `escape <prefix>`; the outer option is
/// none for any other line.
pub open spec fn escape_line(line: Seq<char>) -> Option<Option<Seq<char>>> {
    let body = line.take(until_char(line, '#') as int);
    let rest = after_first_word(body);
    if first_word_of(body) == "escape"@ && first_word_of(rest).len() > 0 {
        Some(described(strip_quotes(first_word_of(rest))))
    } else {
        None
    }
}

pub open spec fn escape_in(lines: Seq<Seq<char>>) -> Option<Seq<char>>
    decreases lines.len(),
{
    if lines.len() == 0 {
        None
    } else {
        match escape_line(lines[0]) {
            Some(found) => found,
            None => escape_in(lines.drop_first()),
        }
    }
}

fn describe_prefix(token: &[char]) -> (r: Option<String>)
    ensures
        opt_view(r) == described(token@),
{
    if token.len() == 0 {
        return None;
    }
    if token[0] == '^' {
        if token.len() == 1 {
            return None;
        }
        let mut out: String = "Ctrl-".to_owned();
        out.push(ascii_uppercase(token[1]));
        Some(out)
    } else {
        let mut out: String = String::new();
        out.push(token[0]);
        assert(out@ =~= seq![token@[0]]);
        Some(out)
    }
}

fn read_escape_line(line: &[char]) -> (r: Option<Option<String>>)
    ensures
        match escape_line(line@) {
            Some(found) => r matches Some(f) && opt_view(f) == found,
            None => r is None,
        },
{
    let end: usize = index_of_char(line, '#');
    let body = slice_subrange(line, 0, end);
    assert(body@ =~= line@.take(until_char(line@, '#') as int));
    match next_word(body) {
        None => {
            proof {
                reveal_strlit("escape");
            }
            None
        },
        Some((keyword, rest)) => {
            if !same_text(keyword, "escape") {
                return None;
            }
            match next_word(rest) {
                None => None,
                Some((token, _)) => {
                    let mut k: usize = 0;
                    assert(token@.skip(0) =~= token@);
                    while k < token.len() && token[k] == '"'
                        invariant
                            k <= token@.len(),
                            strip_quotes(token@) == strip_quotes(token@.skip(k as int)),
                        decreases token.len() - k,
                    {
                        assert(token@.skip(k as int).drop_first() =~= token@.skip(k + 1));
                        k += 1;
                    }
                    assert(k < token@.len() ==> token@.skip(k as int)[0] == token@[k as int]);
                    let bare = slice_subrange(token, k, token.len());
                    assert(bare@ =~= token@.skip(k as int));
                    Some(describe_prefix(bare))
                },
            }
        },
    }
}

/// The escape prefix that a screenrc sets, as it is shown to the user.
pub fn parse_screenrc_escape(text: &str) -> (r: Option<String>)
    ensures
        opt_view(r) == escape_in(lines_of(text@)),
{
    let all: Vec<String> = lines(text);
    let ghost texts = lines_of(text@);
    let mut i: usize = 0;
    assert(texts.skip(0) =~= texts);
    while i < all.len()
        invariant
            views(all@) == texts,
            texts == lines_of(text@),
            i <= all@.len(),
            escape_in(texts) == escape_in(texts.skip(i as int)),
        decreases all.len() - i,
    {
        assert(texts.skip(i as int)[0] == views(all@)[i as int]);
        let chars: Vec<char> = chars_of(all[i].as_str());
        if let Some(found) = read_escape_line(chars.as_slice()) {
            return found;
        }
        assert(texts.skip(i as int).drop_first() =~= texts.skip(i + 1));
        i += 1;
    }
    assert(views(all@).len() == all@.len());
    None
}

/// Where the screenrc is: `$SCREENRC`, else `.screenrc` in `$HOME`.
pub fn screenrc_path(screenrc: Option<String>, home: Option<String>) -> (r: Option<String>)
    ensures
        opt_view(r) == match non_empty(opt_view(screenrc)) {
            Some(p) => Some(p),
            None => match non_empty(opt_view(home)) {
                Some(h) => Some(path_in(h, ".screenrc"@)),
                None => None,
            },
        },
{
    match keep_non_empty(screenrc) {
        Some(p) => Some(p),
        None => match keep_non_empty(home) {
            Some(h) => Some(join_path(h.as_str(), ".screenrc")),
            None => None,
        },
    }
}

/// The prefix of the screenrc whose text was read, if it could be.
pub fn detect_escape_prefix(text: &Option<String>) -> (r: Option<String>)
    ensures
        opt_view(r) == match opt_view(*text) {
            Some(s) => escape_in(lines_of(s)),
            None => None,
        },
{
    match text {
        Some(s) => parse_screenrc_escape(s.as_str()),
        None => None,
    }
}

pub open spec fn detach_hint_of(prefix: Option<Seq<char>>, lang: Lang) -> Seq<char> {
    match prefix {
        Some(p) => fmt_of(dict_of(lang).detach_hint_some@, seq![p]),
        None => dict_of(lang).detach_hint_default@,
    }
}

/// How to leave a session: with the prefix that was found, else with the
/// default one and a remark.
pub fn detach_hint_text(prefix: Option<&str>, lang: Lang) -> (r: String)
    ensures
        r@ == detach_hint_of(
            match prefix {
                Some(p) => Some(p@),
                None => None,
            },
            lang,
        ),
{
    let t = dict(lang);
    match prefix {
        Some(p) => {
            let args: [&str; 1] = [p];
            assert(str_views(args@) =~= seq![p@]);
            fmt(t.detach_hint_some, &args)
        },
        None => t.detach_hint_default.to_owned(),
    }
}

// ---------------------------------------------------------------------------
// Sessions
// ---------------------------------------------------------------------------
/// How many sessions have a name.
pub open spec fn count_named(sessions: Seq<SessionView>, name: Seq<char>) -> nat
    decreases sessions.len(),
{
    if sessions.len() == 0 {
        0
    } else {
        count_named(sessions.drop_last(), name) + if sessions.last().name == name {
            1nat
        } else {
            0
        }
    }
}

/// The position of the first session of a name, or the number of sessions.
pub open spec fn index_named(sessions: Seq<SessionView>, name: Seq<char>) -> nat
    decreases sessions.len(),
{
    if sessions.len() == 0 || sessions[0].name == name {
        0
    } else {
        1 + index_named(sessions.drop_first(), name)
    }
}

/// The first session of a name.
pub open spec fn first_named(sessions: Seq<SessionView>, name: Seq<char>) -> Option<SessionView> {
    let i = index_named(sessions, name) as int;
    if i < sessions.len() {
        Some(sessions[i])
    } else {
        None
    }
}

/// The name where it is unique, else the full address of its first bearer.
pub open spec fn target_of(sessions: Seq<SessionView>, name: Seq<char>) -> Seq<char> {
    if count_named(sessions, name) == 1 {
        name
    } else {
        match first_named(sessions, name) {
            Some(s) => s.full,
            None => name,
        }
    }
}

pub fn how_many_named(sessions: &[SessionRecord], name: &str) -> (r: usize)
    ensures
        r == count_named(session_views(sessions@), name@),
        r <= sessions@.len(),
{
    let ghost all = session_views(sessions@);
    let mut n: usize = 0;
    let mut i: usize = 0;
    while i < sessions.len()
        invariant
            all == session_views(sessions@),
            i <= sessions@.len(),
            n <= i,
            n == count_named(all.take(i as int), name@),
        decreases sessions.len() - i,
    {
        assert(all.take(i + 1).drop_last() =~= all.take(i as int));
        assert(all.take(i + 1).last() == sessions@[i as int]@);
        if same_str(sessions[i].name.as_str(), name) {
            n += 1;
        }
        i += 1;
    }
    assert(all.take(i as int) =~= all);
    n
}

/// The position of the first session of a name.
pub fn find_named(sessions: &[SessionRecord], name: &str) -> (r: usize)
    ensures
        r == index_named(session_views(sessions@), name@),
        r <= sessions@.len(),
        r < sessions@.len() ==> sessions@[r as int]@.name == name@,
{
    let ghost all = session_views(sessions@);
    let mut i: usize = 0;
    assert(all.skip(0) =~= all);
    while i < sessions.len()
        invariant
            all == session_views(sessions@),
            i <= sessions@.len(),
            index_named(all, name@) == i + index_named(all.skip(i as int), name@),
        decreases sessions.len() - i,
    {
        assert(all.skip(i as int)[0] == sessions@[i as int]@);
        if same_str(sessions[i].name.as_str(), name) {
            return i;
        }
        assert(all.skip(i as int).drop_first() =~= all.skip(i + 1));
        i += 1;
    }
    i
}

/// The address under which a session is asked for: its name if that is unique.
pub fn unambiguous_target(sessions: &[SessionRecord], name: &str) -> (r: String)
    ensures
        r@ == target_of(session_views(sessions@), name@),
{
    if how_many_named(sessions, name) == 1 {
        return name.to_owned();
    }
    let i: usize = find_named(sessions, name);
    if i < sessions.len() {
        assert(session_views(sessions@)[i as int] == sessions@[i as int]@);
        sessions[i].full.clone()
    } else {
        name.to_owned()
    }
}

/// The position of the session with a full address, or the number of sessions.
pub open spec fn index_at(sessions: Seq<SessionView>, full: Seq<char>) -> nat
    decreases sessions.len(),
{
    if sessions.len() == 0 || sessions[0].full == full {
        0
    } else {
        1 + index_at(sessions.drop_first(), full)
    }
}

/// The session with a full address.
pub open spec fn session_at(sessions: Seq<SessionView>, full: Seq<char>) -> Option<SessionView> {
    let i = index_at(sessions, full) as int;
    if i < sessions.len() {
        Some(sessions[i])
    } else {
        None
    }
}

/// The session with a full address, or else the first one of a name.
pub open spec fn found_again(
    sessions: Seq<SessionView>,
    name: Seq<char>,
    full: Seq<char>,
) -> Option<SessionView> {
    match session_at(sessions, full) {
        Some(s) => Some(s),
        None => first_named(sessions, name),
    }
}

/// The name alone does not say which session is meant: several bear it, or it is the
/// full address of one.
pub open spec fn ambiguous(sessions: Seq<SessionView>, name: Seq<char>) -> bool {
    count_named(sessions, name) > 1 || session_at(sessions, name) is Some
}

/// How a session is addressed: by its name, or in full where the name is ambiguous.
pub open spec fn address_of(
    sessions: Seq<SessionView>,
    name: Seq<char>,
    full: Seq<char>,
) -> Seq<char> {
    if ambiguous(sessions, name) {
        full
    } else {
        name
    }
}

/// The name of the session that an address leads to: that of the listed session with
/// this full address, or the address itself if a listed session bears it as a name.
/// Of a session that is no longer listed, the number and the dot of a full address are
/// cut off.
pub open spec fn name_at(sessions: Seq<SessionView>, target: Seq<char>) -> Seq<char> {
    let dot = until_char(target, '.') as int;
    match session_at(sessions, target) {
        Some(s) => s.name,
        None => if count_named(sessions, target) == 0 && dot < target.len() && parse_digits(
            target.take(dot),
        ) is Some {
            target.skip(dot + 1)
        } else {
            target
        },
    }
}

/// The position of the session with a full address.
pub fn find_at(sessions: &[SessionRecord], full: &str) -> (r: usize)
    ensures
        r == index_at(session_views(sessions@), full@),
        r <= sessions@.len(),
{
    let ghost all = session_views(sessions@);
    let mut i: usize = 0;
    assert(all.skip(0) =~= all);
    while i < sessions.len()
        invariant
            all == session_views(sessions@),
            i <= sessions@.len(),
            index_at(all, full@) == i + index_at(all.skip(i as int), full@),
        decreases sessions.len() - i,
    {
        assert(all.skip(i as int)[0] == sessions@[i as int]@);
        if same_str(sessions[i].full.as_str(), full) {
            return i;
        }
        assert(all.skip(i as int).drop_first() =~= all.skip(i + 1));
        i += 1;
    }
    i
}

/// The session with a full address, or else the first one of a name.
pub fn find_again(sessions: &[SessionRecord], name: &str, full: &str) -> (r: Option<SessionRecord>)
    ensures
        match found_again(session_views(sessions@), name@, full@) {
            Some(s) => r matches Some(f) && f@ == s,
            None => r is None,
        },
{
    let ghost all = session_views(sessions@);
    assert(all.len() == sessions@.len());
    let i: usize = find_at(sessions, full);
    if i < sessions.len() {
        assert(all[i as int] == sessions@[i as int]@);
        return Some(sessions[i].clone());
    }
    let k: usize = find_named(sessions, name);
    if k < sessions.len() {
        assert(all[k as int] == sessions@[k as int]@);
        Some(sessions[k].clone())
    } else {
        None
    }
}

/// How a session is addressed: by its name, or in full where the name is ambiguous.
pub fn address(sessions: &[SessionRecord], name: &str, full: &str) -> (r: String)
    ensures
        r@ == address_of(session_views(sessions@), name@, full@),
{
    assert(session_views(sessions@).len() == sessions@.len());
    if how_many_named(sessions, name) > 1 || find_at(sessions, name) < sessions.len() {
        full.to_owned()
    } else {
        name.to_owned()
    }
}

/// The name of the session that an address leads to.
pub fn addressed_name(sessions: &[SessionRecord], target: &str) -> (r: String)
    ensures
        r@ == name_at(session_views(sessions@), target@),
{
    let ghost all = session_views(sessions@);
    assert(all.len() == sessions@.len());
    let i: usize = find_at(sessions, target);
    if i < sessions.len() {
        assert(all[i as int] == sessions@[i as int]@);
        return sessions[i].name.clone();
    }
    let chars: Vec<char> = chars_of(target);
    let dot: usize = index_of_char(chars.as_slice(), '.');
    if how_many_named(sessions, target) == 0 && dot < chars.len() {
        let head = slice_subrange(chars.as_slice(), 0, dot);
        assert(head@ =~= target@.take(dot as int));
        if is_digit_run(head) {
            let rest = slice_subrange(chars.as_slice(), dot + 1, chars.len());
            assert(rest@ =~= target@.skip(dot + 1));
            return string_of(rest);
        }
    }
    target.to_owned()
}

pub proof fn lemma_index_at(sessions: Seq<SessionView>, i: int)
    requires
        0 <= i < sessions.len(),
    ensures
        index_at(sessions, sessions[i].full) <= i,
        sessions[index_at(sessions, sessions[i].full) as int].full == sessions[i].full,
    decreases sessions.len(),
{
    if sessions[0].full != sessions[i].full {
        let rest = sessions.drop_first();
        assert(rest[i - 1] == sessions[i]);
        lemma_index_at(rest, i - 1);
    }
}

proof fn lemma_counted(sessions: Seq<SessionView>, i: int)
    requires
        0 <= i < sessions.len(),
    ensures
        count_named(sessions, sessions[i].name) > 0,
    decreases sessions.len(),
{
    if i < sessions.len() - 1 {
        lemma_counted(sessions.drop_last(), i);
    }
}

/// Every listed session is addressed in full if another one bears its name too, and the
/// address leads back to its name.
pub proof fn addresses_lead_back_to_the_session(sessions: Seq<SessionView>, i: int)
    requires
        0 <= i < sessions.len(),
        forall|j: int, k: int|
            0 <= j < sessions.len() && 0 <= k < sessions.len() && (#[trigger] sessions[j]).full == (
            #[trigger] sessions[k]).full ==> sessions[j].name == sessions[k].name,
    ensures
        ({
            let s = sessions[i];
            let target = address_of(sessions, s.name, s.full);
            &&& count_named(sessions, s.name) > 1 ==> target == s.full
            &&& target == s.full || target == s.name
            &&& name_at(sessions, target) == s.name
            &&& found_again(sessions, s.name, s.full) matches Some(f) && f.full == s.full
        }),
{
    let s = sessions[i];
    lemma_index_at(sessions, i);
    lemma_counted(sessions, i);
}

/// How many lines are not blank.
pub open spec fn solid_lines(lines: Seq<Seq<char>>) -> nat
    decreases lines.len(),
{
    if lines.len() == 0 {
        0
    } else {
        solid_lines(lines.drop_last()) + if trim_of(lines.last()).len() > 0 {
            1nat
        } else {
            0
        }
    }
}

/// The number of windows in the output of `-Q windows`: one on each line.
pub fn parse_window_count(text: &str) -> (r: usize)
    ensures
        r == solid_lines(lines_of(text@)),
{
    let all: Vec<String> = lines(text);
    let ghost texts = lines_of(text@);
    let mut n: usize = 0;
    let mut i: usize = 0;
    while i < all.len()
        invariant
            views(all@) == texts,
            i <= all@.len(),
            n <= i,
            n == solid_lines(texts.take(i as int)),
        decreases all.len() - i,
    {
        assert(texts.take(i + 1).drop_last() =~= texts.take(i as int));
        assert(texts.take(i + 1).last() == views(all@)[i as int]);
        if !is_blank(all[i].as_str()) {
            n += 1;
        }
        i += 1;
    }
    assert(views(all@).len() == all@.len());
    assert(texts.take(i as int) =~= texts);
    n
}

} // verus!
