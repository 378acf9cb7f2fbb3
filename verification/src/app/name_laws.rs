//! Names, addresses and settings, on texts that are written out piece by piece.

use crate::app::names::{
    NAME_MAX, SUFFIX_MAX, accepted_names, auto_refresh_of, base_name_of, candidate, char_debug,
    cleaned, default_command_of, escape_in, escape_line, file_name_of, first_bad, free_from,
    free_name_of, is_bad, last_part, name_error, strip_lead, strip_quotes, upper_char,
};
use crate::app::state::interval_of;
use crate::i18n::{
    Lang, dict_of, fmt_of,
};
use crate::text::{
    after_first_word, decimal_of, first_word_of, is_ctrl, is_digit, is_space,
    lemma_decimal_digits, lemma_until_char, lemma_word_len, split_of, trim_of, trim_start_of,
    until_char, word_len,
};
use crate::text_laws::{
    all_space, no_space, separators_part_texts, texts_fall_apart_when_trimmed,
    the_first_one_counts, trimming_takes_off_white_space, white_space_parts_words,
};
use vstd::prelude::*;

verus! {

// ---------------------------------------------------------------------------
// Suggested names
// ---------------------------------------------------------------------------
/// A part of a path that can be a name as it is.
pub open spec fn is_plain_part(part: Seq<char>) -> bool {
    &&& 0 < part.len() <= NAME_MAX
    &&& part[0] != '-' && part[0] != '.'
    &&& forall|i: int|
        0 <= i < part.len() ==> !is_ctrl(#[trigger] part[i]) && !is_space(part[i]) && part[i] != '/'
}

proof fn lemma_clean(part: Seq<char>)
    requires
        forall|i: int| 0 <= i < part.len() ==> !is_ctrl(#[trigger] part[i]) && !is_space(part[i]),
    ensures
        cleaned(part) == part,
    decreases part.len(),
{
    if part.len() > 0 {
        let front = part.drop_last();
        assert forall|i: int| 0 <= i < front.len() implies !is_ctrl(#[trigger] front[i])
            && !is_space(front[i]) by {
            assert(front[i] == part[i]);
        }
        lemma_clean(front);
        assert(!is_ctrl(part[part.len() - 1]) && !is_space(part[part.len() - 1]));
        assert(front.push(part.last()) =~= part);
    }
}

proof fn lemma_last_piece(parent: Seq<char>, leaf: Seq<char>)
    requires
        !leaf.contains('/'),
    ensures
        split_of(parent + seq!['/'] + leaf, '/').len() > 0,
        split_of(parent + seq!['/'] + leaf, '/').last() == leaf,
    decreases parent.len(),
{
    let s = parent + seq!['/'] + leaf;
    separators_part_texts(leaf, '/', Seq::empty());
    if parent.contains('/') {
        lemma_until_char(parent, '/');
        let n = until_char(parent, '/') as int;
        assert(n < parent.len()) by {
            let k = choose|k: int| 0 <= k < parent.len() && parent[k] == '/';
            assert(parent[k] == '/');
        }
        let head = parent.take(n);
        let rest = parent.skip(n + 1);
        assert(!head.contains('/')) by {
            if head.contains('/') {
                let k = choose|k: int| 0 <= k < head.len() && head[k] == '/';
                assert(parent[k] == '/');
            }
        }
        assert(s =~= head + seq!['/'] + (rest + seq!['/'] + leaf));
        separators_part_texts(head, '/', rest + seq!['/'] + leaf);
        lemma_last_piece(rest, leaf);
        let tail = split_of(rest + seq!['/'] + leaf, '/');
        assert((seq![head] + tail).last() == tail.last());
    } else {
        separators_part_texts(parent, '/', leaf);
        assert((seq![parent] + seq![leaf]).last() == leaf);
    }
}

/// The suggested name is the last part of the directory, where that can be a name.
pub proof fn names_come_from_the_directory(parent: Seq<char>, leaf: Seq<char>)
    requires
        is_plain_part(leaf),
    ensures
        base_name_of(parent + seq!['/'] + leaf) == leaf,
{
    reveal_strlit(".");
    reveal_strlit("..");
    let s = parent + seq!['/'] + leaf;
    assert(!leaf.contains('/'));
    lemma_last_piece(parent, leaf);
    assert("."@[0] == '.' && ".."@[0] == '.');
    assert(file_name_of(s) == Some(leaf));
    lemma_clean(leaf);
    assert(strip_lead(leaf) == leaf);
}

/// Where there is nothing to take a name from, it is `session`.
pub proof fn the_root_has_no_name()
    ensures
        base_name_of(seq!['/']) == "session"@,
        base_name_of(Seq::empty()) == "session"@,
{
    let none = Seq::<char>::empty();
    separators_part_texts(none, '/', none);
    assert(none + seq!['/'] + none =~= seq!['/']);
    let parts = split_of(seq!['/'], '/');
    assert(parts =~= seq![none, none]);
    assert(parts.drop_last() =~= seq![none]);
    assert(seq![none].drop_last() =~= Seq::<Seq<char>>::empty());
    assert(last_part(seq![none].drop_last()) is None);
    assert(last_part(seq![none]) is None);
    assert(last_part(parts) is None);
    assert(cleaned(none) =~= none);
    assert(strip_lead(none) =~= none);
}

/// In a part with white space or control characters in it, the white space becomes
/// dashes and the control characters go; every other character stays.
pub proof fn unfit_characters_are_replaced(front: Seq<char>, c: char)
    ensures
        cleaned(front.push(c)) == if is_ctrl(c) {
            cleaned(front)
        } else if is_space(c) {
            cleaned(front) + seq!['-']
        } else {
            cleaned(front) + seq![c]
        },
        cleaned(Seq::empty()) == Seq::<char>::empty(),
{
    assert(front.push(c).drop_last() =~= front);
    assert(cleaned(front).push('-') =~= cleaned(front) + seq!['-']);
    assert(cleaned(front).push(c) =~= cleaned(front) + seq![c]);
}

/// A name that is taken gets the number two behind it, and the first number that makes
/// it free if that is taken too.
pub proof fn taken_names_get_a_number(base: Seq<char>, taken: Seq<Seq<char>>, n: nat)
    requires
        taken.contains(base),
        2 <= n <= SUFFIX_MAX,
        base.len() + decimal_of(n).len() <= NAME_MAX,
        !taken.contains(base + decimal_of(n)),
        forall|k: nat| 2 <= k < n ==> taken.contains(#[trigger] candidate(base, k)),
    ensures
        free_name_of(base, taken) == base + decimal_of(n),
{
    lemma_free_number(base, taken, 2, n);
}

proof fn lemma_free_number(base: Seq<char>, taken: Seq<Seq<char>>, from: nat, n: nat)
    requires
        2 <= from <= n <= SUFFIX_MAX,
        base.len() + decimal_of(n).len() <= NAME_MAX,
        !taken.contains(base + decimal_of(n)),
        forall|k: nat| 2 <= k < n ==> taken.contains(#[trigger] candidate(base, k)),
    ensures
        free_from(base, taken, from) == base + decimal_of(n),
    decreases n - from,
{
    if from < n {
        assert(taken.contains(candidate(base, from)));
        lemma_free_number(base, taken, from + 1, n);
    } else {
        assert(candidate(base, n) == base + decimal_of(n));
    }
}

/// A numbered name is the beginning of the base and the number, as much of the base as
/// the longest name leaves room for.
pub proof fn numbered_names_keep_their_base(base: Seq<char>, n: nat)
    requires
        decimal_of(n).len() <= NAME_MAX,
    ensures
        ({
            let c = candidate(base, n);
            let kept = c.len() - decimal_of(n).len();
            &&& c.len() <= NAME_MAX
            &&& 0 <= kept <= base.len()
            &&& c == base.take(kept) + decimal_of(n)
            &&& base.len() + decimal_of(n).len() <= NAME_MAX ==> kept == base.len()
            &&& base.len() + decimal_of(n).len() > NAME_MAX ==> c.len() == NAME_MAX
        }),
{
    assert(base.take(base.len() as int) =~= base);
}

// ---------------------------------------------------------------------------
// Settings
// ---------------------------------------------------------------------------
/// The list is refreshed by itself every so many seconds as the setting says, if that is
/// a number other than zero, whatever white space stands around it.
pub proof fn the_interval_is_what_was_set(before: Seq<char>, n: nat, after: Seq<char>)
    requires
        all_space(before),
        all_space(after),
        n <= u64::MAX,
    ensures
        auto_refresh_of(before + decimal_of(n) + after) == if n > 0 {
            Some(n)
        } else {
            None
        },
        0 < n && n * 1000 <= u64::MAX ==> interval_of(before + decimal_of(n) + after) == Some(
            (n * 1000) as u64,
        ),
{
    lemma_decimal_digits(n);
    let d = decimal_of(n);
    assert(is_digit(d[0]) && is_digit(d[d.len() - 1]));
    trimming_takes_off_white_space(before, d, after);
    assert(d[0] != '+');
}

/// What is no number sets no interval.
pub proof fn other_settings_set_no_interval(raw: Seq<char>, i: int)
    requires
        0 < i < trim_of(raw).len(),
        !is_digit(trim_of(raw)[i]),
    ensures
        auto_refresh_of(raw) is None,
        interval_of(raw) is None,
{
    let t = trim_of(raw);
    let body = if t[0] == '+' {
        t.drop_first()
    } else {
        t
    };
    assert(body[i - (t.len() - body.len())] == t[i]);
}

/// The shell is the one of the environment, and `/bin/sh` where none is set or it is blank.
pub proof fn the_shell_is_that_of_the_environment(shell: Seq<char>)
    ensures
        default_command_of(None) == "/bin/sh"@,
        all_space(shell) ==> default_command_of(Some(shell)) == "/bin/sh"@,
        !all_space(shell) ==> default_command_of(Some(shell)) == shell,
{
    texts_fall_apart_when_trimmed(shell);
}

// ---------------------------------------------------------------------------
// The escape key
// ---------------------------------------------------------------------------
/// A line `escape ^Xx` sets the key to Ctrl and the letter, in capitals; one with another
/// character sets it to that. What follows a `#` is a remark.
pub proof fn escape_lines_set_the_key(gap: Seq<char>, c: char, more: Seq<char>, remark: Seq<char>)
    requires
        all_space(gap),
        gap.len() > 0,
        !is_space(c),
        c != '#',
        c != '"',
        no_space(more),
        !more.contains('#'),
        !gap.contains('#'),
    ensures
        escape_line("escape"@ + gap + seq!['^', c] + more) == Some(
            Some("Ctrl-"@ + seq![upper_char(c)]),
        ),
        escape_line("escape"@ + gap + seq!['^', c] + more + seq!['#'] + remark) == Some(
            Some("Ctrl-"@ + seq![upper_char(c)]),
        ),
        c != '^' ==> escape_line("escape"@ + gap + seq![c] + more) == Some(Some(seq![c])),
{
    reveal_strlit("escape");
    let a = "escape"@ + gap + seq!['^', c] + more;
    let b = "escape"@ + gap + seq![c] + more;
    lemma_escape(gap, seq!['^', c] + more);
    lemma_escape(gap, seq![c] + more);
    assert(a =~= "escape"@ + gap + (seq!['^', c] + more));
    assert(b =~= "escape"@ + gap + (seq![c] + more));
    let ta = seq!['^', c] + more;
    let tb = seq![c] + more;
    assert(strip_quotes(ta) == ta && strip_quotes(tb) == tb);
    assert("Ctrl-"@.push(upper_char(c)) =~= "Ctrl-"@ + seq![upper_char(c)]);
    assert forall|i: int| 0 <= i < a.len() implies a[i] != '#' by {
        let g = 6 + gap.len();
        if 6 <= i < g {
            assert(a[i] == gap[i - 6]);
            assert(gap.contains(gap[i - 6]));
        } else if i >= g + 2 {
            assert(a[i] == more[i - g - 2]);
            assert(more.contains(more[i - g - 2]));
        }
    }
    assert forall|i: int| 0 <= i < b.len() implies b[i] != '#' by {
        let g = 6 + gap.len();
        if 6 <= i < g {
            assert(b[i] == gap[i - 6]);
            assert(gap.contains(gap[i - 6]));
        } else if i >= g + 1 {
            assert(b[i] == more[i - g - 1]);
            assert(more.contains(more[i - g - 1]));
        }
    }
    the_first_one_counts(a, '#', remark);
    the_first_one_counts(b, '#', remark);
    let ar = a + seq!['#'] + remark;
    assert(ar.take(a.len() as int) =~= a);
    assert(a.take(a.len() as int) =~= a);
    assert(b.take(b.len() as int) =~= b);
    assert("escape"@ + gap + seq!['^', c] + more + seq!['#'] + remark =~= ar);
}

proof fn lemma_escape(gap: Seq<char>, token: Seq<char>)
    requires
        all_space(gap),
        gap.len() > 0,
        token.len() > 0,
        no_space(token),
    ensures
        ({
            let body = "escape"@ + gap + token;
            &&& first_word_of(body) == "escape"@
            &&& first_word_of(after_first_word(body)) == token
        }),
{
    reveal_strlit("escape");
    let none = Seq::<char>::empty();
    let word = "escape"@;
    let body = word + gap + token;
    assert forall|i: int| 0 <= i < word.len() implies !is_space(#[trigger] word[i]) by {}
    let rest = gap + token;
    assert(rest[0] == gap[0]);
    assert(is_space(gap[0]));
    white_space_parts_words(none, word, rest);
    assert(none + word + rest =~= body);
    assert(body[0] == 'e');
    assert(trim_start_of(body) == body);
    assert(word_len(body) == word.len()) by {
        assert(first_word_of(body) == body.take(word_len(body) as int));
        lemma_word_len(body);
        assert(body.take(word_len(body) as int).len() == word_len(body));
    }
    assert(after_first_word(body) =~= rest);
    white_space_parts_words(gap, token, none);
    assert(gap + token + none =~= rest);
}

/// The first line that sets the key counts.
pub proof fn the_first_escape_line_counts(lines: Seq<Seq<char>>, i: int)
    requires
        0 <= i <= lines.len(),
        forall|k: int| 0 <= k < i ==> escape_line(#[trigger] lines[k]) is None,
        i < lines.len() ==> escape_line(lines[i]) is Some,
    ensures
        i < lines.len() ==> escape_in(lines) == escape_line(lines[i])->0,
        i == lines.len() ==> escape_in(lines) is None,
    decreases lines.len(),
{
    if lines.len() > 0 && i > 0 {
        assert(escape_line(lines[0]) is None);
        let rest = lines.drop_first();
        assert forall|k: int| 0 <= k < i - 1 implies escape_line(#[trigger] rest[k]) is None by {
            assert(rest[k] == lines[k + 1]);
        }
        the_first_escape_line_counts(rest, i - 1);
    }
}

// ---------------------------------------------------------------------------
// Refused names
// ---------------------------------------------------------------------------
/// Each way to be no name has its own message: empty, a dash in front, a character that
/// does not belong there, which is quoted, or too long.
pub proof fn refused_names_are_told_why(name: Seq<char>, lang: Lang, i: int)
    requires
        0 <= i < name.len() ==> forall|k: int| 0 <= k < i ==> !is_bad(#[trigger] name[k]),
    ensures
        ({
            let t = dict_of(lang);
            &&& name.len() == 0 ==> name_error(name, lang) == Some(t.name_empty@)
            &&& name.len() > 0 && name[0] == '-' ==> name_error(name, lang) == Some(
                t.name_leading_dash@,
            )
            &&& 0 <= i < name.len() && name[0] != '-' && is_bad(name[i]) ==> name_error(name, lang)
                == Some(fmt_of(t.name_bad_char@, seq![char_debug(name[i])]))
        }),
{
    if 0 <= i < name.len() && is_bad(name[i]) {
        lemma_first_bad_at(name, i);
    }
}

proof fn lemma_first_bad_at(name: Seq<char>, i: int)
    requires
        0 <= i < name.len(),
        is_bad(name[i]),
        forall|k: int| 0 <= k < i ==> !is_bad(#[trigger] name[k]),
    ensures
        first_bad(name) == Some(name[i]),
    decreases name.len(),
{
    if i > 0 {
        assert(!is_bad(name[0]));
        let rest = name.drop_first();
        assert forall|k: int| 0 <= k < i - 1 implies !is_bad(#[trigger] rest[k]) by {
            assert(rest[k] == name[k + 1]);
        }
        lemma_first_bad_at(rest, i - 1);
    }
}

/// A name is at most this long.
pub proof fn names_have_a_length_limit(name: Seq<char>, lang: Lang)
    requires
        forall|i: int| 0 <= i < name.len() ==> !is_bad(#[trigger] name[i]),
        name.len() > 0,
        name[0] != '-',
    ensures
        name_error(name, lang) is None <==> name.len() <= 80,
{
    accepted_names(name, lang);
}

/// A name is made of the last part of a directory by cleaning it, dropping the dashes and
/// dots in front, and keeping what a name may have; a slash at the end makes no difference.
pub proof fn names_are_made_of_the_last_part(parent: Seq<char>, leaf: Seq<char>)
    requires
        leaf.len() > 0,
        !leaf.contains('/'),
        leaf != "."@,
        leaf != ".."@,
    ensures
        ({
            let made = strip_lead(cleaned(leaf));
            let name = if made.len() == 0 {
                "session"@
            } else if made.len() <= 80 {
                made
            } else {
                made.take(80)
            };
            &&& base_name_of(parent + seq!['/'] + leaf) == name
            &&& base_name_of(parent + seq!['/'] + leaf + seq!['/']) == name
        }),
{
    let s = parent + seq!['/'] + leaf;
    lemma_last_piece(parent, leaf);
    assert(file_name_of(s) == Some(leaf));
    let none = Seq::<char>::empty();
    let t = s + seq!['/'];
    lemma_pieces_push(s, none);
    assert(t + none =~= t);
    let parts = split_of(t, '/');
    assert(parts == split_of(s, '/') + split_of(none, '/'));
    separators_part_texts(none, '/', none);
    assert(parts.last() == none);
    assert(parts.drop_last() =~= split_of(s, '/'));
    assert(file_name_of(t) == Some(leaf));
}

proof fn lemma_pieces_push(s: Seq<char>, rest: Seq<char>)
    ensures
        split_of(s + seq!['/'] + rest, '/') == split_of(s, '/') + split_of(rest, '/'),
    decreases s.len(),
{
    let t = s + seq!['/'] + rest;
    if s.contains('/') {
        lemma_until_char(s, '/');
        let n = until_char(s, '/') as int;
        assert(n < s.len()) by {
            let k = choose|k: int| 0 <= k < s.len() && s[k] == '/';
            assert(s[k] == '/');
        }
        let head = s.take(n);
        let more = s.skip(n + 1);
        assert(!head.contains('/')) by {
            if head.contains('/') {
                let k = choose|k: int| 0 <= k < head.len() && head[k] == '/';
                assert(s[k] == '/');
            }
        }
        assert(t =~= head + seq!['/'] + (more + seq!['/'] + rest));
        assert(s =~= head + seq!['/'] + more);
        separators_part_texts(head, '/', more + seq!['/'] + rest);
        separators_part_texts(head, '/', more);
        lemma_pieces_push(more, rest);
        assert(seq![head] + (split_of(more, '/') + split_of(rest, '/')) =~= (seq![head] + split_of(
            more,
            '/',
        )) + split_of(rest, '/'));
    } else {
        separators_part_texts(s, '/', rest);
    }
}

/// Dashes and dots in front of a name go, all of them, and nothing else does.
pub proof fn leading_dashes_and_dots_go(c: char, rest: Seq<char>)
    ensures
        c == '-' || c == '.' ==> strip_lead(seq![c] + rest) == strip_lead(rest),
        c != '-' && c != '.' ==> strip_lead(seq![c] + rest) == seq![c] + rest,
        strip_lead(Seq::empty()) == Seq::<char>::empty(),
{
    let s = seq![c] + rest;
    assert(s.drop_first() =~= rest);
    assert(s[0] == c);
}

/// Quotes around the keys of an escape line do not belong to them.
pub proof fn escape_keys_may_stand_in_quotes(gap: Seq<char>, c: char, more: Seq<char>)
    requires
        all_space(gap),
        gap.len() > 0,
        !gap.contains('#'),
        !is_space(c),
        c != '#',
        no_space(more),
        !more.contains('#'),
    ensures
        escape_line("escape"@ + gap + seq!['"', '^', c] + more) == Some(
            Some("Ctrl-"@ + seq![upper_char(c)]),
        ),
        'a' <= c && c <= 'z' ==> upper_char(c) as int == c as int - 32,
        c < 'a' || 'z' < c ==> upper_char(c) == c,
{
    reveal_strlit("escape");
    let token = seq!['"', '^', c] + more;
    let a = "escape"@ + gap + token;
    assert("escape"@ + gap + seq!['"', '^', c] + more =~= a);
    lemma_escape(gap, token);
    assert forall|i: int| 0 <= i < a.len() implies a[i] != '#' by {
        let g = 6 + gap.len();
        if 6 <= i < g {
            assert(a[i] == gap[i - 6]);
            assert(gap.contains(gap[i - 6]));
        } else if i >= g + 3 {
            assert(a[i] == more[i - g - 3]);
            assert(more.contains(more[i - g - 3]));
        }
    }
    the_first_one_counts(a, '#', more);
    assert(a.take(a.len() as int) =~= a);
    let inner = seq!['^', c] + more;
    assert(token.drop_first() =~= inner);
    assert(strip_quotes(inner) == inner);
    assert(strip_quotes(token) == inner);
    assert("Ctrl-"@.push(upper_char(c)) =~= "Ctrl-"@ + seq![upper_char(c)]);
}

} // verus!
