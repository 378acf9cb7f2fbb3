//! What is read of the lines that `screen -ls` prints.

use crate::screen::parse::{
    LineView, ListView, SessionView, StatusView, date_like, duplicate_warnings, entries_of,
    entry_of, first_date, groups_from, groups_of, has_structure, is_header, is_sorted,
    is_structure, last_dir, last_state, line_of, line_views, listing_of, record_less, rejected_of,
    skip_warnings, socket_dir_of, sort_records, split_full_of, state_warnings, status_label,
    status_of, strip_commas, summary_dir,
};
use crate::screen::laws::{
    listings_are_in_order, sessions_come_sorted, sorting_keeps_every_session,
};
use crate::text::{
    all_digits, digits_value, find_in, first_word_of, is_digit, is_space, join_of,
    lemma_until_char, lemma_word_len, lines_of, lower, occurs_at, parse_digits, starts_with_text,
    strip_cr, text_less, trim_end_of, trim_of, trim_start_of, until_char, views, word_len,
};
use crate::text_laws::{
    all_space, bare, breaks_end_lines, lemma_found, no_space, separators_stand_between,
    texts_are_found_where_they_stand_first, texts_fall_apart_when_trimmed, the_first_one_counts,
    trimming_takes_off_white_space, white_space_parts_words,
};
use vstd::prelude::*;

verus! {

// ---------------------------------------------------------------------------
// Brackets
// ---------------------------------------------------------------------------
/// Neither an opening nor a closing bracket.
pub open spec fn no_brackets(s: Seq<char>) -> bool {
    !s.contains('(') && !s.contains(')')
}

proof fn lemma_plain_run(text: Seq<char>, i: int, j: int, depth: nat, start: int)
    requires
        0 <= i <= j <= text.len(),
        forall|k: int| i <= k < j ==> #[trigger] text[k] != '(' && text[k] != ')',
    ensures
        groups_from(text, i, depth, start) == groups_from(text, j, depth, start),
    decreases j - i,
{
    if i < j {
        lemma_plain_run(text, i + 1, j, depth, start);
    }
}

proof fn lemma_shift(text: Seq<char>, off: int, i: int, depth: nat, here: int, there: int)
    requires
        0 <= off <= i <= text.len(),
        depth > 0 ==> off <= here <= i && there == here - off,
    ensures
        groups_from(text, i, depth, here) == groups_from(text.skip(off), i - off, depth, there),
    decreases text.len() - i,
{
    let rest = text.skip(off);
    if i < text.len() {
        assert(rest[i - off] == text[i]);
        if text[i] == '(' {
            if depth == 0 {
                lemma_shift(text, off, i + 1, 1, i + 1, i + 1 - off);
            } else {
                lemma_shift(text, off, i + 1, depth + 1, here, there);
            }
        } else if text[i] == ')' && depth > 0 {
            if depth == 1 {
                assert(text.subrange(here, i) =~= rest.subrange(there, i - off));
                lemma_shift(text, off, i + 1, 0, here, there);
            } else {
                lemma_shift(text, off, i + 1, (depth - 1) as nat, here, there);
            }
        } else {
            lemma_shift(text, off, i + 1, depth, here, there);
        }
    }
}

/// What stands in a pair of brackets is a group, in the order in which they come; what
/// stands outside of them is none.
pub proof fn brackets_hold_groups(gap: Seq<char>, group: Seq<char>, rest: Seq<char>)
    requires
        no_brackets(gap),
        no_brackets(group),
    ensures
        groups_of(gap + seq!['('] + group + seq![')'] + rest) == seq![group] + groups_of(rest),
        groups_of(gap) == Seq::<Seq<char>>::empty(),
{
    let text = gap + seq!['('] + group + seq![')'] + rest;
    let a = gap.len() as int;
    let b = a + 1 + group.len();
    assert forall|k: int| 0 <= k < a implies #[trigger] text[k] != '(' && text[k] != ')' by {
        assert(text[k] == gap[k]);
    }
    lemma_plain_run(text, 0, a, 0, 0);
    assert(text[a] == '(');
    assert forall|k: int| a + 1 <= k < b implies #[trigger] text[k] != '(' && text[k] != ')' by {
        assert(text[k] == group[k - a - 1]);
    }
    lemma_plain_run(text, a + 1, b, 1, a + 1);
    assert(text[b] == ')');
    assert(text.subrange(a + 1, b) =~= group);
    lemma_shift(text, b + 1, b + 1, 0, a + 1, 0);
    assert(text.skip(b + 1) =~= rest);
    assert forall|k: int| 0 <= k < gap.len() implies #[trigger] gap[k] != '(' && gap[k] != ')' by {
        assert(gap.contains(gap[k]));
    }
    lemma_plain_run(gap, 0, a, 0, 0);
    assert(groups_of(gap) =~= Seq::<Seq<char>>::empty());
}

// ---------------------------------------------------------------------------
// Lines of detail
// ---------------------------------------------------------------------------
/// The address of a session: its number, a dot and its name.
pub open spec fn address(pid: Seq<char>, name: Seq<char>) -> Seq<char> {
    pid + seq!['.'] + name
}

/// A number that a process can have, in digits.
pub open spec fn is_pid(pid: Seq<char>) -> bool {
    pid.len() > 0 && all_digits(pid) && digits_value(pid) <= i32::MAX
}

/// A name as it stands in a listing.
pub open spec fn is_listed_name(name: Seq<char>) -> bool {
    name.len() > 0 && no_space(name) && !name.contains('(')
}

/// A date as it stands in a listing.
pub open spec fn is_listed_date(date: Seq<char>) -> bool {
    no_brackets(date) && date.contains('/') && exists|i: int|
        0 <= i < date.len() && is_digit(#[trigger] date[i])
}

/// A state as it stands in a listing.
pub open spec fn is_listed_state(state: Seq<char>) -> bool {
    no_brackets(state) && !state.contains('/')
}

/// `<pid>.<name>`, a tab, the date in brackets, a tab, the state in brackets.
pub open spec fn dated_line(
    pid: Seq<char>,
    name: Seq<char>,
    date: Seq<char>,
    state: Seq<char>,
) -> Seq<char> {
    address(pid, name) + seq!['\t', '('] + date + seq![')', '\t', '('] + state + seq![')']
}

/// `<pid>.<name>`, a tab, the state in brackets.
pub open spec fn undated_line(pid: Seq<char>, name: Seq<char>, state: Seq<char>) -> Seq<char> {
    address(pid, name) + seq!['\t', '('] + state + seq![')']
}

/// The session that such a line stands for.
pub open spec fn listed_session(
    pid: Seq<char>,
    name: Seq<char>,
    created: Option<Seq<char>>,
    state: Seq<char>,
) -> SessionView {
    SessionView {
        full: address(pid, name),
        pid: Some(digits_value(pid) as i32),
        name,
        created,
        status: status_of(trim_of(state)),
    }
}

proof fn lemma_address(pid: Seq<char>, name: Seq<char>)
    requires
        is_pid(pid),
        is_listed_name(name),
    ensures
        split_full_of(address(pid, name)) == Some((digits_value(pid), name)),
        no_space(address(pid, name)),
        !address(pid, name).contains('('),
        first_word_of(trim_of(address(pid, name) + seq!['\t'])) == address(pid, name),
{
    let full = address(pid, name);
    assert(!pid.contains('.')) by {
        assert forall|i: int| 0 <= i < pid.len() implies pid[i] != '.' by {
            assert(is_digit(pid[i]));
        }
    }
    the_first_one_counts(pid, '.', name);
    assert(full.take(pid.len() as int) =~= pid);
    assert(full.skip(pid.len() as int + 1) =~= name);
    assert forall|i: int| 0 <= i < full.len() implies !is_space(#[trigger] full[i]) && full[i] != '(' by {
        if i < pid.len() {
            assert(full[i] == pid[i]);
            assert(is_digit(pid[i]));
        } else if i > pid.len() {
            assert(full[i] == name[i - pid.len() - 1]);
            assert(name.contains(name[i - pid.len() - 1]));
        }
    }
    let none = Seq::<char>::empty();
    trimming_takes_off_white_space(none, full, seq!['\t']);
    assert(none + full + seq!['\t'] =~= full + seq!['\t']);
    white_space_parts_words(none, full, none);
    assert(none + full + none =~= full);
}

proof fn lemma_head(pid: Seq<char>, name: Seq<char>, rest: Seq<char>)
    requires
        is_pid(pid),
        is_listed_name(name),
    ensures
        ({
            let line = address(pid, name) + seq!['\t', '('] + rest;
            let open = until_char(line, '(') as int;
            &&& open == address(pid, name).len() + 1
            &&& line.take(open) == address(pid, name) + seq!['\t']
            &&& line.skip(open) == seq!['('] + rest
        }),
{
    let full = address(pid, name);
    let line = full + seq!['\t', '('] + rest;
    let head = full + seq!['\t'];
    lemma_address(pid, name);
    assert forall|i: int| 0 <= i < head.len() implies head[i] != '(' by {
        if i < full.len() {
            assert(head[i] == full[i]);
            assert(full.contains(full[i]));
        }
    }
    assert(line =~= head + seq!['('] + rest);
    the_first_one_counts(head, '(', rest);
    assert(line.take(head.len() as int) =~= head);
    assert(line.skip(head.len() as int) =~= seq!['('] + rest);
}

/// A line with a date and a state is a session with its address, number and name,
/// that date, whatever the state is, and that state.
pub proof fn dated_lines_are_read(
    pid: Seq<char>,
    name: Seq<char>,
    date: Seq<char>,
    state: Seq<char>,
)
    requires
        is_pid(pid),
        is_listed_name(name),
        is_listed_date(date),
        is_listed_state(state),
    ensures
        entry_of(dated_line(pid, name, date, state)) == Some(
            listed_session(pid, name, Some(trim_of(date)), state),
        ),
{
    let rest = date + seq![')', '\t', '('] + state + seq![')'];
    let line = dated_line(pid, name, date, state);
    assert(line =~= address(pid, name) + seq!['\t', '('] + rest);
    lemma_head(pid, name, rest);
    lemma_address(pid, name);
    let none = Seq::<char>::empty();
    let tail = seq!['\t', '('] + state + seq![')'];
    assert(seq!['('] + rest =~= none + seq!['('] + date + seq![')'] + tail);
    brackets_hold_groups(none, date, tail);
    assert(no_brackets(seq!['\t'])) by {
        assert forall|i: int| 0 <= i < seq!['\t'].len() implies seq!['\t'][i] != '(' && seq!['\t'][i]
            != ')' by {}
    }
    assert(tail =~= seq!['\t'] + seq!['('] + state + seq![')'] + none);
    brackets_hold_groups(seq!['\t'], state, none);
    brackets_hold_groups(none, none, none);
    let groups = groups_of(seq!['('] + rest);
    assert(groups =~= seq![date, state]);
    assert(date_like(groups[0]) && !date_like(groups.last()));
    let open = until_char(line, '(') as int;
    assert(open < line.len());
    assert(groups_of(line.skip(open)) == groups);
    assert(first_date(groups) == Some(date));
    assert(last_state(groups) == Some(state));
}

/// A line with a state alone is a session with its address, number and name, that
/// state, and no date.
pub proof fn undated_lines_are_read(pid: Seq<char>, name: Seq<char>, state: Seq<char>)
    requires
        is_pid(pid),
        is_listed_name(name),
        is_listed_state(state),
    ensures
        entry_of(undated_line(pid, name, state)) == Some(listed_session(pid, name, None, state)),
{
    let rest = state + seq![')'];
    let line = undated_line(pid, name, state);
    assert(line =~= address(pid, name) + seq!['\t', '('] + rest);
    lemma_head(pid, name, rest);
    lemma_address(pid, name);
    let none = Seq::<char>::empty();
    assert(seq!['('] + rest =~= none + seq!['('] + state + seq![')'] + none);
    brackets_hold_groups(none, state, none);
    brackets_hold_groups(none, none, none);
    let groups = groups_of(seq!['('] + rest);
    assert(groups =~= seq![state]);
    assert(!date_like(groups[0]));
    assert(groups.drop_first() =~= Seq::<Seq<char>>::empty());
    assert(first_date(groups.drop_first()) is None);
    let open = until_char(line, '(') as int;
    assert(open < line.len());
    assert(groups_of(line.skip(open)) == groups);
    assert(last_state(groups) == Some(state));
}

/// This many commas.
pub open spec fn commas(n: nat) -> Seq<char> {
    Seq::new(n, |i: int| ',')
}

proof fn lemma_commas(word: Seq<char>, n: nat)
    requires
        word.len() > 0,
        word.last() != ',',
    ensures
        strip_commas(word + commas(n)) == word,
    decreases n,
{
    let s = word + commas(n);
    if n == 0 {
        assert(s =~= word);
    } else {
        assert(s.drop_last() =~= word + commas((n - 1) as nat));
        lemma_commas(word, (n - 1) as nat);
    }
}

/// The first word of a state says what it is, in capitals or not, with commas behind
/// it or not, whatever follows; any other state is kept as it is.
pub proof fn state_words_are_read(gap: Seq<char>, word: Seq<char>, n: nat, rest: Seq<char>)
    requires
        all_space(gap),
        word.len() > 0,
        no_space(word),
        word.last() != ',',
        rest.len() > 0 ==> is_space(rest[0]),
    ensures
        ({
            let text = gap + word + commas(n) + rest;
            let s = status_of(text);
            &&& lower(word) == "detached"@ <==> s == StatusView::Detached
            &&& lower(word) == "attached"@ <==> s == StatusView::Attached
            &&& lower(word) == "multi"@ <==> s == StatusView::Multi
            &&& lower(word) == "dead"@ <==> s == StatusView::Dead
            &&& lower(word) == "unreachable"@ <==> s == StatusView::Unreachable
            &&& s is Unknown ==> s == StatusView::Unknown(trim_of(text))
        }),
{
    reveal_strlit("detached");
    reveal_strlit("attached");
    reveal_strlit("multi");
    reveal_strlit("dead");
    reveal_strlit("unreachable");
    let whole = word + commas(n);
    assert forall|i: int| 0 <= i < whole.len() implies !is_space(#[trigger] whole[i]) by {
        if i < word.len() {
            assert(whole[i] == word[i]);
        }
    }
    assert(gap + word + commas(n) + rest =~= gap + whole + rest);
    white_space_parts_words(gap, whole, rest);
    lemma_commas(word, n);
    let text = gap + word + commas(n) + rest;
    assert(first_word_of(text) == whole);
    assert(strip_commas(first_word_of(text)) == word);
    assert("detached"@[0] == 'd' && "attached"@[0] == 'a');
    assert("detached"@ != "attached"@);
    assert("detached"@.len() == 8 && "attached"@.len() == 8 && "multi"@.len() == 5);
    assert("dead"@.len() == 4 && "unreachable"@.len() == 11);
}

// ---------------------------------------------------------------------------
// Other lines
// ---------------------------------------------------------------------------
/// A line of detail, whatever stands in front of it, is the session on it.
pub proof fn detail_lines_are_sessions(
    margin: Seq<char>,
    pid: Seq<char>,
    name: Seq<char>,
    rest: Seq<char>,
)
    requires
        all_space(margin),
        is_pid(pid),
        is_listed_name(name),
        entry_of(address(pid, name) + rest + seq![')']) is Some,
    ensures
        line_of(margin + (address(pid, name) + rest + seq![')'])) == LineView::Entry(
            entry_of(address(pid, name) + rest + seq![')'])->0,
        ),
{
    let body = address(pid, name) + rest + seq![')'];
    let raw = margin + body;
    let none = Seq::<char>::empty();
    assert(raw.last() == ')');
    assert(strip_cr(raw) == raw);
    assert(body[0] == pid[0] && is_digit(pid[0]));
    assert(body.last() == ')');
    trimming_takes_off_white_space(margin, body, none);
    assert(margin + body + none =~= raw);
    assert(body + none =~= body);
    reveal_strlit("There is a screen on");
    reveal_strlit("There are screens on");
    reveal_strlit("No Sockets found");
    reveal_strlit("Socket");
    assert(!starts_with_text(body, "There is a screen on"@)) by {
        if starts_with_text(body, "There is a screen on"@) {
            assert(body.subrange(0, "There is a screen on"@.len() as int)[0] == body[0]);
        }
    }
    assert(!starts_with_text(body, "There are screens on"@)) by {
        if starts_with_text(body, "There are screens on"@) {
            assert(body.subrange(0, "There are screens on"@.len() as int)[0] == body[0]);
        }
    }
    assert(!starts_with_text(body, "No Sockets found"@)) by {
        if starts_with_text(body, "No Sockets found"@) {
            assert(body.subrange(0, "No Sockets found"@.len() as int)[0] == body[0]);
        }
    }
    if let Some(i) = find_in(body, "Socket"@) {
        lemma_found(body, "Socket"@, 0);
        assert(body.subrange(i, i + "Socket"@.len())[0] == body[i]);
        assert(body[i] == 'S');
        let dot = pid.len() as int;
        assert(body[dot] == '.');
        if i <= dot {
            if i < dot {
                assert(body[i] == pid[i]);
                assert(is_digit(pid[i]));
            }
            assert(false);
        }
        let head = body.take(i);
        let cut = texts_fall_apart_when_trimmed(head);
        assert(head[dot] == '.');
        if dot < cut.0 {
            assert(head.take(cut.0)[dot] == '.');
        }
        if dot >= cut.1 {
            assert(head.skip(cut.1)[dot - cut.1] == '.');
        }
        let t = trim_of(head);
        assert(t[dot - cut.0] == '.');
        assert(!is_digit(t[dot - cut.0]));
    }
}

/// What introduces a list is no session and is not complained about.
pub proof fn headings_are_recognised(rest: Seq<char>)
    requires
        rest.len() == 0 || rest.last() != '\r',
    ensures
        line_of("There is a screen on"@ + rest) == LineView::Header,
        line_of("There are screens on"@ + rest) == LineView::Header,
{
    reveal_strlit("There is a screen on");
    reveal_strlit("There are screens on");
    let a = "There is a screen on"@;
    let b = "There are screens on"@;
    let none = Seq::<char>::empty();
    lemma_first_stays(a + rest);
    lemma_first_stays(b + rest);
    assert((a + rest).subrange(0, a.len() as int) =~= a);
    assert((b + rest).subrange(0, b.len() as int) =~= b);
}

proof fn lemma_first_stays(s: Seq<char>)
    requires
        s.len() > 0,
        !is_space(s[0]),
    ensures
        trim_start_of(s) == s,
        trim_of(s).len() > 0,
{
    texts_fall_apart_when_trimmed(s);
}

/// A directory as it stands in the last line of a listing.
pub open spec fn is_listed_dir(dir: Seq<char>) -> bool {
    dir.len() > 0 && bare(dir)
}

proof fn lemma_dir(lead: Seq<char>, dir: Seq<char>)
    requires
        is_listed_dir(dir),
        !lead.contains(' '),
    ensures
        socket_dir_of(lead + " in "@ + dir + seq!['.']) == Some(dir),
{
    reveal_strlit(" in ");
    let mid = " in "@;
    let s = lead + mid + dir + seq!['.'];
    let n = lead.len() as int;
    assert(s.subrange(n, n + mid.len()) =~= mid);
    assert forall|k: int| 0 <= k < n implies !occurs_at(s, mid, k) by {
        if occurs_at(s, mid, k) {
            assert(s.subrange(k, k + mid.len())[0] == s[k]);
            assert(s[k] == lead[k]);
            assert(lead.contains(' '));
        }
    }
    texts_are_found_where_they_stand_first(s, mid);
    assert(occurs_at(s, mid, n));
    assert(find_in(s, mid) == Some(n));
    let rest = s.skip(n + mid.len());
    assert(rest =~= dir + seq!['.']);
    let none = Seq::<char>::empty();
    trimming_takes_off_white_space(none, rest, none);
    assert(none + rest + none =~= rest);
    assert(rest[0] == dir[0]);
    assert(trim_of(rest) == rest);
    assert(rest.drop_last() =~= dir);
    trimming_takes_off_white_space(none, dir, none);
    assert(none + dir + none =~= dir);
}

/// The last line says where the sockets are, whether there are any or not.
pub proof fn last_lines_say_where_the_sockets_are(count: Seq<char>, dir: Seq<char>)
    requires
        count.len() > 0,
        all_digits(count),
        is_listed_dir(dir),
    ensures
        line_of(count + " Socket in "@ + dir + seq!['.']) == LineView::Summary(dir),
        line_of(count + " Sockets in "@ + dir + seq!['.']) == LineView::Summary(dir),
        line_of("No Sockets found in "@ + dir + seq!['.']) == LineView::Summary(dir),
{
    reveal_strlit(" Socket in ");
    reveal_strlit(" Sockets in ");
    reveal_strlit("No Sockets found in ");
    reveal_strlit("No Sockets found");
    reveal_strlit("Socket");
    reveal_strlit("Sockets");
    reveal_strlit(" in ");
    let none = Seq::<char>::empty();
    assert(is_digit(count[0]));
    let a = count + " Socket in "@ + dir + seq!['.'];
    let b = count + " Sockets in "@ + dir + seq!['.'];
    let c = "No Sockets found in "@ + dir + seq!['.'];
    assert(a =~= count + seq![' '] + "Socket"@ + (" in "@ + dir + seq!['.']));
    lemma_counted(count, "Socket"@, " in "@ + dir + seq!['.']);
    assert("Socket"@ + (" in "@ + dir + seq!['.']) =~= "Socket"@ + " in "@ + dir + seq!['.']);
    assert("Sockets"@ =~= "Socket"@ + seq!['s']);
    assert(b =~= count + seq![' '] + "Socket"@ + (seq!['s'] + " in "@ + dir + seq!['.']));
    lemma_counted(count, "Socket"@, seq!['s'] + " in "@ + dir + seq!['.']);
    assert("Socket"@ + (seq!['s'] + " in "@ + dir + seq!['.']) =~= "Sockets"@ + " in "@ + dir
        + seq!['.']);
    assert(!"Socket"@.contains(' ')) by {
        assert forall|i: int| 0 <= i < "Socket"@.len() implies "Socket"@[i] != ' ' by {}
    }
    assert(!"Sockets"@.contains(' ')) by {
        assert forall|i: int| 0 <= i < "Sockets"@.len() implies "Sockets"@[i] != ' ' by {}
    }
    lemma_dir("Socket"@, dir);
    lemma_dir("Sockets"@, dir);
    lemma_dir(none, dir);
    lemma_first_stays(a);
    lemma_first_stays(b);
    lemma_first_stays(c);
    assert(a.last() == '.' && b.last() == '.' && c.last() == '.');
    let found = "No Sockets found"@;
    assert(c.subrange(0, found.len() as int) =~= found);
    assert(c.skip(found.len() as int) =~= none + " in "@ + dir + seq!['.']);
    lemma_no_heading(a);
    lemma_no_heading(b);
    lemma_no_heading(c);
    assert(strip_cr(a) == a && strip_cr(b) == b && strip_cr(c) == c);
    assert(summary_dir(a) == Some(dir));
    assert(summary_dir(b) == Some(dir));
    assert(summary_dir(c) == Some(dir));
}

proof fn lemma_no_heading(s: Seq<char>)
    requires
        s.len() > 0,
        s[0] != 'T',
    ensures
        !is_header(s),
{
    reveal_strlit("There is a screen on");
    reveal_strlit("There are screens on");
    if starts_with_text(s, "There is a screen on"@) {
        assert(s.subrange(0, "There is a screen on"@.len() as int)[0] == s[0]);
    }
    if starts_with_text(s, "There are screens on"@) {
        assert(s.subrange(0, "There are screens on"@.len() as int)[0] == s[0]);
    }
}

proof fn lemma_counted(count: Seq<char>, word: Seq<char>, rest: Seq<char>)
    requires
        count.len() > 0,
        all_digits(count),
        word == "Socket"@,
    ensures
        ({
            let s = count + seq![' '] + word + rest;
            &&& find_in(s, "Socket"@) == Some(count.len() as int + 1)
            &&& parse_digits(trim_of(s.take(count.len() as int + 1))) is Some
            &&& s.skip(count.len() as int + 1) == word + rest
            &&& !starts_with_text(s, "No Sockets found"@)
        }),
{
    reveal_strlit("Socket");
    reveal_strlit("No Sockets found");
    let s = count + seq![' '] + word + rest;
    let n = count.len() as int + 1;
    assert(is_digit(count[0]));
    assert(s.subrange(n, n + word.len()) =~= word);
    assert forall|k: int| 0 <= k < n implies !occurs_at(s, word, k) by {
        if occurs_at(s, word, k) {
            assert(s.subrange(k, k + word.len())[0] == s[k]);
            if k < count.len() {
                assert(s[k] == count[k]);
                assert(is_digit(count[k]));
            }
        }
    }
    texts_are_found_where_they_stand_first(s, word);
    assert(occurs_at(s, word, n));
    assert(s.take(n) =~= Seq::<char>::empty() + count + seq![' ']);
    assert(is_digit(count.last()));
    trimming_takes_off_white_space(Seq::empty(), count, seq![' ']);
    assert(s.skip(n) =~= word + rest);
    if starts_with_text(s, "No Sockets found"@) {
        assert(s.subrange(0, "No Sockets found"@.len() as int)[0] == s[0]);
    }
}

// ---------------------------------------------------------------------------
// Whole listings
// ---------------------------------------------------------------------------
/// What a line of detail says.
pub struct Detail {
    pub pid: Seq<char>,
    pub name: Seq<char>,
    pub date: Option<Seq<char>>,
    pub state: Seq<char>,
}

pub open spec fn is_detail(d: Detail) -> bool {
    &&& is_pid(d.pid) && is_listed_name(d.name)
    &&& is_listed_state(d.state) && !d.state.contains('\n')
    &&& d.date matches Some(date) ==> is_listed_date(date) && !date.contains('\n')
}

pub open spec fn detail_line(d: Detail) -> Seq<char> {
    match d.date {
        Some(date) => dated_line(d.pid, d.name, date, d.state),
        None => undated_line(d.pid, d.name, d.state),
    }
}

/// The session on a line of detail.
pub open spec fn detail_session(d: Detail) -> SessionView {
    listed_session(
        d.pid,
        d.name,
        match d.date {
            Some(date) => Some(trim_of(date)),
            None => None,
        },
        d.state,
    )
}

pub open spec fn detail_sessions(details: Seq<Detail>) -> Seq<SessionView> {
    details.map_values(|d: Detail| detail_session(d))
}

/// The lines of detail, each behind a tab and in front of a line break.
pub open spec fn detail_text(details: Seq<Detail>) -> Seq<char>
    decreases details.len(),
{
    if details.len() == 0 {
        Seq::empty()
    } else {
        seq!['\t'] + detail_line(details[0]) + seq!['\n'] + detail_text(details.drop_first())
    }
}

proof fn lemma_detail(d: Detail)
    requires
        is_detail(d),
    ensures
        line_of(seq!['\t'] + detail_line(d)) == LineView::Entry(detail_session(d)),
        !(seq!['\t'] + detail_line(d)).contains('\n'),
        detail_line(d).len() > 0,
        detail_line(d).last() == ')',
{
    let full = address(d.pid, d.name);
    lemma_address(d.pid, d.name);
    assert forall|i: int| 0 <= i < full.len() implies full[i] != '\n' by {
        assert(!is_space(full[i]));
    }
    let line = detail_line(d);
    match d.date {
        Some(date) => {
            let rest = seq!['\t', '('] + date + seq![')', '\t', '('] + d.state;
            assert(line =~= full + rest + seq![')']);
            dated_lines_are_read(d.pid, d.name, date, d.state);
            detail_lines_are_sessions(seq!['\t'], d.pid, d.name, rest);
            assert forall|i: int| 0 <= i < rest.len() implies rest[i] != '\n' by {
                if 2 <= i < 2 + date.len() {
                    assert(rest[i] == date[i - 2]);
                    assert(date.contains(date[i - 2]));
                } else if i >= 5 + date.len() {
                    assert(rest[i] == d.state[i - 5 - date.len()]);
                    assert(d.state.contains(d.state[i - 5 - date.len()]));
                }
            }
            let all = seq!['\t'] + line;
            assert forall|i: int| 0 <= i < all.len() implies all[i] != '\n' by {
                if 1 <= i <= full.len() {
                    assert(all[i] == full[i - 1]);
                } else if full.len() < i <= full.len() + rest.len() {
                    assert(all[i] == rest[i - 1 - full.len()]);
                }
            }
        },
        None => {
            let rest = seq!['\t', '('] + d.state;
            assert(line =~= full + rest + seq![')']);
            undated_lines_are_read(d.pid, d.name, d.state);
            detail_lines_are_sessions(seq!['\t'], d.pid, d.name, rest);
            assert forall|i: int| 0 <= i < rest.len() implies rest[i] != '\n' by {
                if i >= 2 {
                    assert(rest[i] == d.state[i - 2]);
                    assert(d.state.contains(d.state[i - 2]));
                }
            }
            let all = seq!['\t'] + line;
            assert forall|i: int| 0 <= i < all.len() implies all[i] != '\n' by {
                if 1 <= i <= full.len() {
                    assert(all[i] == full[i - 1]);
                } else if full.len() < i <= full.len() + rest.len() {
                    assert(all[i] == rest[i - 1 - full.len()]);
                }
            }
        },
    }
}

proof fn lemma_detail_text(details: Seq<Detail>, rest: Seq<char>)
    requires
        forall|i: int| 0 <= i < details.len() ==> is_detail(#[trigger] details[i]),
    ensures
        line_views(lines_of(detail_text(details) + rest)) == detail_sessions(details).map_values(
            |s: SessionView| LineView::Entry(s),
        ) + line_views(lines_of(rest)),
    decreases details.len(),
{
    let entry = |s: SessionView| LineView::Entry(s);
    if details.len() == 0 {
        assert(detail_text(details) + rest =~= rest);
        assert(detail_sessions(details).map_values(entry) + line_views(lines_of(rest)) =~= line_views(
            lines_of(rest),
        ));
    } else {
        let more = details.drop_first();
        assert forall|i: int| 0 <= i < more.len() implies is_detail(#[trigger] more[i]) by {
            assert(more[i] == details[i + 1]);
        }
        lemma_detail_text(more, rest);
        let line = seq!['\t'] + detail_line(details[0]);
        lemma_detail(details[0]);
        let tail = detail_text(more) + rest;
        assert(detail_text(details) + rest =~= line + seq!['\n'] + tail);
        breaks_end_lines(line, tail);
        assert(line_views(seq![line] + lines_of(tail)) =~= seq![line_of(line)] + line_views(
            lines_of(tail),
        ));
        assert(detail_sessions(details) =~= seq![detail_session(details[0])] + detail_sessions(more));
        assert(detail_sessions(details).map_values(entry) =~= seq![
            LineView::Entry(detail_session(details[0])),
        ] + detail_sessions(more).map_values(entry));
        assert(detail_sessions(details).map_values(entry) + line_views(lines_of(rest)) =~= seq![
            LineView::Entry(detail_session(details[0])),
        ] + (detail_sessions(more).map_values(entry) + line_views(lines_of(rest))));
    }
}

proof fn lemma_framed(head: LineView, sessions: Seq<SessionView>, last: LineView)
    requires
        head is Header,
        last is Summary,
    ensures
        ({
            let lines = seq![head] + (sessions.map_values(|s: SessionView| LineView::Entry(s))
                + seq![last]);
            &&& entries_of(lines) == sessions
            &&& rejected_of(lines) == Seq::<Seq<char>>::empty()
            &&& last_dir(lines) == Some(last->Summary_0)
            &&& has_structure(lines)
        }),
{
    let entry = |s: SessionView| LineView::Entry(s);
    let body = sessions.map_values(entry);
    let lines = seq![head] + (body + seq![last]);
    assert(lines.drop_last() =~= seq![head] + body);
    assert(lines.last() == last);
    lemma_entries(head, sessions);
    assert(is_structure(lines[0]));
}

proof fn lemma_entries(head: LineView, sessions: Seq<SessionView>)
    requires
        head is Header,
    ensures
        ({
            let lines = seq![head] + sessions.map_values(|s: SessionView| LineView::Entry(s));
            &&& entries_of(lines) == sessions
            &&& rejected_of(lines) == Seq::<Seq<char>>::empty()
        }),
    decreases sessions.len(),
{
    let entry = |s: SessionView| LineView::Entry(s);
    let lines = seq![head] + sessions.map_values(entry);
    if sessions.len() == 0 {
        assert(lines =~= seq![head]);
        assert(lines.drop_last() =~= Seq::<LineView>::empty());
        assert(lines.last() == head);
        assert(entries_of(lines.drop_last()) =~= Seq::<SessionView>::empty());
        assert(rejected_of(lines.drop_last()) =~= Seq::<Seq<char>>::empty());
        assert(entries_of(lines) =~= sessions);
    } else {
        lemma_entries(head, sessions.drop_last());
        assert(lines.drop_last() =~= seq![head] + sessions.drop_last().map_values(entry));
        assert(lines.last() == LineView::Entry(sessions.last()));
        assert(sessions.drop_last().push(sessions.last()) =~= sessions);
    }
}

/// A whole listing is read for what it says: every line of detail gives its session
/// and nothing else does, the socket directory comes from the last line, and the only
/// things that are remarked on are unknown states and names that occur twice.
pub proof fn listings_are_read(
    head: Seq<char>,
    details: Seq<Detail>,
    count: Seq<char>,
    dir: Seq<char>,
)
    requires
        !head.contains('\n'),
        head.len() == 0 || head.last() != '\r',
        forall|i: int| 0 <= i < details.len() ==> is_detail(#[trigger] details[i]),
        count.len() > 0,
        all_digits(count),
        is_listed_dir(dir),
        !dir.contains('\n'),
    ensures
        ({
            let text = "There are screens on"@ + head + seq!['\n'] + detail_text(details) + count
                + " Sockets in "@ + dir + seq!['.', '\n'];
            &&& listing_of(text) matches Ok(list) && {
                &&& list.sessions.to_multiset() == detail_sessions(details).to_multiset()
                &&& list.sessions.len() == details.len()
                &&& is_sorted(list.sessions)
                &&& list.socket_dir == Some(dir)
                &&& list.warnings == state_warnings(detail_sessions(details)) + duplicate_warnings(
                    list.duplicates,
                )
            }
        }),
{
    reveal_strlit("There are screens on");
    reveal_strlit(" Sockets in ");
    let none = Seq::<char>::empty();
    let first = "There are screens on"@ + head;
    let last = count + " Sockets in "@ + dir + seq!['.'];
    let end = last + seq!['\n'] + none;
    let text = first + seq!['\n'] + detail_text(details) + count + " Sockets in "@ + dir + seq![
        '.',
        '\n',
    ];
    assert(text =~= first + seq!['\n'] + (detail_text(details) + end));
    assert forall|i: int| 0 <= i < first.len() implies first[i] != '\n' by {
        if i >= "There are screens on"@.len() {
            assert(head.contains(first[i]));
        }
    }
    assert forall|i: int| 0 <= i < last.len() implies last[i] != '\n' by {
        let a = count.len() as int;
        let b = a + " Sockets in "@.len();
        if i < a {
            assert(is_digit(count[i]) && last[i] == count[i]);
        } else if b <= i < b + dir.len() {
            assert(dir.contains(last[i])) by {
                assert(dir[i - b] == last[i]);
            }
        }
    }
    assert(first.last() != '\r') by {
        if head.len() > 0 {
            assert(first.last() == head.last());
        }
    }
    breaks_end_lines(first, detail_text(details) + end);
    breaks_end_lines(last, none);
    lemma_detail_text(details, end);
    headings_are_recognised(head);
    last_lines_say_where_the_sockets_are(count, dir);
    assert(last.last() == '.');
    let sessions = detail_sessions(details);
    let entry = |s: SessionView| LineView::Entry(s);
    assert(seq![last] + lines_of(none) =~= seq![last]);
    assert(line_views(lines_of(end)) =~= seq![LineView::Summary(dir)]);
    let views = line_views(lines_of(text));
    assert(views =~= seq![LineView::Header] + line_views(lines_of(detail_text(details) + end)));
    assert(views =~= seq![LineView::Header] + (sessions.map_values(entry) + seq![
        LineView::Summary(dir),
    ]));
    lemma_framed(LineView::Header, sessions, LineView::Summary(dir));
    sessions_come_sorted(sessions);
    sorting_keeps_every_session(sessions);
    let list = listing_of(text)->Ok_0;
    assert(skip_warnings(Seq::<Seq<char>>::empty()) =~= Seq::<Seq<char>>::empty());
    assert(list.warnings =~= state_warnings(sessions) + duplicate_warnings(list.duplicates));
}

proof fn lemma_entry_kept(lines: Seq<LineView>, i: int)
    requires
        0 <= i < lines.len(),
    ensures
        lines[i] matches LineView::Entry(r) ==> entries_of(lines).contains(r),
        lines[i] matches LineView::Rejected(t) ==> rejected_of(lines).contains(t),
    decreases lines.len(),
{
    let front = lines.drop_last();
    if i < front.len() {
        lemma_entry_kept(front, i);
        assert(front[i] == lines[i]);
        if let LineView::Entry(r) = lines[i] {
            let k = choose|k: int| 0 <= k < entries_of(front).len() && entries_of(front)[k] == r;
            assert(entries_of(lines)[k] == r);
        }
        if let LineView::Rejected(t) = lines[i] {
            let k = choose|k: int| 0 <= k < rejected_of(front).len() && rejected_of(front)[k] == t;
            assert(rejected_of(lines)[k] == t);
        }
    } else {
        if let LineView::Entry(r) = lines[i] {
            assert(entries_of(lines)[entries_of(front).len() as int] == r);
        }
        if let LineView::Rejected(t) = lines[i] {
            assert(rejected_of(lines)[rejected_of(front).len() as int] == t);
        }
    }
}

proof fn lemma_rejected_none(lines: Seq<LineView>)
    requires
        forall|i: int| 0 <= i < lines.len() ==> !((#[trigger] lines[i]) is Rejected),
    ensures
        rejected_of(lines).len() == 0,
    decreases lines.len(),
{
    if lines.len() > 0 {
        let front = lines.drop_last();
        assert forall|i: int| 0 <= i < front.len() implies !((#[trigger] front[i]) is Rejected) by {
            assert(front[i] == lines[i]);
        }
        lemma_rejected_none(front);
    }
}

proof fn lemma_state_warning(records: Seq<SessionView>, i: int)
    requires
        0 <= i < records.len(),
    ensures
        records[i].status matches StatusView::Unknown(raw) ==> state_warnings(records).contains(
            "unknown state `"@ + raw + "` on "@ + records[i].full + "; showing it as-is"@,
        ),
    decreases records.len(),
{
    let front = records.drop_last();
    let w = state_warnings(records);
    if let StatusView::Unknown(raw) = records[i].status {
        let text = "unknown state `"@ + raw + "` on "@ + records[i].full + "; showing it as-is"@;
        if i < front.len() {
            lemma_state_warning(front, i);
            assert(front[i] == records[i]);
            let v = state_warnings(front);
            let k = choose|k: int| 0 <= k < v.len() && v[k] == text;
            assert(w[k] == text);
        } else {
            assert(w.last() == text);
        }
    }
}

/// Where nothing is recognised in a text that holds something, that is an error and no
/// empty list; a listing with a heading, a last line or a session is never one. A line that is not
/// understood is reported, so is a state that is not known, and so is a name that
/// occurs twice; where there is none of these, there is nothing to report.
pub proof fn oddities_are_reported(text: Seq<char>)
    ensures
        ({
            let lines = lines_of(text);
            let some_structure = exists|i: int|
                0 <= i < lines.len() && is_structure(line_of(#[trigger] lines[i]));
            let some_rejected = exists|i: int|
                0 <= i < lines.len() && line_of(#[trigger] lines[i]) is Rejected;
            &&& listing_of(text) is Err <==> some_rejected && !some_structure
            &&& listing_of(text) matches Ok(list) ==> {
                &&& forall|i: int|
                    0 <= i < lines.len() ==> (line_of(#[trigger] lines[i]) matches LineView::Rejected(
                        what,
                    ) ==> list.warnings.contains("skipped unrecognized line: "@ + what))
                &&& forall|i: int|
                    0 <= i < lines.len() ==> (line_of(#[trigger] lines[i]) matches LineView::Entry(
                        s,
                    ) ==> list.sessions.contains(s) && (s.status matches StatusView::Unknown(raw)
                        ==> list.warnings.contains(
                        "unknown state `"@ + raw + "` on "@ + s.full + "; showing it as-is"@,
                    )))
                &&& forall|i: int|
                    0 <= i < list.duplicates.len() ==> list.warnings.contains(
                        "duplicate session name `"@ + (#[trigger] list.duplicates[i])
                            + "`; address it by `<pid>.<name>`"@,
                    )
                &&& !some_rejected && list.duplicates.len() == 0 && (forall|i: int|
                    0 <= i < list.sessions.len() ==> !((
                    #[trigger] list.sessions[i]).status is Unknown)) ==> list.warnings.len() == 0
            }
        }),
{
    let lines = lines_of(text);
    let views = line_views(lines);
    let some_structure = exists|i: int|
        0 <= i < lines.len() && is_structure(line_of(#[trigger] lines[i]));
    let some_rejected = exists|i: int|
        0 <= i < lines.len() && line_of(#[trigger] lines[i]) is Rejected;
    assert(has_structure(views) == some_structure) by {
        if some_structure {
            let i = choose|i: int|
                0 <= i < lines.len() && is_structure(line_of(#[trigger] lines[i]));
            assert(views[i] == line_of(lines[i]));
        }
        if has_structure(views) {
            let i = choose|i: int| 0 <= i < views.len() && is_structure(#[trigger] views[i]);
            assert(views[i] == line_of(lines[i]));
        }
    }
    assert(rejected_of(views).len() > 0 <==> some_rejected) by {
        if some_rejected {
            let i = choose|i: int| 0 <= i < lines.len() && line_of(#[trigger] lines[i]) is Rejected;
            assert(views[i] == line_of(lines[i]));
            lemma_entry_kept(views, i);
        } else {
            assert forall|i: int| 0 <= i < views.len() implies !((
            #[trigger] views[i]) is Rejected) by {
                assert(views[i] == line_of(lines[i]));
            }
            lemma_rejected_none(views);
        }
    }
    let entries = entries_of(views);
    let rejected = rejected_of(views);
    if let Ok(list) = listing_of(text) {
        let states = state_warnings(entries);
        let skips = skip_warnings(rejected);
        let dups = duplicate_warnings(list.duplicates);
        assert(list.warnings == states + skips + dups);
        sorting_keeps_every_session(entries);
        assert forall|i: int| 0 <= i < lines.len() implies (line_of(
            #[trigger] lines[i],
        ) matches LineView::Rejected(what) ==> list.warnings.contains(
            "skipped unrecognized line: "@ + what,
        )) by {
            assert(views[i] == line_of(lines[i]));
            lemma_entry_kept(views, i);
            if let LineView::Rejected(what) = line_of(lines[i]) {
                let k = choose|k: int| 0 <= k < rejected.len() && rejected[k] == what;
                assert(list.warnings[states.len() + k] == skips[k]);
            }
        }
        assert forall|i: int| 0 <= i < lines.len() implies (line_of(
            #[trigger] lines[i],
        ) matches LineView::Entry(s) ==> list.sessions.contains(s) && (
        s.status matches StatusView::Unknown(raw) ==> list.warnings.contains(
            "unknown state `"@ + raw + "` on "@ + s.full + "; showing it as-is"@,
        ))) by {
            assert(views[i] == line_of(lines[i]));
            lemma_entry_kept(views, i);
            if let LineView::Entry(s) = line_of(lines[i]) {
                let k = choose|k: int| 0 <= k < entries.len() && entries[k] == s;
                lemma_sorted_holds(entries, s);
                lemma_state_warning(entries, k);
                if let StatusView::Unknown(raw) = s.status {
                    let what = "unknown state `"@ + raw + "` on "@ + s.full + "; showing it as-is"@;
                    let j = choose|j: int| 0 <= j < states.len() && states[j] == what;
                    assert(list.warnings[j] == what);
                }
            }
        }
        assert forall|i: int| 0 <= i < list.duplicates.len() implies list.warnings.contains(
            "duplicate session name `"@ + (#[trigger] list.duplicates[i])
                + "`; address it by `<pid>.<name>`"@,
        ) by {
            assert(list.warnings[states.len() + skips.len() + i] == dups[i]);
        }
        if !some_rejected && list.duplicates.len() == 0 && (forall|i: int|
            0 <= i < list.sessions.len() ==> !((#[trigger] list.sessions[i]).status is Unknown)) {
            assert forall|i: int| 0 <= i < entries.len() implies !((
            #[trigger] entries[i]).status is Unknown) by {
                assert(entries.contains(entries[i]));
                lemma_sorted_holds(entries, entries[i]);
                let k = choose|k: int| 0 <= k < list.sessions.len() && list.sessions[k] == entries[i];
                assert(!(list.sessions[k].status is Unknown));
            }
            lemma_known_states(entries);
        }
    }
}

proof fn lemma_sorted_holds(records: Seq<SessionView>, s: SessionView)
    requires
        records.contains(s),
    ensures
        sort_records(records).contains(s),
{
    sorting_keeps_every_session(records);
    records.to_multiset_ensures();
    sort_records(records).to_multiset_ensures();
    assert(records.to_multiset().count(s) > 0);
}

proof fn lemma_known_states(records: Seq<SessionView>)
    requires
        forall|i: int| 0 <= i < records.len() ==> !((#[trigger] records[i]).status is Unknown),
    ensures
        state_warnings(records).len() == 0,
    decreases records.len(),
{
    if records.len() > 0 {
        let front = records.drop_last();
        assert forall|i: int| 0 <= i < front.len() implies !((
        #[trigger] front[i]).status is Unknown) by {
            assert(front[i] == records[i]);
        }
        lemma_known_states(front);
    }
}

// ---------------------------------------------------------------------------
// Order and words
// ---------------------------------------------------------------------------
/// A state is shown as the word that it was read from, in small letters.
pub proof fn states_are_shown_as_they_were_read(word: Seq<char>, n: nat)
    requires
        word.len() > 0,
        no_space(word),
        word.last() != ',',
        !(status_of(word + commas(n)) is Unknown),
    ensures
        status_label(status_of(word + commas(n))) == lower(word),
{
    let none = Seq::<char>::empty();
    state_words_are_read(none, word, n, none);
    assert(none + word + commas(n) + none =~= word + commas(n));
}

/// A list is in the order of the names, and of the addresses where names are the same.
pub proof fn lists_are_in_the_order_of_names(text: Seq<char>, i: int, j: int)
    requires
        listing_of(text) is Ok,
        0 <= i < j < listing_of(text)->Ok_0.sessions.len(),
    ensures
        ({
            let a = listing_of(text)->Ok_0.sessions[i];
            let b = listing_of(text)->Ok_0.sessions[j];
            &&& !text_less(b.name, a.name)
            &&& a.name == b.name ==> !text_less(b.full, a.full)
        }),
{
    listings_are_in_order(text);
    let s = listing_of(text)->Ok_0.sessions;
    assert(!record_less(s[j], s[i]));
}

/// A line that is no heading, names no sockets and has no bracket in it is not understood,
/// and sixty characters of it are kept.
pub proof fn other_lines_are_not_understood(line: Seq<char>)
    requires
        line.len() > 0,
        !is_space(line[0]),
        line.last() != '\r',
        !line.contains('('),
        line[0] != 'T',
        forall|i: int| !(#[trigger] occurs_at(line, "Socket"@, i)),
    ensures
        line.len() <= 60 ==> line_of(line) == LineView::Rejected(line),
        line.len() > 60 ==> line_of(line) == LineView::Rejected(line.take(60) + seq!['…']),
        line_of(Seq::empty()) == LineView::Blank,
{
    reveal_strlit("Socket");
    reveal_strlit("No Sockets found");
    lemma_first_stays(line);
    lemma_no_heading(line);
    texts_are_found_where_they_stand_first(line, "Socket"@);
    let none = "No Sockets found"@;
    if starts_with_text(line, none) {
        assert(line.subrange(0, none.len() as int) == none);
        assert forall|k: int| 0 <= k < 6 implies line[3 + k] == "Socket"@[k] by {
            assert(line.subrange(0, none.len() as int)[3 + k] == line[3 + k]);
        }
        assert(line.subrange(3, 9) =~= "Socket"@);
        assert(occurs_at(line, "Socket"@, 3));
    }
    lemma_until_char(line, '(');
    let n = until_char(line, '(') as int;
    if n < line.len() {
        assert(line[n] == '(');
    }
    assert(line.len() > 60 ==> line.take(60).push('…') =~= line.take(60) + seq!['…']);
    let empty = Seq::<char>::empty();
    assert(trim_start_of(empty) =~= empty);
    assert(trim_end_of(empty) =~= empty);
    assert(strip_cr(empty) == empty);
}

/// A line with brackets whose first word is no number, a dot and a name is no session.
pub proof fn sessions_need_an_address(line: Seq<char>, c: char)
    requires
        line.len() > 0,
        line[0] == c,
        !is_space(c),
        !is_digit(c),
    ensures
        entry_of(line) is None,
{
    let open = until_char(line, '(') as int;
    lemma_until_char(line, '(');
    if open < line.len() {
        if open == 0 {
            let none = Seq::<char>::empty();
            assert(line.take(0) =~= none);
            assert(trim_start_of(none) =~= none);
            assert(trim_end_of(none) =~= none);
            assert(word_len(none) == 0);
            assert(first_word_of(none) =~= none);
            assert(until_char(none, '.') == 0);
            assert(split_full_of(none) is None);
        } else {
            let head = line.take(open);
            let r = texts_fall_apart_when_trimmed(head);
            assert(r.0 == 0) by {
                if r.0 > 0 {
                    assert(is_space(head.take(r.0)[0]));
                    assert(head.take(r.0)[0] == c);
                }
            }
            assert(r.1 > 0) by {
                if r.1 == 0 {
                    assert(is_space(head.skip(0)[0]));
                    assert(head.skip(0)[0] == c);
                }
            }
            let t = trim_of(head);
            assert(t[0] == c);
            let full = first_word_of(t);
            assert(trim_start_of(t) == t);
            lemma_word_len(t);
            if full.len() > 0 {
                assert(full[0] == c);
                let dot = until_char(full, '.') as int;
                lemma_until_char(full, '.');
                if dot < full.len() && dot > 0 {
                    assert(full.take(dot)[0] == c);
                    assert(parse_digits(full.take(dot)) is None);
                } else if dot == 0 {
                    assert(full.take(0).len() == 0);
                }
            }
        }
    }
}

/// Brackets inside of brackets belong to the group around them.
pub proof fn inner_brackets_belong_to_the_group(
    a: Seq<char>,
    b: Seq<char>,
    c: Seq<char>,
    rest: Seq<char>,
)
    requires
        no_brackets(a),
        no_brackets(b),
        no_brackets(c),
    ensures
        groups_of(seq!['('] + a + seq!['('] + b + seq![')'] + c + seq![')'] + rest) == seq![
            a + seq!['('] + b + seq![')'] + c,
        ] + groups_of(rest),
{
    let text = seq!['('] + a + seq!['('] + b + seq![')'] + c + seq![')'] + rest;
    let i = 1 + a.len() as int;
    let j = i + 1 + b.len();
    let k = j + 1 + c.len();
    assert(text[0] == '(' && text[i] == '(' && text[j] == ')' && text[k] == ')');
    assert forall|n: int| 1 <= n < i implies #[trigger] text[n] != '(' && text[n] != ')' by {
        assert(text[n] == a[n - 1]);
        assert(a.contains(a[n - 1]));
    }
    assert forall|n: int| i + 1 <= n < j implies #[trigger] text[n] != '(' && text[n] != ')' by {
        assert(text[n] == b[n - i - 1]);
        assert(b.contains(b[n - i - 1]));
    }
    assert forall|n: int| j + 1 <= n < k implies #[trigger] text[n] != '(' && text[n] != ')' by {
        assert(text[n] == c[n - j - 1]);
        assert(c.contains(c[n - j - 1]));
    }
    lemma_plain_run(text, 1, i, 1, 1);
    lemma_plain_run(text, i + 1, j, 2, 1);
    lemma_plain_run(text, j + 1, k, 1, 1);
    assert(groups_from(text, 0, 0, 0) == groups_from(text, 1, 1, 1));
    assert(groups_from(text, i, 1, 1) == groups_from(text, i + 1, 2, 1));
    assert(groups_from(text, j, 2, 1) == groups_from(text, j + 1, 1, 1));
    assert(text.subrange(1, k) =~= a + seq!['('] + b + seq![')'] + c);
    lemma_shift(text, k + 1, k + 1, 0, 1, 0);
    assert(text.skip(k + 1) =~= rest);
}

/// Among several groups the first that looks like a date is the date, and the last that
/// does not is the state.
pub proof fn the_first_date_and_the_last_state_count(groups: Seq<Seq<char>>, i: int)
    requires
        0 <= i < groups.len(),
    ensures
        date_like(groups[i]) && (forall|k: int| 0 <= k < i ==> !date_like(#[trigger] groups[k]))
            ==> first_date(groups) == Some(groups[i]),
        !date_like(groups[i]) && (forall|k: int|
            i < k < groups.len() ==> date_like(#[trigger] groups[k])) ==> last_state(groups) == Some(
            groups[i],
        ),
    decreases groups.len(),
{
    if date_like(groups[i]) && (forall|k: int| 0 <= k < i ==> !date_like(#[trigger] groups[k])) {
        if i > 0 {
            assert(!date_like(groups[0]));
            let rest = groups.drop_first();
            assert forall|k: int| 0 <= k < i - 1 implies !date_like(#[trigger] rest[k]) by {
                assert(rest[k] == groups[k + 1]);
            }
            assert(rest[i - 1] == groups[i]);
            the_first_date_and_the_last_state_count(rest, i - 1);
        }
    }
    if !date_like(groups[i]) && (forall|k: int|
        i < k < groups.len() ==> date_like(#[trigger] groups[k])) {
        if i < groups.len() - 1 {
            assert(date_like(groups[groups.len() - 1]));
            let front = groups.drop_last();
            assert forall|k: int| i < k < front.len() implies date_like(#[trigger] front[k]) by {
                assert(front[k] == groups[k]);
            }
            assert(front[i] == groups[i]);
            the_first_date_and_the_last_state_count(front, i);
        }
    }
}

/// A text of one line that is not understood is quoted in the error; of two such lines
/// both are.
pub proof fn what_is_not_understood_is_quoted(a: Seq<char>, b: Seq<char>)
    requires
        a.len() > 0,
        b.len() > 0,
        !a.contains('\n'),
        !b.contains('\n'),
        a.last() != '\r',
        line_of(a) is Rejected,
        line_of(b) is Rejected,
    ensures
        listing_of(a) == Err::<ListView, _>(line_of(a)->Rejected_0),
        listing_of(a + seq!['\n'] + b) == Err::<ListView, _>(
            line_of(a)->Rejected_0 + " | "@ + line_of(b)->Rejected_0,
        ),
{
    let none = Seq::<Seq<char>>::empty();
    breaks_end_lines(a, b);
    breaks_end_lines(b, b);
    let x = line_of(a)->Rejected_0;
    let y = line_of(b)->Rejected_0;
    let one = line_views(lines_of(a));
    assert(one =~= seq![line_of(a)]);
    assert(one.drop_last() =~= Seq::<LineView>::empty());
    assert(rejected_of(one.drop_last()) =~= none);
    assert(rejected_of(one) =~= seq![x]);
    let two = line_views(lines_of(a + seq!['\n'] + b));
    assert(two =~= seq![line_of(a), line_of(b)]);
    assert(two.drop_last() =~= one);
    assert(two.last() == line_of(b));
    assert(rejected_of(two) =~= seq![x].push(y));
    separators_stand_between(seq![x], " | "@, y);
    separators_stand_between(seq![x], " | "@, x);
    assert(!has_structure(one)) by {
        if has_structure(one) {
            let i = choose|i: int| 0 <= i < one.len() && is_structure(#[trigger] one[i]);
            assert(i == 0);
        }
    }
    assert(!has_structure(two)) by {
        if has_structure(two) {
            let i = choose|i: int| 0 <= i < two.len() && is_structure(#[trigger] two[i]);
            assert(i == 0 || i == 1);
        }
    }
}

/// What stands around the address and the brackets of a line makes no difference: white
/// space in front, anything without brackets behind the address, between them and at the
/// end.
pub proof fn spacing_makes_no_difference(
    margin: Seq<char>,
    d: Detail,
    gap: Seq<char>,
    middle: Seq<char>,
    end: Seq<char>,
)
    requires
        all_space(margin),
        is_detail(d),
        gap.len() > 0,
        is_space(gap[0]),
        no_brackets(gap),
        no_brackets(middle),
        no_brackets(end),
    ensures
        ({
            let dated = match d.date {
                Some(date) => seq!['('] + date + seq![')'] + middle,
                None => Seq::empty(),
            };
            entry_of(
                margin + address(d.pid, d.name) + gap + dated + seq!['('] + d.state + seq![')'] + end,
            ) == Some(detail_session(d))
        }),
{
    let none = Seq::<char>::empty();
    let full = address(d.pid, d.name);
    let dated = match d.date {
        Some(date) => seq!['('] + date + seq![')'] + middle,
        None => none,
    };
    let line = margin + full + gap + dated + seq!['('] + d.state + seq![')'] + end;
    let head = margin + full + gap;
    let tail = dated + seq!['('] + d.state + seq![')'] + end;
    assert(line =~= head + tail);
    assert(tail[0] == '(');
    lemma_address(d.pid, d.name);
    assert forall|i: int| 0 <= i < head.len() implies head[i] != '(' by {
        if i < margin.len() {
            assert(head[i] == margin[i] && is_space(margin[i]));
        } else if i < margin.len() + full.len() {
            assert(head[i] == full[i - margin.len()]);
            assert(full.contains(full[i - margin.len()]));
        } else {
            assert(head[i] == gap[i - margin.len() - full.len()]);
            assert(gap.contains(gap[i - margin.len() - full.len()]));
        }
    }
    assert(tail =~= seq!['('] + tail.skip(1));
    assert(line =~= head + seq!['('] + tail.skip(1));
    the_first_one_counts(head, '(', tail.skip(1));
    assert(line.take(head.len() as int) =~= head);
    assert(line.skip(head.len() as int) =~= tail);
    lemma_headed(margin, full, gap);
    brackets_hold_groups(none, d.state, end);
    brackets_hold_groups(middle, d.state, end);
    brackets_hold_groups(end, none, none);
    let empty = Seq::<Seq<char>>::empty();
    match d.date {
        Some(date) => {
            let rest = middle + seq!['('] + d.state + seq![')'] + end;
            assert(tail =~= none + seq!['('] + date + seq![')'] + rest);
            brackets_hold_groups(none, date, rest);
            let groups = groups_of(tail);
            assert(groups =~= seq![date, d.state]);
            assert(date_like(groups[0]) && !date_like(groups.last()));
            assert(first_date(groups) == Some(date));
            assert(last_state(groups) == Some(d.state));
        },
        None => {
            assert(tail =~= none + seq!['('] + d.state + seq![')'] + end);
            let groups = groups_of(tail);
            assert(groups =~= seq![d.state]);
            assert(!date_like(groups[0]));
            assert(groups.drop_first() =~= empty);
            assert(first_date(groups.drop_first()) is None);
            assert(last_state(groups) == Some(d.state));
        },
    }
}

proof fn lemma_headed(margin: Seq<char>, full: Seq<char>, gap: Seq<char>)
    requires
        all_space(margin),
        full.len() > 0,
        no_space(full),
        gap.len() > 0,
        is_space(gap[0]),
    ensures
        first_word_of(trim_of(margin + full + gap)) == full,
{
    let none = Seq::<char>::empty();
    let head = margin + full + gap;
    let r = texts_fall_apart_when_trimmed(head);
    let m = margin.len() as int;
    let n = full.len() as int;
    assert(head[m] == full[0] && !is_space(full[0]));
    assert(head[m + n - 1] == full[n - 1] && !is_space(full[n - 1]));
    assert(r.0 <= m) by {
        if r.0 > m {
            assert(head.take(r.0)[m] == head[m]);
        }
    }
    assert(r.1 >= m + n) by {
        if r.1 < m + n {
            assert(head.skip(r.1)[m + n - 1 - r.1] == head[m + n - 1]);
        }
    }
    assert(r.0 == m) by {
        if r.0 < m {
            assert(head.subrange(r.0, r.1)[0] == head[r.0]);
            assert(head[r.0] == margin[r.0]);
        }
    }
    let t = trim_of(head);
    let rest = t.skip(n);
    assert(t =~= none + full + rest) by {
        assert forall|i: int| 0 <= i < n implies t[i] == full[i] by {
            assert(t[i] == head[m + i]);
        }
    }
    if rest.len() > 0 {
        assert(rest[0] == head[m + n]);
        assert(head[m + n] == gap[0]);
    }
    white_space_parts_words(none, full, rest);
}

proof fn lemma_rejected_filter(lines: Seq<LineView>)
    ensures
        rejected_of(lines) == lines.filter(|v: LineView| v is Rejected).map_values(
            |v: LineView| v->Rejected_0,
        ),
    decreases lines.len(),
{
    reveal(Seq::filter);
    let texts = |v: LineView| v->Rejected_0;
    if lines.len() == 0 {
        assert(lines.filter(|v: LineView| v is Rejected).map_values(texts) =~= Seq::<
            Seq<char>,
        >::empty());
    } else {
        let front = lines.drop_last();
        lemma_rejected_filter(front);
        let f = front.filter(|v: LineView| v is Rejected);
        assert(f.push(lines.last()).map_values(texts) =~= f.map_values(texts).push(
            texts(lines.last()),
        ));
    }
}

/// Of a text that is not understood, all lines are quoted in the error, in their order.
pub proof fn all_that_is_not_understood_is_quoted(text: Seq<char>)
    requires
        listing_of(text) is Err,
    ensures
        listing_of(text)->Err_0 == join_of(
            lines_of(text).map_values(|raw: Seq<char>| line_of(raw)).filter(
                |v: LineView| v is Rejected,
            ).map_values(|v: LineView| v->Rejected_0),
            " | "@,
        ),
{
    lemma_rejected_filter(line_views(lines_of(text)));
}

} // verus!
