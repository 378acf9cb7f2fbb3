//! What holds of every listing.

use crate::screen::parse::{
    SessionView, StatusView, connectable, duplicate_names, entries_of, entry_of, insert_record,
    is_sorted, line_of, line_views, listing_of, record_less, sort_records, status_label,
    status_of,
};
use crate::text::{
    lemma_until_char, lines_of, parse_digits, strip_cr, text_less, text_order_is_total,
    text_order_is_transitive, trim_of, trim_start_of, until_char,
};
use vstd::prelude::*;

verus! {

proof fn lemma_record_order(a: SessionView, b: SessionView, c: SessionView)
    ensures
        !record_less(a, a),
        !(record_less(a, b) && record_less(b, a)),
        record_less(a, b) && !record_less(c, b) ==> record_less(a, c),
        !record_less(a, b) && !record_less(b, a) ==> a.name == b.name && a.full == b.full,
{
    text_order_is_total(a.name, b.name);
    text_order_is_total(a.full, b.full);
    text_order_is_total(b.name, c.name);
    text_order_is_total(b.full, c.full);
    text_order_is_total(a.name, a.name);
    text_order_is_total(a.full, a.full);
    if record_less(a, b) && !record_less(c, b) {
        if text_less(a.name, b.name) && text_less(b.name, c.name) {
            text_order_is_transitive(a.name, b.name, c.name);
        }
        if text_less(a.full, b.full) && text_less(b.full, c.full) {
            text_order_is_transitive(a.full, b.full, c.full);
        }
    }
}

proof fn lemma_insert_position(t: Seq<SessionView>, r: SessionView) -> (pos: int)
    ensures
        0 <= pos <= t.len(),
        insert_record(t, r) == t.insert(pos, r),
        forall|k: int| pos <= k < t.len() ==> record_less(r, #[trigger] t[k]),
        pos == 0 || !record_less(r, t[pos - 1]),
    decreases t.len(),
{
    if t.len() == 0 || !record_less(r, t.last()) {
        assert(t.push(r) =~= t.insert(t.len() as int, r));
        t.len() as int
    } else {
        let rest = t.drop_last();
        let pos = lemma_insert_position(rest, r);
        assert(rest.insert(pos, r).push(t.last()) =~= t.insert(pos, r));
        assert forall|k: int| pos <= k < t.len() implies record_less(r, #[trigger] t[k]) by {
            if k < t.len() - 1 {
                assert(rest[k] == t[k]);
            }
        }
        pos
    }
}

proof fn lemma_insert_sorted(t: Seq<SessionView>, r: SessionView)
    requires
        is_sorted(t),
    ensures
        is_sorted(insert_record(t, r)),
{
    let pos = lemma_insert_position(t, r);
    let u = t.insert(pos, r);
    assert forall|i: int, j: int| 0 <= i < j < u.len() implies !record_less(
        #[trigger] u[j],
        #[trigger] u[i],
    ) by {
        let ti = if i < pos {
            i
        } else {
            i - 1
        };
        let tj = if j < pos {
            j
        } else {
            j - 1
        };
        if i == pos {
            assert(u[j] == t[j - 1]);
            lemma_record_order(r, t[j - 1], r);
        } else if j == pos {
            assert(u[i] == t[i]);
            if i < pos - 1 {
                assert(!record_less(t[pos - 1], t[i]));
            }
            lemma_record_order(r, t[i], t[pos - 1]);
        } else {
            assert(u[i] == t[ti] && u[j] == t[tj]);
        }
    }
}

/// The order of a listing: by name, and by full address where names are equal.
pub proof fn sessions_come_sorted(records: Seq<SessionView>)
    ensures
        is_sorted(sort_records(records)),
    decreases records.len(),
{
    if records.len() > 0 {
        sessions_come_sorted(records.drop_last());
        lemma_insert_sorted(sort_records(records.drop_last()), records.last());
    }
}

/// Sorting neither loses nor invents a session.
pub proof fn sorting_keeps_every_session(records: Seq<SessionView>)
    ensures
        sort_records(records).to_multiset() == records.to_multiset(),
        sort_records(records).len() == records.len(),
    decreases records.len(),
{
    broadcast use vstd::seq_lib::group_to_multiset_ensures;

    if records.len() > 0 {
        let rest = sort_records(records.drop_last());
        sorting_keeps_every_session(records.drop_last());
        let pos = lemma_insert_position(rest, records.last());
        vstd::seq_lib::to_multiset_insert(rest, pos, records.last());
        assert(records =~= records.drop_last().push(records.last()));
    }
}

/// The sessions with a given name and address.
pub open spec fn with_key(
    records: Seq<SessionView>,
    name: Seq<char>,
    full: Seq<char>,
) -> Seq<SessionView> {
    records.filter(|r: SessionView| r.name == name && r.full == full)
}

proof fn lemma_insert_stable(
    t: Seq<SessionView>,
    r: SessionView,
    name: Seq<char>,
    full: Seq<char>,
)
    ensures
        with_key(insert_record(t, r), name, full) == if r.name == name && r.full == full {
            with_key(t, name, full).push(r)
        } else {
            with_key(t, name, full)
        },
    decreases t.len(),
{
    reveal(Seq::filter);
    if t.len() == 0 || !record_less(r, t.last()) {
        assert(t.push(r).drop_last() =~= t);
    } else {
        let rest = t.drop_last();
        lemma_insert_stable(rest, r, name, full);
        let u = insert_record(rest, r).push(t.last());
        assert(u.drop_last() =~= insert_record(rest, r));
        lemma_record_order(r, t.last(), r);
    }
}

/// Sessions that share name and address keep the order in which they were listed.
pub proof fn sorting_is_stable(records: Seq<SessionView>, name: Seq<char>, full: Seq<char>)
    ensures
        with_key(sort_records(records), name, full) == with_key(records, name, full),
    decreases records.len(),
{
    reveal(Seq::filter);
    if records.len() > 0 {
        sorting_is_stable(records.drop_last(), name, full);
        lemma_insert_stable(
            sort_records(records.drop_last()),
            records.last(),
            name,
            full,
        );
    }
}

/// Two sessions of the list have that name.
pub open spec fn shared_name(records: Seq<SessionView>, name: Seq<char>) -> bool {
    exists|i: int, j: int|
        0 <= i < j < records.len() && (#[trigger] records[i]).name == name && (
        #[trigger] records[j]).name == name
}

proof fn lemma_sorted_names(records: Seq<SessionView>, i: int, j: int)
    requires
        is_sorted(records),
        0 <= i <= j < records.len(),
    ensures
        !text_less(records[j].name, records[i].name),
{
    if i < j {
        assert(!record_less(records[j], records[i]));
    } else {
        text_order_is_total(records[i].name, records[i].name);
    }
}

/// The reported duplicates are exactly the names that more than one session
/// has, each named once, in order.
pub proof fn duplicates_are_the_shared_names(records: Seq<SessionView>)
    requires
        is_sorted(records),
    ensures
        forall|name: Seq<char>| #[trigger]
            duplicate_names(records).contains(name) <==> shared_name(records, name),
        forall|i: int, j: int|
            0 <= i < j < duplicate_names(records).len() ==> text_less(
                #[trigger] duplicate_names(records)[i],
                #[trigger] duplicate_names(records)[j],
            ),
    decreases records.len(),
{
    let n = records.len() as int;
    let d = duplicate_names(records);
    if n < 2 {
        assert(d.len() == 0);
    } else {
        let rest = records.drop_last();
        let e = duplicate_names(rest);
        assert forall|i: int, j: int| 0 <= i < j < rest.len() implies !record_less(
            #[trigger] rest[j],
            #[trigger] rest[i],
        ) by {
            assert(rest[i] == records[i] && rest[j] == records[j]);
        }
        duplicates_are_the_shared_names(rest);
        let last = records.last().name;
        let fresh = last == records[n - 2].name && (n == 2 || last != records[n - 3].name);
        // A name seen before the last record and equal to its name is also the
        // name of the record in front of it.
        assert forall|i: int| 0 <= i < n - 1 && (#[trigger] records[i]).name == last implies (
        forall|k: int| i <= k < n - 1 ==> (#[trigger] records[k]).name == last) by {
            assert forall|k: int| i <= k < n - 1 implies (#[trigger] records[k]).name == last by {
                lemma_sorted_names(records, i, k);
                lemma_sorted_names(records, k, n - 1);
                text_order_is_total(records[k].name, last);
            }
        }
        if fresh {
            // The name was not shared before.
            if shared_name(rest, last) {
                let (i, j) = choose|i: int, j: int|
                    0 <= i < j < rest.len() && (#[trigger] rest[i]).name == last && (
                    #[trigger] rest[j]).name == last;
                assert(records[i].name == last);
                assert(records[n - 3].name == last);
            }
            assert(!shared_name(rest, last));
            assert forall|i: int| 0 <= i < e.len() implies text_less(#[trigger] e[i], last) by {
                assert(e.contains(e[i]));
                let (a, b) = choose|a: int, b: int|
                    0 <= a < b < rest.len() && (#[trigger] rest[a]).name == e[i] && (
                    #[trigger] rest[b]).name == e[i];
                lemma_sorted_names(records, a, n - 1);
                text_order_is_total(e[i], last);
                assert(e[i] != last);
            }
            assert(d == e.push(last));
        }
        assert forall|name: Seq<char>| #[trigger] d.contains(name) <==> shared_name(
            records,
            name,
        ) by {
            if shared_name(rest, name) {
                let (i, j) = choose|i: int, j: int|
                    0 <= i < j < rest.len() && (#[trigger] rest[i]).name == name && (
                    #[trigger] rest[j]).name == name;
                assert(records[i].name == name && records[j].name == name);
                assert(shared_name(records, name));
                assert(e.contains(name));
                let k = choose|k: int| 0 <= k < e.len() && e[k] == name;
                assert(d[k] == name);
                assert(d.contains(name));
            } else if shared_name(records, name) {
                let (i, j) = choose|i: int, j: int|
                    0 <= i < j < records.len() && (#[trigger] records[i]).name == name && (
                    #[trigger] records[j]).name == name;
                if j < n - 1 {
                    assert(rest[i].name == name && rest[j].name == name);
                }
                assert(j == n - 1 && name == last);
                assert(records[n - 2].name == last);
                if n > 2 && records[n - 3].name == last {
                    assert(rest[n - 3].name == last && rest[n - 2].name == last);
                }
                assert(fresh);
                assert(d[e.len() as int] == name);
                assert(d.contains(name));
            } else if d.contains(name) {
                let k = choose|k: int| 0 <= k < d.len() && d[k] == name;
                if k < e.len() {
                    assert(e[k] == name);
                    assert(e.contains(name));
                } else {
                    assert(fresh && name == last);
                    assert(records[n - 2].name == name && records[n - 1].name == name);
                }
            }
        }
    }
}

/// Every list that is read comes sorted, and names its duplicates exactly.
pub proof fn listings_are_in_order(text: Seq<char>)
    requires
        listing_of(text) is Ok,
    ensures
        is_sorted(listing_of(text)->Ok_0.sessions),
        forall|name: Seq<char>| #[trigger]
            listing_of(text)->Ok_0.duplicates.contains(name) <==> shared_name(
                listing_of(text)->Ok_0.sessions,
                name,
            ),
        listing_of(text)->Ok_0.sessions.to_multiset() == entries_of(
            line_views(lines_of(text)),
        ).to_multiset(),
{
    let found = entries_of(line_views(lines_of(text)));
    sessions_come_sorted(found);
    sorting_keeps_every_session(found);
    duplicates_are_the_shared_names(sort_records(found));
}

/// The address of a session is its number in digits, a dot and its name.
pub open spec fn numeric_address(s: SessionView) -> bool {
    let dot = until_char(s.full, '.') as int;
    &&& dot < s.full.len()
    &&& s.pid is Some && s.pid->0 >= 0
    &&& parse_digits(s.full.take(dot)) == Some(s.pid->0 as nat)
    &&& s.full == s.full.take(dot) + seq!['.'] + s.name
    &&& s.name == s.full.skip(dot + 1)
    &&& s.name.len() > 0
}

/// A line is taken for a session only if it begins with digits and a dot; its address
/// is that number, the dot and the name.
pub proof fn sessions_have_numeric_addresses(line: Seq<char>)
    requires
        entry_of(line) is Some,
    ensures
        numeric_address(entry_of(line)->0),
{
    let s = entry_of(line)->0;
    let dot = until_char(s.full, '.') as int;
    lemma_until_char(s.full, '.');
    assert(s.full =~= s.full.take(dot) + seq!['.'] + s.name);
    assert(parse_digits(s.full.take(dot)) is Some);
}

proof fn lemma_entries_numeric(lines: Seq<Seq<char>>)
    ensures
        forall|i: int|
            0 <= i < entries_of(line_views(lines)).len() ==> numeric_address(
                #[trigger] entries_of(line_views(lines))[i],
            ),
    decreases lines.len(),
{
    if lines.len() > 0 {
        let rest = lines.drop_last();
        lemma_entries_numeric(rest);
        assert(line_views(lines).drop_last() =~= line_views(rest));
        assert(line_views(lines).last() == line_of(lines.last()));
        let body = trim_start_of(strip_cr(lines.last()));
        if entry_of(body) is Some {
            sessions_have_numeric_addresses(body);
        }
        let found = entries_of(line_views(lines));
        let before = entries_of(line_views(rest));
        assert forall|i: int| 0 <= i < found.len() implies numeric_address(#[trigger] found[i]) by {
            if i < before.len() {
                assert(found[i] == before[i]);
            }
        }
    }
}

proof fn lemma_sorted_numeric(records: Seq<SessionView>)
    requires
        forall|i: int| 0 <= i < records.len() ==> numeric_address(#[trigger] records[i]),
    ensures
        forall|i: int|
            0 <= i < sort_records(records).len() ==> numeric_address(
                #[trigger] sort_records(records)[i],
            ),
    decreases records.len(),
{
    if records.len() > 0 {
        let rest = records.drop_last();
        assert forall|i: int| 0 <= i < rest.len() implies numeric_address(#[trigger] rest[i]) by {
            assert(rest[i] == records[i]);
        }
        lemma_sorted_numeric(rest);
        let pos = lemma_insert_position(sort_records(rest), records.last());
    }
}

/// Every session of a listing has an address of this kind, so that sessions with the
/// same address have the same name.
pub proof fn listed_addresses_hold_the_names(text: Seq<char>)
    requires
        listing_of(text) is Ok,
    ensures
        ({
            let sessions = listing_of(text)->Ok_0.sessions;
            &&& forall|i: int| 0 <= i < sessions.len() ==> numeric_address(#[trigger] sessions[i])
            &&& forall|i: int, j: int|
                0 <= i < sessions.len() && 0 <= j < sessions.len() && (
                #[trigger] sessions[i]).full == (#[trigger] sessions[j]).full ==> sessions[i].name
                    == sessions[j].name
        }),
{
    lemma_entries_numeric(lines_of(text));
    lemma_sorted_numeric(entries_of(line_views(lines_of(text))));
}

/// A state that is not known is kept as it was printed, and shown so.
pub proof fn unknown_states_are_kept_verbatim(word: Seq<char>)
    requires
        status_of(word) is Unknown,
    ensures
        status_of(word) == StatusView::Unknown(trim_of(word)),
        status_label(status_of(word)) == trim_of(word),
        !connectable(status_of(word)),
{
}

/// A text with `\r\n` in place of each `\n`.
pub open spec fn with_crlf(text: Seq<char>) -> Seq<char>
    decreases text.len(),
{
    if text.len() == 0 {
        Seq::empty()
    } else if text[0] == '\n' {
        seq!['\r', '\n'] + with_crlf(text.drop_first())
    } else {
        seq![text[0]] + with_crlf(text.drop_first())
    }
}

proof fn lemma_crlf_line(text: Seq<char>)
    requires
        !text.contains('\r'),
        until_char(text, '\n') < text.len(),
    ensures
        ({
            let n = until_char(text, '\n') as int;
            let t = with_crlf(text);
            &&& until_char(t, '\n') == n + 1
            &&& n + 1 < t.len()
            &&& t.take(n + 1) == text.take(n).push('\r')
            &&& t.skip(n + 2) == with_crlf(text.skip(n + 1))
        }),
    decreases text.len(),
{
    let n = until_char(text, '\n') as int;
    let t = with_crlf(text);
    let rest = text.drop_first();
    if text[0] == '\n' {
        let tail = with_crlf(rest);
        assert(t =~= seq!['\r', '\n'] + tail);
        assert(t.drop_first()[0] == '\n');
        assert(until_char(t.drop_first(), '\n') == 0);
        assert(until_char(t, '\n') == 1);
        assert(t.take(1) =~= text.take(0).push('\r'));
        assert(t.skip(2) =~= tail);
        assert(text.skip(1) =~= rest);
    } else {
        assert(!rest.contains('\r')) by {
            if rest.contains('\r') {
                let k = choose|k: int| 0 <= k < rest.len() && rest[k] == '\r';
                assert(text[k + 1] == '\r');
            }
        }
        lemma_crlf_line(rest);
        let u = with_crlf(rest);
        assert(t.drop_first() =~= u);
        assert(t[0] == text[0]);
        assert(t.take(n + 1) =~= seq![text[0]] + u.take(n));
        assert(text.take(n) =~= seq![text[0]] + rest.take(n - 1));
        assert(t.take(n + 1) =~= text.take(n).push('\r'));
        assert(t.skip(n + 2) =~= u.skip(n + 1));
        assert(text.skip(n + 1) =~= rest.skip(n));
    }
}

proof fn lemma_crlf_last_line(text: Seq<char>)
    requires
        until_char(text, '\n') == text.len(),
    ensures
        with_crlf(text) == text,
    decreases text.len(),
{
    if text.len() > 0 {
        lemma_until_char(text, '\n');
        lemma_crlf_last_line(text.drop_first());
        assert(text =~= seq![text[0]] + text.drop_first());
    } else {
        assert(with_crlf(text) =~= text);
    }
}

proof fn lemma_crlf_lines(text: Seq<char>)
    requires
        !text.contains('\r'),
    ensures
        lines_of(with_crlf(text)) == lines_of(text),
    decreases text.len(),
{
    lemma_until_char(text, '\n');
    let n = until_char(text, '\n') as int;
    if text.len() == 0 {
    } else if n >= text.len() {
        lemma_crlf_last_line(text);
    } else {
        let rest = text.skip(n + 1);
        assert(!rest.contains('\r')) by {
            if rest.contains('\r') {
                let k = choose|k: int| 0 <= k < rest.len() && rest[k] == '\r';
                assert(text[k + n + 1] == '\r');
            }
        }
        lemma_crlf_line(text);
        lemma_crlf_lines(rest);
        let line = text.take(n);
        assert(line.push('\r').drop_last() =~= line);
        assert(strip_cr(line) == line) by {
            if line.len() > 0 && line.last() == '\r' {
                assert(text[n - 1] == '\r');
            }
        }
    }
}

/// Line ends of the form `\r\n` read like `\n`.
pub proof fn carriage_returns_make_no_difference(text: Seq<char>)
    requires
        !text.contains('\r'),
    ensures
        listing_of(with_crlf(text)) == listing_of(text),
{
    lemma_crlf_lines(text);
}

} // verus!
