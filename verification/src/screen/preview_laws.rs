//! What is shown of a snapshot.

use crate::screen::cmd::{
    RunView, lossy_text, run_text,
};
use crate::screen::preview::{
    cut_lines, drop_blank_tail, preview_lines, reason_of, snapshot_of,
};
use crate::screen::caps::{
    first_line_or_empty, first_solid_line,
};
use crate::screen::ErrorView;
use crate::text::{
    is_space, lines_of, trim_end_of, trim_of,
};
use crate::text_laws::{
    all_space, some_solid, texts_fall_apart_when_trimmed,
};
use crate::util::width::{
    all_columns, clip_of, ellipsis_of, lemma_fitting_bound, text_columns,
};
use vstd::prelude::*;

verus! {

/// The number of lines up to the last one that holds something other than white space.
pub open spec fn is_solid_len(lines: Seq<Seq<char>>, n: int) -> bool {
    &&& 0 <= n <= lines.len()
    &&& n > 0 ==> some_solid(lines[n - 1])
    &&& forall|i: int| n <= i < lines.len() ==> all_space(#[trigger] lines[i])
}

proof fn lemma_tail(lines: Seq<Seq<char>>, n: int)
    requires
        0 <= n <= lines.len(),
        n > 0 ==> trim_of(lines[n - 1]).len() > 0,
        forall|i: int| n <= i < lines.len() ==> trim_of(#[trigger] lines[i]).len() == 0,
    ensures
        drop_blank_tail(lines) == lines.take(n),
    decreases lines.len(),
{
    if n == lines.len() {
        assert(lines.take(n) =~= lines);
    } else {
        let front = lines.drop_last();
        assert(trim_of(lines[lines.len() - 1]).len() == 0);
        assert forall|i: int| n <= i < front.len() implies trim_of(
            #[trigger] front[i],
        ).len() == 0 by {
            assert(front[i] == lines[i]);
        }
        lemma_tail(front, n);
        assert(front.take(n) =~= lines.take(n));
    }
}

proof fn lemma_cut(line: Seq<char>, max: nat)
    requires
        max > 0,
    ensures
        trim_of(ellipsis_of(trim_end_of(line), max)).len() > 0 <==> some_solid(line),
{
    let t = trim_end_of(line);
    let r = texts_fall_apart_when_trimmed(line);
    let c = ellipsis_of(t, max);
    texts_fall_apart_when_trimmed(c);
    if all_space(line) {
        assert(t =~= Seq::<char>::empty());
        assert(c == t);
        assert(all_space(c));
    } else {
        let i = choose|i: int| 0 <= i < line.len() && !is_space(#[trigger] line[i]);
        assert(some_solid(line));
        assert(r.0 < r.1) by {
            if r.0 >= r.1 {
                assert(trim_of(line).len() == 0);
            }
        }
        assert(t == line.take(r.1));
        if text_columns(t) <= max {
            assert(t[r.1 - 1] == line.subrange(r.0, r.1).last());
            assert(!all_space(c));
        } else {
            assert(c.last() == '…');
            assert(!is_space(c[c.len() - 1]));
            assert(!all_space(c));
        }
    }
}

/// Every line of a snapshot up to the last one that holds something is shown: there
/// are as many lines as that, and a line that is no wider than the limit is shown as it is,
/// without the white space at its end. A line that is too wide is shown from its
/// beginning, with an ellipsis behind what fits.
pub proof fn snapshots_show_every_line(text: Seq<char>, max: nat, n: int)
    requires
        max > 0,
        is_solid_len(lines_of(text), n),
    ensures
        preview_lines(text, max).len() == n,
        forall|i: int|
            0 <= i < n && text_columns(trim_end_of(lines_of(text)[i])) <= max ==> (
            #[trigger] preview_lines(text, max)[i]) == trim_end_of(lines_of(text)[i]),
        forall|i: int|
            0 <= i < n && some_solid(lines_of(text)[i]) && text_columns(
                trim_end_of(lines_of(text)[i]),
            ) > max ==> {
                let shown = #[trigger] preview_lines(text, max)[i];
                &&& shown.len() > 0 && shown.last() == '…'
                &&& shown.len() - 1 <= lines_of(text)[i].len()
                &&& shown.drop_last() == lines_of(text)[i].take(shown.len() - 1)
            },
{
    let lines = lines_of(text);
    let cut = cut_lines(lines, max);
    assert forall|i: int| 0 <= i < lines.len() implies (trim_of(#[trigger] cut[i]).len() > 0
        <==> some_solid(lines[i])) by {
        lemma_cut(lines[i], max);
    }
    assert forall|i: int| n <= i < cut.len() implies trim_of(#[trigger] cut[i]).len() == 0 by {
        assert(all_space(lines[i]));
        if some_solid(lines[i]) {
            let k = choose|k: int| 0 <= k < lines[i].len() && !is_space(#[trigger] lines[i][k]);
            assert(is_space(lines[i][k]));
        }
    }
    if n > 0 {
        assert(trim_of(cut[n - 1]).len() > 0);
    }
    lemma_tail(cut, n);
    assert forall|i: int|
        0 <= i < n && some_solid(lines[i]) && text_columns(trim_end_of(lines[i])) > max implies {
            let shown = #[trigger] preview_lines(text, max)[i];
            &&& shown.len() > 0 && shown.last() == '…'
            &&& shown.len() - 1 <= lines[i].len()
            &&& shown.drop_last() == lines[i].take(shown.len() - 1)
        } by {
        let t = trim_end_of(lines[i]);
        lemma_cut(lines[i], max);
        let r = texts_fall_apart_when_trimmed(lines[i]);
        let k = choose|k: int| 0 <= k < lines[i].len() && !is_space(#[trigger] lines[i][k]);
        assert(!all_space(lines[i]));
        assert(r.0 < r.1);
        let shown = preview_lines(text, max)[i];
        assert(shown == cut[i]);
        assert(cut[i] == ellipsis_of(t, max));
        let kept = clip_of(t, (max - 1) as nat);
        lemma_fitting_bound(all_columns(t), max - 1);
        assert(all_columns(t).len() == t.len());
        assert(kept == t.take(kept.len() as int)) by {
            if text_columns(t) <= (max - 1) as nat {
                assert(t.take(t.len() as int) =~= t);
            }
        }
        assert(shown.drop_last() =~= kept);
        assert(t =~= lines[i].take(r.1));
        assert(kept =~= lines[i].take(kept.len() as int));
    }
}

proof fn lemma_first_solid_line(lines: Seq<Seq<char>>, n: int)
    requires
        0 <= n <= lines.len(),
        forall|i: int| 0 <= i < n ==> all_space(#[trigger] lines[i]),
        n < lines.len() ==> some_solid(lines[n]),
    ensures
        first_solid_line(lines) == if n < lines.len() {
            Some(trim_of(lines[n]))
        } else {
            None
        },
    decreases lines.len(),
{
    if lines.len() > 0 {
        texts_fall_apart_when_trimmed(lines[0]);
        if n == 0 {
            let k = choose|k: int| 0 <= k < lines[0].len() && !is_space(#[trigger] lines[0][k]);
            assert(!all_space(lines[0]));
        } else {
            assert(all_space(lines[0]));
            let rest = lines.drop_first();
            assert forall|i: int| 0 <= i < n - 1 implies all_space(#[trigger] rest[i]) by {
                assert(rest[i] == lines[i + 1]);
            }
            lemma_first_solid_line(rest, n - 1);
        }
    }
}

/// The line that is quoted of an output is the first one that holds something, without
/// the white space around it.
pub proof fn the_first_solid_line_is_quoted(text: Seq<char>, n: int)
    requires
        0 <= n <= lines_of(text).len(),
        forall|i: int| 0 <= i < n ==> all_space(#[trigger] lines_of(text)[i]),
        n < lines_of(text).len() ==> some_solid(lines_of(text)[n]),
    ensures
        n < lines_of(text).len() ==> first_line_or_empty(text) == trim_of(lines_of(text)[n])
            && reason_of(text) == trim_of(lines_of(text)[n]),
        n == lines_of(text).len() ==> first_line_or_empty(text).len() == 0 && reason_of(text)
            == "screen exited nonzero with no diagnostic"@,
{
    lemma_first_solid_line(lines_of(text), n);
}

/// A snapshot is shown exactly if screen took it and wrote something; otherwise what
/// screen said is the reason, or that it wrote nothing.
pub proof fn failed_snapshots_say_why(run: RunView, bytes: u64, content: Seq<u8>)
    ensures
        run.code == 0 && bytes > 0 ==> snapshot_of(run, bytes, content) == Ok::<_, ErrorView>(
            preview_lines(lossy_text(content), 96),
        ),
        run.code != 0 ==> snapshot_of(run, bytes, content) == Err::<Seq<Seq<char>>, _>(
            ErrorView::PreviewUnavailable(reason_of(run_text(run))),
        ),
        run.code == 0 && bytes == 0 ==> snapshot_of(run, bytes, content) is Err,
{
}

} // verus!
