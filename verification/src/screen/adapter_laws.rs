//! What is made of the other things that screen and the system print, and what is asked
//! of them.

use crate::screen::caps::{
    HardcopyView, Support, Version, announced_at, announced_from, detected, first_line_or_empty,
    hardcopy_args_of, hardcopy_detail, hardcopy_outcome_of, hardcopy_support, head_of,
    is_separator, is_usage_dump, parse_u32, query_args_of, query_note, query_support,
    support_label, tokens_from, version_from, version_in, version_text, version_token_in,
    version_token_of, version_tokens,
};
use crate::screen::cmd::{
    AttachKind, Candidate, RunView, attach_kind_label, command_line, command_line_with_term,
    command_words, escape_quotes, first_executable, is_plain, lossy_text, quoted, run_text,
};
use crate::screen::parse::{
    EnumerationView, Outlook, enumeration_of, listing_of, notes_of, outlook_label, outlook_of,
};
use crate::screen::probe::{
    ChildProcess, child_command_of, cmdline_of, combined, first_command, first_named_child,
    gap_end, is_screen, last_component, little_endian, procargs_of, run_end, strings_from,
    texts_of,
};
use crate::text::{
    all_digits, decimal_of, digits_value, is_ascii_alnum, is_digit, join_of, lemma_decimal_digits,
    lines_of, lower, occurs_at, signed_decimal_of, split_of, trim_of,
};
use crate::text_laws::{
    all_space, no_space, separators_part_texts, separators_stand_between,
    texts_are_found_where_they_stand_first, texts_fall_apart_when_trimmed,
};
use crate::screen::{
    ErrorView, error_text,
};
use vstd::prelude::*;

verus! {

// ---------------------------------------------------------------------------
// Running
// ---------------------------------------------------------------------------
/// What a run printed is what it wrote to either output, each on lines of its own; blank
/// error output does not count.
pub proof fn both_outputs_are_read(run: RunView)
    ensures
        all_space(run.stderr) ==> run_text(run) == run.stdout,
        !all_space(run.stderr) && run.stdout.len() == 0 ==> run_text(run) == run.stderr,
        !all_space(run.stderr) && run.stdout.len() > 0 && run.stdout.last() == '\n' ==> run_text(
            run,
        ) == run.stdout + run.stderr,
        !all_space(run.stderr) && run.stdout.len() > 0 && run.stdout.last() != '\n' ==> run_text(
            run,
        ) == run.stdout + seq!['\n'] + run.stderr,
{
    texts_fall_apart_when_trimmed(run.stderr);
    assert(run.stdout.push('\n') =~= run.stdout + seq!['\n']);
    if run.stdout.len() == 0 {
        assert(run.stdout + run.stderr =~= run.stderr);
    }
}

/// The first candidate that can be executed is the one that is run.
pub proof fn the_first_executable_is_run(candidates: Seq<Candidate>, i: int)
    requires
        0 <= i <= candidates.len(),
        forall|k: int| 0 <= k < i ==> !(#[trigger] candidates[k]).executable,
        i < candidates.len() ==> candidates[i].executable,
    ensures
        i < candidates.len() ==> first_executable(candidates) == Some(candidates[i].path@),
        i == candidates.len() ==> first_executable(candidates) is None,
    decreases candidates.len(),
{
    if candidates.len() > 0 && i > 0 {
        assert(!candidates[0].executable);
        let rest = candidates.drop_first();
        assert forall|k: int| 0 <= k < i - 1 implies !(#[trigger] rest[k]).executable by {
            assert(rest[k] == candidates[k + 1]);
        }
        the_first_executable_is_run(rest, i - 1);
    }
}

proof fn lemma_unescaped(s: Seq<char>)
    requires
        !s.contains('\''),
    ensures
        escape_quotes(s) == s,
    decreases s.len(),
{
    if s.len() > 0 {
        let front = s.drop_last();
        assert(!front.contains('\'')) by {
            if front.contains('\'') {
                let k = choose|k: int| 0 <= k < front.len() && front[k] == '\'';
                assert(s[k] == '\'');
            }
        }
        lemma_unescaped(front);
        assert(s[s.len() - 1] != '\'');
        assert(front.push(s.last()) =~= s);
    }
}

/// In the record of a command, an argument of plain characters stands as it is, and any
/// other one in quotes, with every quote in it written so that a shell reads it back.
pub proof fn arguments_are_quoted_for_a_shell(raw: Seq<char>)
    ensures
        raw.len() > 0 && (forall|i: int| 0 <= i < raw.len() ==> is_ascii_alnum(#[trigger] raw[i]))
            ==> quoted(raw) == raw,
        raw.len() == 0 || raw.contains(' ') ==> quoted(raw) == seq!['\''] + escape_quotes(raw)
            + seq!['\''],
        !raw.contains('\'') ==> escape_quotes(raw) == raw,
        escape_quotes(raw.push('\'')) == escape_quotes(raw) + seq!['\'', '\\', '\'', '\''],
{
    if !raw.contains('\'') {
        lemma_unescaped(raw);
    }
    assert(raw.push('\'').drop_last() =~= raw);
    if raw.contains(' ') {
        let k = choose|k: int| 0 <= k < raw.len() && raw[k] == ' ';
        assert(!is_plain(raw[k]));
    }
}

/// A command is recorded as the program and its arguments with spaces between them.
pub proof fn commands_are_recorded_in_full(
    program: Seq<char>,
    args: Seq<Seq<char>>,
    last: Seq<char>,
)
    ensures
        command_line(program, Seq::empty()) == program,
        command_line(program, args.push(last)) == command_line(program, args) + seq![' '] + quoted(
            last,
        ),
{
    reveal_strlit(" ");
    assert(" "@ =~= seq![' ']);
    let none = Seq::<Seq<char>>::empty();
    assert(command_words(program, none) =~= seq![program]);
    separators_stand_between(none, " "@, program);
    let words = command_words(program, args);
    assert(command_words(program, args.push(last)) =~= words.push(quoted(last)));
    separators_stand_between(words, " "@, quoted(last));
}

// ---------------------------------------------------------------------------
// The quick look
// ---------------------------------------------------------------------------
/// The exit codes of the quick look: nine for no sessions, ten for none that can be
/// connected to, and from eleven on how many there are; any other says nothing.
pub proof fn exit_codes_are_told_apart(code: i32)
    ensures
        outlook_of(9) == Outlook::NoSessions,
        outlook_of(10) == Outlook::Unconnectable,
        code > 10 ==> (outlook_of(code) matches Outlook::Available(n) && n + 10 == code),
        code < 9 ==> outlook_of(code) == Outlook::Inconclusive(code),
{
}

/// A quick look that contradicts the listing is remarked on, and so is one that says
/// nothing; one that agrees is not. What the listing has to remark on follows, and an
/// error comes last.
pub proof fn contradictions_are_remarked_on(e: EnumerationView)
    ensures
        ({
            let count = e.list.sessions.len();
            let odd = match e.outlook {
                Outlook::NoSessions => count > 0,
                Outlook::Available(n) => n != count,
                Outlook::Inconclusive(_) => true,
                Outlook::Unconnectable => false,
            };
            let first = if odd {
                1int
            } else {
                0
            };
            let last = if e.list_error is Some {
                1int
            } else {
                0
            };
            &&& notes_of(e).len() == first + e.list.warnings.len() + last
            &&& forall|i: int|
                0 <= i < e.list.warnings.len() ==> notes_of(e)[first + i]
                    == #[trigger] e.list.warnings[i]
            &&& e.list_error matches Some(err) ==> notes_of(e).last() == err
            &&& e.outlook matches Outlook::Available(n) ==> (n != count ==> notes_of(e)[0]
                == "`-q -ls` reported "@ + decimal_of(n as nat)
                + " session(s) but `-ls` detailed "@ + decimal_of(count))
        }),
{
}

/// The listing counts whatever its exit code; a text in which nothing is recognised is
/// reported as an error with no sessions.
pub proof fn the_text_of_the_listing_counts(code: i32, listing: RunView)
    ensures
        listing_of(run_text(listing)) matches Ok(list) ==> enumeration_of(code, listing)
            == (EnumerationView { outlook: outlook_of(code), list, list_error: None }),
        listing_of(run_text(listing)) is Err ==> enumeration_of(code, listing).list.sessions.len()
            == 0 && enumeration_of(code, listing).list_error is Some && enumeration_of(
            code,
            listing,
        ).outlook == outlook_of(code),
{
}

// ---------------------------------------------------------------------------
// Versions
// ---------------------------------------------------------------------------
/// A number as it stands in a version.
pub open spec fn is_version_part(part: Seq<char>) -> bool {
    part.len() > 0 && all_digits(part) && digits_value(part) <= u32::MAX
}

proof fn lemma_version_part(part: Seq<char>)
    requires
        is_version_part(part),
    ensures
        parse_u32(part) == Some(digits_value(part)),
        !part.contains('.'),
        no_space(part),
        forall|i: int| 0 <= i < part.len() ==> !is_separator(#[trigger] part[i]),
{
    assert(is_digit(part[0]));
    assert forall|i: int| 0 <= i < part.len() implies part[i] != '.' && !is_separator(
        #[trigger] part[i],
    ) by {
        assert(is_digit(part[i]));
    }
}

/// Two or three numbers with dots between them are a version; the third is zero where
/// there are two.
pub proof fn versions_are_numbers_with_dots(a: Seq<char>, b: Seq<char>, c: Seq<char>)
    requires
        is_version_part(a),
        is_version_part(b),
        is_version_part(c),
    ensures
        version_token_of(a + seq!['.'] + b + seq!['.'] + c) == Some(
            Version {
                major: digits_value(a) as u32,
                minor: digits_value(b) as u32,
                patch: digits_value(c) as u32,
            },
        ),
        version_token_of(a + seq!['.'] + b) == Some(
            Version { major: digits_value(a) as u32, minor: digits_value(b) as u32, patch: 0 },
        ),
        version_token_of(a) is None,
{
    lemma_version_part(a);
    lemma_version_part(b);
    lemma_version_part(c);
    separators_part_texts(a, '.', b);
    separators_part_texts(a, '.', b + seq!['.'] + c);
    separators_part_texts(b, '.', c);
    separators_part_texts(c, '.', c);
    assert(a + seq!['.'] + b + seq!['.'] + c =~= a + seq!['.'] + (b + seq!['.'] + c));
    assert(split_of(a + seq!['.'] + (b + seq!['.'] + c), '.') =~= seq![a, b, c]);
    assert(split_of(a + seq!['.'] + b, '.') =~= seq![a, b]);
}

proof fn lemma_tokens_run(text: Seq<char>, i: int, j: int, start: int)
    requires
        0 <= start <= i <= j <= text.len(),
        forall|k: int| i <= k < j ==> !is_separator(#[trigger] text[k]),
    ensures
        tokens_from(text, i, start) == tokens_from(text, j, start),
    decreases j - i,
{
    if i < j {
        assert(!is_separator(text[i]));
        lemma_tokens_run(text, i + 1, j, start);
    }
}

proof fn lemma_tokens_shift(text: Seq<char>, off: int, i: int, start: int)
    requires
        0 <= off <= start <= i <= text.len(),
    ensures
        tokens_from(text, i, start) == tokens_from(text.skip(off), i - off, start - off),
    decreases text.len() - i,
{
    let rest = text.skip(off);
    assert(text.subrange(start, i) =~= rest.subrange(start - off, i - off));
    if i < text.len() {
        assert(rest[i - off] == text[i]);
        if is_separator(text[i]) {
            lemma_tokens_shift(text, off, i + 1, i + 1);
        } else {
            lemma_tokens_shift(text, off, i + 1, start);
        }
    }
}

/// White space, brackets and commas part the words in which a version is looked for.
pub proof fn separators_part_tokens(word: Seq<char>, c: char, rest: Seq<char>)
    requires
        word.len() > 0,
        forall|i: int| 0 <= i < word.len() ==> !is_separator(#[trigger] word[i]),
        is_separator(c),
    ensures
        version_tokens(word + seq![c] + rest) == seq![word] + version_tokens(rest),
        version_tokens(word) == seq![word],
        version_tokens(seq![c] + rest) == version_tokens(rest),
{
    let text = word + seq![c] + rest;
    let n = word.len() as int;
    assert forall|k: int| 0 <= k < n implies !is_separator(#[trigger] text[k]) by {
        assert(text[k] == word[k]);
    }
    lemma_tokens_run(text, 0, n, 0);
    assert(text[n] == c);
    assert(text.subrange(0, n) =~= word);
    lemma_tokens_shift(text, n + 1, n + 1, n + 1);
    assert(text.skip(n + 1) =~= rest);
    lemma_tokens_run(word, 0, n, 0);
    assert(word.subrange(0, n) =~= word);
    let other = seq![c] + rest;
    assert(other[0] == c);
    lemma_tokens_shift(other, 1, 1, 1);
    assert(other.skip(1) =~= rest);
    assert(tokens_from(other, 0, 0) =~= Seq::<Seq<char>>::empty() + tokens_from(other, 1, 1));
}

/// The version is the word behind `version`, as in what `screen -v` prints.
pub proof fn the_announced_version_is_read(token: Seq<char>, rest: Seq<char>)
    requires
        token.len() > 0,
        forall|i: int| 0 <= i < token.len() ==> !is_separator(#[trigger] token[i]),
        version_token_of(token) is Some,
    ensures
        version_in("Screen version "@ + token + seq![' '] + rest) == version_token_of(token),
        version_token_in("Screen version "@ + token + seq![' '] + rest) == Some(token),
{
    reveal_strlit("Screen version ");
    reveal_strlit("version");
    let a: Seq<char> = seq!['S', 'c', 'r', 'e', 'e', 'n'];
    let b: Seq<char> = seq!['v', 'e', 'r', 's', 'i', 'o', 'n'];
    assert("version"@ =~= b);
    let text = "Screen version "@ + token + seq![' '] + rest;
    let tail = token + seq![' '] + rest;
    assert(text =~= a + seq![' '] + (b + seq![' '] + tail));
    assert forall|i: int| 0 <= i < a.len() implies !is_separator(#[trigger] a[i]) by {}
    assert forall|i: int| 0 <= i < b.len() implies !is_separator(#[trigger] b[i]) by {}
    separators_part_tokens(a, ' ', b + seq![' '] + tail);
    separators_part_tokens(b, ' ', tail);
    separators_part_tokens(token, ' ', rest);
    let tokens = version_tokens(text);
    assert(tokens =~= seq![a, b, token] + version_tokens(rest));
    assert(tokens[0] == a && tokens[1] == b && tokens[2] == token);
    assert(lower(b) =~= b);
    assert(lower(a).len() == 6);
    assert(!announced_at(tokens, 0));
    assert(announced_at(tokens, 1));
    assert(announced_from(tokens, 1) == Some(token));
    assert(announced_from(tokens, 0) == Some(token));
}

// ---------------------------------------------------------------------------
// Capabilities
// ---------------------------------------------------------------------------
/// Queries work where one was answered with exit code zero and without a complaint; they
/// do not where the option is unknown; anything else settles nothing.
pub proof fn queries_are_judged_by_their_answer(run: RunView)
    ensures
        ({
            let text = run_text(run);
            let unknown = exists|i: int| #[trigger] occurs_at(text, "Unknown option"@, i);
            let alone = exists|i: int| #[trigger] occurs_at(text, "No screen session found"@, i);
            let empty = exists|i: int| #[trigger] occurs_at(text, "No Sockets found"@, i);
            &&& unknown ==> query_support(run) == Support::No
            &&& query_support(run) == Support::Yes <==> run.code == 0 && !unknown && !is_usage_dump(
                text,
            ) && !alone && !empty
            &&& query_support(run) == Support::No <==> unknown || is_usage_dump(text)
        }),
{
    let text = run_text(run);
    texts_are_found_where_they_stand_first(text, "Unknown option"@);
    texts_are_found_where_they_stand_first(text, "No screen session found"@);
    texts_are_found_where_they_stand_first(text, "No Sockets found"@);
}

/// Snapshots work where one was written, whatever was printed; they do not where the
/// option is unknown; anything else settles nothing and is quoted.
pub proof fn snapshots_are_judged_by_what_was_written(run: RunView, written: u64)
    ensures
        ({
            let o = hardcopy_outcome_of(run, written);
            let text = run_text(run);
            let unknown = exists|i: int| #[trigger] occurs_at(text, "Unknown option"@, i);
            &&& hardcopy_support(o) == Support::Yes <==> written > 0
            &&& written > 0 ==> o == HardcopyView::Wrote(written)
            &&& hardcopy_support(o) == Support::No <==> written == 0 && (unknown || is_usage_dump(
                text,
            ))
            &&& o matches HardcopyView::Unsupported(line) ==> line == first_line_or_empty(text)
            &&& o matches HardcopyView::Inconclusive(line) ==> (first_line_or_empty(text).len() > 0
                ==> line == first_line_or_empty(text))
        }),
{
    texts_are_found_where_they_stand_first(run_text(run), "Unknown option"@);
}

/// The options in the first three lines give a usage text away.
pub proof fn usage_texts_are_recognised(text: Seq<char>)
    ensures
        is_usage_dump(text) <==> (exists|i: int| #[trigger]
            occurs_at(head_of(text, 3), "Use: screen"@, i)) || (exists|i: int| #[trigger]
            occurs_at(head_of(text, 3), "or: screen -r"@, i)),
        lines_of(text).len() == 1 ==> head_of(text, 3) == lines_of(text)[0],
{
    texts_are_found_where_they_stand_first(head_of(text, 3), "Use: screen"@);
    texts_are_found_where_they_stand_first(head_of(text, 3), "or: screen -r"@);
    let lines = lines_of(text);
    if lines.len() == 1 {
        assert(lines.take(1) =~= lines);
    }
}

/// What is known of a screen is what its version text said and what was tried: nothing
/// else is taken to work.
pub proof fn capabilities_are_what_was_tried(
    program: Seq<char>,
    version_run: RunView,
    full: Seq<char>,
    run: RunView,
)
    ensures
        ({
            let a = detected(program, version_run, None);
            let b = detected(program, version_run, Some((full, run)));
            &&& a.program == program && b.program == program
            &&& a.version == version_in(run_text(version_run)) && b.version == a.version
            &&& a.version_text == version_token_in(run_text(version_run)) && b.version_text
                == a.version_text
            &&& lines_of(version_run.stdout).len() > 0 ==> a.version_line == trim_of(
                lines_of(version_run.stdout)[0],
            ) && b.version_line == a.version_line
            &&& a.query == Support::Unknown && b.query == query_support(run)
            &&& a.probe_notes.len() == 2 && b.probe_notes.len() == 2
        }),
{
}

/// Queries and snapshots are asked of one session by its full address.
pub proof fn tries_address_one_session(full: Seq<char>, path: Seq<char>)
    ensures
        query_args_of(full) == seq!["-S"@, full, "-Q"@, "windows"@],
        hardcopy_args_of(full, false, path) == seq!["-S"@, full, "-X"@, "hardcopy"@, path],
        hardcopy_args_of(full, true, path) == seq!["-S"@, full, "-X"@, "hardcopy"@, "-h"@, path],
{
}

// ---------------------------------------------------------------------------
// What runs in a session
// ---------------------------------------------------------------------------
/// No byte is zero.
pub open spec fn no_zero(b: Seq<u8>) -> bool {
    forall|i: int| 0 <= i < b.len() ==> #[trigger] b[i] != 0
}

proof fn lemma_run_end(buf: Seq<u8>, i: int, j: int)
    requires
        0 <= i <= j <= buf.len(),
        forall|k: int| i <= k < j ==> #[trigger] buf[k] != 0,
        j < buf.len() ==> buf[j] == 0,
    ensures
        run_end(buf, i) == j,
    decreases j - i,
{
    if i < j {
        lemma_run_end(buf, i + 1, j);
    }
}

proof fn lemma_run_bound(buf: Seq<u8>, i: int)
    requires
        0 <= i <= buf.len(),
    ensures
        i <= run_end(buf, i) <= buf.len(),
    decreases buf.len() - i,
{
    if i < buf.len() && buf[i] != 0 {
        lemma_run_bound(buf, i + 1);
    }
}

proof fn lemma_run_shift(buf: Seq<u8>, off: int, i: int)
    requires
        0 <= off <= i <= buf.len(),
    ensures
        run_end(buf, i) == run_end(buf.skip(off), i - off) + off,
    decreases buf.len() - i,
{
    if i < buf.len() {
        assert(buf.skip(off)[i - off] == buf[i]);
        if buf[i] != 0 {
            lemma_run_shift(buf, off, i + 1);
        }
    }
}

proof fn lemma_strings_shift(buf: Seq<u8>, off: int, pos: int, limit: nat)
    requires
        0 <= off <= pos <= buf.len(),
    ensures
        strings_from(buf, pos, limit) == strings_from(buf.skip(off), pos - off, limit),
    decreases buf.len() - pos,
{
    let rest = buf.skip(off);
    if pos < buf.len() && limit > 0 {
        lemma_run_shift(buf, off, pos);
        lemma_run_bound(buf, pos);
        let end = run_end(buf, pos);
        assert(run_end(rest, pos - off) == end - off);
        if end <= pos {
            lemma_strings_shift(buf, off, pos + 1, limit);
        } else {
            assert(buf.subrange(pos, end) =~= rest.subrange(pos - off, end - off));
            if end < buf.len() {
                lemma_strings_shift(buf, off, end + 1, (limit - 1) as nat);
            }
        }
    }
}

/// The arguments of a process are what stands between the zero bytes.
pub proof fn zero_bytes_end_arguments(arg: Seq<u8>, rest: Seq<u8>, limit: nat)
    requires
        arg.len() > 0,
        no_zero(arg),
        limit > 0,
    ensures
        strings_from(arg + seq![0u8] + rest, 0, limit) == seq![arg] + strings_from(
            rest,
            0,
            (limit - 1) as nat,
        ),
        strings_from(arg, 0, limit) == seq![arg],
{
    let buf = arg + seq![0u8] + rest;
    let n = arg.len() as int;
    assert forall|k: int| 0 <= k < n implies #[trigger] buf[k] != 0 by {
        assert(buf[k] == arg[k]);
    }
    assert(buf[n] == 0);
    lemma_run_end(buf, 0, n);
    assert(buf.subrange(0, n) =~= arg);
    lemma_strings_shift(buf, n + 1, n + 1, (limit - 1) as nat);
    assert(buf.skip(n + 1) =~= rest);
    lemma_run_end(arg, 0, n);
    assert(arg.subrange(0, n) =~= arg);
}

/// A process with one argument, or with two, runs just those, with a space between them,
/// unless it is a screen itself.
pub proof fn commands_are_their_arguments(a: Seq<u8>, b: Seq<u8>)
    requires
        a.len() > 0,
        no_zero(a),
        b.len() > 0,
        no_zero(b),
        !is_screen(lossy_text(a)),
    ensures
        child_command_of(a + seq![0u8]) == Some(lossy_text(a)),
        child_command_of(a + seq![0u8] + b + seq![0u8]) == Some(
            lossy_text(a) + seq![' '] + lossy_text(b),
        ),
{
    reveal_strlit(" ");
    assert(" "@ =~= seq![' ']);
    let none = Seq::<u8>::empty();
    let one = a + seq![0u8];
    let two = a + seq![0u8] + b + seq![0u8];
    assert(one =~= a + seq![0u8] + none);
    zero_bytes_end_arguments(a, none, one.len());
    assert(texts_of(strings_from(one, 0, one.len())) =~= seq![lossy_text(a)]);
    assert(two =~= a + seq![0u8] + (b + seq![0u8] + none));
    zero_bytes_end_arguments(a, b + seq![0u8] + none, two.len());
    zero_bytes_end_arguments(b, none, (two.len() - 1) as nat);
    let words = texts_of(strings_from(two, 0, two.len()));
    assert(words =~= seq![lossy_text(a)].push(lossy_text(b)));
    separators_stand_between(seq![lossy_text(a)], " "@, lossy_text(b));
    separators_stand_between(seq![lossy_text(a)], " "@, lossy_text(a));
}

/// What runs in a session is the first of its children that is no screen itself.
pub proof fn the_first_command_counts(children: Seq<Option<Vec<u8>>>, i: int)
    requires
        0 <= i <= children.len(),
        forall|k: int|
            0 <= k < i ==> ((#[trigger] children[k]) matches Some(raw) ==> child_command_of(raw@)
                is None),
        i < children.len() ==> (children[i] matches Some(raw) && child_command_of(raw@) is Some),
    ensures
        i < children.len() ==> first_command(children) == child_command_of(children[i]->0@),
        i == children.len() ==> first_command(children) is None,
    decreases children.len(),
{
    if children.len() > 0 && i > 0 {
        let first = children[0];
        assert(children[0] matches Some(raw) ==> child_command_of(raw@) is None);
        let rest = children.drop_first();
        assert forall|k: int| 0 <= k < i - 1 implies ((
        #[trigger] rest[k]) matches Some(raw) ==> child_command_of(raw@) is None) by {
            assert(rest[k] == children[k + 1]);
        }
        the_first_command_counts(rest, i - 1);
        if i < children.len() {
            assert(rest[i - 1] == children[i]);
        }
    }
}

/// Something is known of a session where its directory or its command is, and then both
/// as far as they are.
pub proof fn what_was_found_is_kept(cwd: Option<Seq<char>>, command: Option<Seq<char>>)
    ensures
        combined(cwd, command) is Some <==> cwd is Some || command is Some,
        combined(cwd, command) matches Some(m) ==> m.cwd == cwd && m.command == command,
{
}

/// Where the names of the children are known, the first that is no screen itself counts,
/// with its arguments if they are known.
pub proof fn the_first_named_child_counts(children: Seq<ChildProcess>, i: int)
    requires
        0 <= i <= children.len(),
        forall|k: int|
            0 <= k < i ==> ((#[trigger] children[k]).comm matches Some(c) ==> is_screen(c@)),
        i < children.len() ==> (children[i].comm matches Some(c) && !is_screen(c@)),
    ensures
        i < children.len() ==> first_named_child(children) == Some(
            match children[i].argv {
                Some(argv) => argv@,
                None => children[i].comm->0@,
            },
        ),
        i == children.len() ==> first_named_child(children) is None,
    decreases children.len(),
{
    if children.len() > 0 && i > 0 {
        assert(children[0].comm matches Some(c) ==> is_screen(c@));
        let rest = children.drop_first();
        assert forall|k: int| 0 <= k < i - 1 implies ((
        #[trigger] rest[k]).comm matches Some(c) ==> is_screen(c@)) by {
            assert(rest[k] == children[k + 1]);
        }
        the_first_named_child_counts(rest, i - 1);
        if i < children.len() {
            assert(rest[i - 1] == children[i]);
        }
    }
}

proof fn lemma_last_component(dir: Seq<char>, file: Seq<char>)
    requires
        !file.contains('/'),
    ensures
        last_component(dir + seq!['/'] + file) == file,
        last_component(file) == file,
    decreases file.len(),
{
    let s = dir + seq!['/'] + file;
    if file.len() == 0 {
        assert(s.last() == '/');
        assert(last_component(s) =~= file);
        assert(last_component(file) =~= file);
    } else {
        let front = file.drop_last();
        assert(!front.contains('/')) by {
            if front.contains('/') {
                let k = choose|k: int| 0 <= k < front.len() && front[k] == '/';
                assert(file[k] == '/');
            }
        }
        lemma_last_component(dir, front);
        assert(s.drop_last() =~= dir + seq!['/'] + front);
        assert(s.last() == file.last() && file[file.len() - 1] != '/');
        assert(front.push(file.last()) =~= file);
    }
}

/// A screen is recognised by the name of its file, wherever it is and in capitals or not.
pub proof fn screens_are_recognised_by_their_name(dir: Seq<char>, file: Seq<char>)
    requires
        !file.contains('/'),
    ensures
        is_screen(dir + seq!['/'] + file) <==> lower(file) == "screen"@,
        is_screen(file) <==> lower(file) == "screen"@,
{
    lemma_last_component(dir, file);
}

/// A version is written as it is read.
pub proof fn versions_read_back(v: Version)
    ensures
        version_token_of(version_text(v)) == Some(v),
{
    reveal_strlit(".");
    assert("."@ =~= seq!['.']);
    let a = decimal_of(v.major as nat);
    let b = decimal_of(v.minor as nat);
    let c = decimal_of(v.patch as nat);
    lemma_decimal_digits(v.major as nat);
    lemma_decimal_digits(v.minor as nat);
    lemma_decimal_digits(v.patch as nat);
    versions_are_numbers_with_dots(a, b, c);
}

proof fn lemma_gap_end(buf: Seq<u8>, i: int, j: int)
    requires
        0 <= i <= j <= buf.len(),
        forall|k: int| i <= k < j ==> #[trigger] buf[k] == 0,
        j < buf.len() ==> buf[j] != 0,
    ensures
        gap_end(buf, i) == j,
    decreases j - i,
{
    if i < j {
        lemma_gap_end(buf, i + 1, j);
    }
}

/// Zero bytes only.
pub open spec fn all_zero(b: Seq<u8>) -> bool {
    forall|i: int| 0 <= i < b.len() ==> #[trigger] b[i] == 0
}

/// Behind the count, the path of the program and zero bytes come the arguments, as many as
/// the count says; what follows them is the environment and not looked at.
pub proof fn the_count_says_where_the_arguments_end(
    count: Seq<u8>,
    path: Seq<u8>,
    gap: Seq<u8>,
    arg: Seq<u8>,
    rest: Seq<u8>,
)
    requires
        count.len() == 4,
        path.len() > 0,
        no_zero(path),
        gap.len() > 0,
        all_zero(gap),
        arg.len() > 0,
        no_zero(arg),
    ensures
        procargs_of(1, count + path + gap + arg + seq![0u8] + rest) == Some(lossy_text(arg)),
        procargs_of(0, count + path + gap + arg + seq![0u8] + rest) is None,
{
    let buf = count + path + gap + arg + seq![0u8] + rest;
    let a = 4 + path.len() as int;
    let b = a + gap.len();
    assert forall|k: int| 4 <= k < a implies #[trigger] buf[k] != 0 by {
        assert(buf[k] == path[k - 4]);
    }
    assert(buf[a] == gap[0] && gap[0] == 0);
    lemma_run_end(buf, 4, a);
    assert forall|k: int| a <= k < b implies #[trigger] buf[k] == 0 by {
        assert(buf[k] == gap[k - a]);
    }
    assert(buf[b] == arg[0] && arg[0] != 0);
    lemma_gap_end(buf, a, b);
    lemma_strings_shift(buf, b, b, 1);
    assert(buf.skip(b) =~= arg + seq![0u8] + rest);
    zero_bytes_end_arguments(arg, rest, 1);
    assert(strings_from(rest, 0, 0) =~= Seq::<Seq<u8>>::empty());
    let strings = strings_from(buf, b, 1);
    assert(strings =~= seq![arg]);
    assert(texts_of(strings) =~= seq![lossy_text(arg)]);
    separators_stand_between(seq![lossy_text(arg)], " "@, lossy_text(arg));
}

/// The count is the first four bytes, the lowest first.
pub proof fn the_lowest_byte_comes_first(b0: u8, b1: u8, b2: u8, b3: u8)
    ensures
        little_endian(b0, 0, 0, 0) == b0,
        little_endian(b0, b1, b2, b3) == b0 + 256 * (b1 + 256 * (b2 + 256 * b3)),
{
}

/// An error says what it is about: the file, the program, the command and its code, or
/// what was printed.
pub proof fn errors_say_what_they_are_about(text: Seq<char>, more: Seq<char>, code: i32)
    ensures
        error_text(ErrorView::NotExecutable { path: text }) == "`"@ + text
            + "` is not an executable file"@,
        error_text(ErrorView::Spawn { program: text, source: more }) == "failed to spawn `"@ + text
            + "`: "@ + more,
        error_text(ErrorView::CommandFailed { command: text, code, stderr: more }) == "`"@ + text
            + "` exited with code "@ + signed_decimal_of(code as int) + ": "@ + more,
        error_text(ErrorView::UnrecognizedOutput(text)) == "unrecognized `screen -ls` output: "@
            + text,
        error_text(ErrorView::PreviewUnavailable(text)) == "preview unavailable: "@ + text,
        error_text(ErrorView::Temp(text)) == "temporary file error: "@ + text,
{
}

/// The record of a command names the terminal that was set for it, if one was.
pub proof fn the_terminal_is_recorded(program: Seq<char>, args: Seq<Seq<char>>, term: Seq<char>)
    ensures
        command_line_with_term(program, args, None) == command_line(program, args),
        command_line_with_term(program, args, Some(term)) == command_line(program, args)
            + " [TERM="@ + term + "]"@,
        command_line_with_term(program, args, Some(term)).len() > term.len(),
{
    reveal_strlit(" [TERM=");
}

/// What came of trying a snapshot is told with how much was written, or with what was said.
pub proof fn tries_are_told(bytes: u64, text: Seq<char>, full: Seq<char>, run: RunView)
    ensures
        hardcopy_detail(HardcopyView::Wrote(bytes)) == "hardcopy wrote "@ + decimal_of(bytes as nat)
            + " bytes"@,
        hardcopy_detail(HardcopyView::Unsupported(text))
            == "hardcopy reported unsupported by this screen build: "@ + text,
        hardcopy_detail(HardcopyView::Inconclusive(text)) == "hardcopy could not be verified: "@
            + text,
        query_note(full, run) == "`-Q windows` on "@ + full + ": exit "@ + signed_decimal_of(
            run.code as int,
        ) + " → query="@ + match query_support(run) {
            Support::Yes => "yes"@,
            Support::No => "no"@,
            Support::Unknown => "unknown"@,
        },
{
}

/// Where no word announces a version, the first word that is one counts; where one does,
/// the first that is announced.
pub proof fn the_first_version_counts(text: Seq<char>, i: int)
    requires
        0 <= i < version_tokens(text).len(),
    ensures
        ({
            let tokens = version_tokens(text);
            let is_announced = |k: int|
                0 <= k && k + 1 < tokens.len() && lower(tokens[k]) == "version"@
                    && version_token_of(tokens[k + 1]) is Some;
            &&& is_announced(i) && (forall|k: int| 0 <= k < i ==> !(#[trigger] is_announced(k)))
                ==> version_token_in(text) == Some(tokens[i + 1])
            &&& version_token_of(tokens[i]) is Some && (forall|k: int|
                0 <= k < i ==> version_token_of(#[trigger] tokens[k]) is None) && (forall|k: int|
                !(#[trigger] is_announced(k))) ==> version_token_in(text) == Some(tokens[i])
        }),
{
    let tokens = version_tokens(text);
    let is_announced = |k: int|
        0 <= k && k + 1 < tokens.len() && lower(tokens[k]) == "version"@ && version_token_of(
            tokens[k + 1],
        ) is Some;
    if is_announced(i) && (forall|k: int| 0 <= k < i ==> !(#[trigger] is_announced(k))) {
        assert forall|k: int| 0 <= k < i implies !(#[trigger] announced_at(tokens, k)) by {
            assert(!is_announced(k));
        }
        lemma_announced(tokens, 0, i);
    }
    if version_token_of(tokens[i]) is Some && (forall|k: int|
        0 <= k < i ==> version_token_of(#[trigger] tokens[k]) is None) && (forall|k: int|
        !(#[trigger] is_announced(k))) {
        assert forall|k: int| !(#[trigger] announced_at(tokens, k)) by {
            assert(!is_announced(k));
        }
        lemma_unannounced(tokens, 0);
        lemma_version_at(tokens, 0, i);
    }
}

proof fn lemma_announced(tokens: Seq<Seq<char>>, from: int, i: int)
    requires
        0 <= from <= i < tokens.len(),
        announced_at(tokens, i),
        forall|k: int| from <= k < i ==> !(#[trigger] announced_at(tokens, k)),
    ensures
        announced_from(tokens, from) == Some(tokens[i + 1]),
    decreases i - from,
{
    if from < i {
        assert(!announced_at(tokens, from));
        lemma_announced(tokens, from + 1, i);
    }
}

proof fn lemma_unannounced(tokens: Seq<Seq<char>>, from: int)
    requires
        0 <= from,
        forall|k: int| !(#[trigger] announced_at(tokens, k)),
    ensures
        announced_from(tokens, from) is None,
    decreases tokens.len() - from,
{
    if from < tokens.len() {
        assert(!announced_at(tokens, from));
        lemma_unannounced(tokens, from + 1);
    }
}

proof fn lemma_version_at(tokens: Seq<Seq<char>>, from: int, i: int)
    requires
        0 <= from <= i < tokens.len(),
        version_token_of(tokens[i]) is Some,
        forall|k: int| from <= k < i ==> version_token_of(#[trigger] tokens[k]) is None,
    ensures
        version_from(tokens, from) == Some(tokens[i]),
    decreases i - from,
{
    if from < i {
        assert(version_token_of(tokens[from]) is None);
        lemma_version_at(tokens, from + 1, i);
    }
}

/// The ways to connect, the states of a capability and the outcomes of the quick look each
/// have a word of their own.
pub proof fn outcomes_have_their_own_words(n: u32, code: i32)
    requires
        n <= u32::MAX - 10,
    ensures
        attach_kind_label(AttachKind::Resume) == "resume"@,
        attach_kind_label(AttachKind::Share) == "share (-x)"@,
        attach_kind_label(AttachKind::Takeover) == "takeover (-d -r)"@,
        support_label(Support::Yes) == "yes"@,
        support_label(Support::No) == "no"@,
        support_label(Support::Unknown) == "unknown"@,
        outlook_label(Outlook::NoSessions) == "no sessions (exit 9)"@,
        outlook_label(Outlook::Unconnectable) == "sessions exist but none connectable (exit 10)"@,
        outlook_label(Outlook::Available(n)) == "available (exit "@ + decimal_of((n + 10) as nat)
            + ")"@,
        outlook_label(Outlook::Inconclusive(code)) == "inconclusive (exit "@ + signed_decimal_of(
            code as int,
        ) + ", outside the documented 9/10/11+ table)"@,
{
}

/// The bytes in which the arguments of a process stand, each with a zero byte behind it.
pub open spec fn zero_ended(args: Seq<Seq<u8>>) -> Seq<u8>
    decreases args.len(),
{
    if args.len() == 0 {
        Seq::empty()
    } else {
        args[0] + seq![0u8] + zero_ended(args.drop_first())
    }
}

proof fn lemma_zero_ended(args: Seq<Seq<u8>>, limit: nat)
    requires
        forall|i: int| 0 <= i < args.len() ==> (#[trigger] args[i]).len() > 0 && no_zero(args[i]),
        limit >= args.len(),
    ensures
        strings_from(zero_ended(args), 0, limit) == args,
        zero_ended(args).len() >= args.len(),
    decreases args.len(),
{
    if args.len() == 0 {
        assert(strings_from(zero_ended(args), 0, limit) =~= args);
    } else {
        let rest = args.drop_first();
        assert(args[0].len() > 0 && no_zero(args[0]));
        assert forall|i: int| 0 <= i < rest.len() implies (#[trigger] rest[i]).len() > 0 && no_zero(
            rest[i],
        ) by {
            assert(rest[i] == args[i + 1]);
        }
        lemma_zero_ended(rest, (limit - 1) as nat);
        zero_bytes_end_arguments(args[0], zero_ended(rest), limit);
        assert(seq![args[0]] + rest =~= args);
    }
}

/// Whatever its number of arguments, what a process runs is all of them with spaces between
/// them, and nothing is said of a screen.
pub proof fn all_arguments_are_shown(args: Seq<Seq<u8>>)
    requires
        args.len() > 0,
        forall|i: int| 0 <= i < args.len() ==> (#[trigger] args[i]).len() > 0 && no_zero(args[i]),
    ensures
        ({
            let words = args.map_values(|a: Seq<u8>| lossy_text(a));
            &&& cmdline_of(zero_ended(args)) == words
            &&& !is_screen(words[0]) ==> child_command_of(zero_ended(args)) == Some(
                join_of(words, " "@),
            )
            &&& is_screen(words[0]) ==> child_command_of(zero_ended(args)) is None
        }),
{
    lemma_zero_ended(args, args.len());
    lemma_zero_ended(args, zero_ended(args).len());
}

} // verus!
