//! What the installed screen can do.
//!
//! Two rules. No version number is ever compared: a version is shown, and every
//! switch comes from a probe. And "not supported" is kept apart from "not
//! known", which is what a probe without a session to try it on yields.

use crate::screen::cmd::{
    Run, RunView, run_text,
};
use crate::text::{
    chars_of, clone_opt, clone_strings, contains, contains_text, decimal, decimal_of, is_space,
    is_whitespace, join, join_of, lines, lines_of, lower, lowercase_ascii, opt_view,
    parse_unsigned, read_unsigned, same_text, signed_decimal, signed_decimal_of, split_char,
    split_of, string_of, trim_of, trim_str, views,
};
use vstd::prelude::*;
use vstd::slice::slice_subrange;

verus! {

// ---------------------------------------------------------------------------
// Versions
// ---------------------------------------------------------------------------
#[derive(Debug, Clone, Copy, PartialEq, Eq, PartialOrd, Ord, Structural)]
pub struct Version {
    pub major: u32,
    pub minor: u32,
    pub patch: u32,
}

/// `<major>.<minor>.<patch>`.
pub open spec fn version_text(v: Version) -> Seq<char> {
    decimal_of(v.major as nat) + "."@ + decimal_of(v.minor as nat) + "."@ + decimal_of(
        v.patch as nat,
    )
}

impl Version {
    pub fn text(&self) -> (r: String)
        ensures
            r@ == version_text(*self),
    {
        let mut out: String = decimal(self.major as u64);
        out.append(".");
        out.append(decimal(self.minor as u64).as_str());
        out.append(".");
        out.append(decimal(self.patch as u64).as_str());
        out
    }
}

/// A number of 32 bits.
pub open spec fn parse_u32(s: Seq<char>) -> Option<nat> {
    parse_unsigned(s, 0xffff_ffff)
}

/// Two or three numbers with dots between them; the third is zero if missing.
pub open spec fn version_token_of(token: Seq<char>) -> Option<Version> {
    let parts = split_of(token, '.');
    if parts.len() == 2 || parts.len() == 3 {
        let patch = if parts.len() == 3 {
            parse_u32(parts[2])
        } else {
            Some(0nat)
        };
        match (parse_u32(parts[0]), parse_u32(parts[1]), patch) {
            (Some(a), Some(b), Some(c)) => Some(
                Version { major: a as u32, minor: b as u32, patch: c as u32 },
            ),
            _ => None,
        }
    } else {
        None
    }
}

fn read_u32(s: &str) -> (r: Option<u32>)
    ensures
        match parse_u32(s@) {
            Some(v) => r == Some(v as u32) && v <= 0xffff_ffff,
            None => r is None,
        },
{
    let chars: Vec<char> = chars_of(s);
    match read_unsigned(chars.as_slice(), 0xffff_ffff) {
        Some(v) => Some(v as u32),
        None => None,
    }
}

pub fn parse_version_token(token: &str) -> (r: Option<Version>)
    ensures
        r == version_token_of(token@),
{
    let chars: Vec<char> = chars_of(token);
    let parts: Vec<String> = split_char(chars.as_slice(), '.');
    let ghost texts = split_of(token@, '.');
    if parts.len() != 2 && parts.len() != 3 {
        return None;
    }
    assert(texts[0] == parts@[0]@ && texts[1] == parts@[1]@);
    let major: u32 = match read_u32(parts[0].as_str()) {
        Some(v) => v,
        None => {
            return None;
        },
    };
    let minor: u32 = match read_u32(parts[1].as_str()) {
        Some(v) => v,
        None => {
            return None;
        },
    };
    let patch: u32 = if parts.len() == 3 {
        assert(texts[2] == parts@[2]@);
        match read_u32(parts[2].as_str()) {
            Some(v) => v,
            None => {
                return None;
            },
        }
    } else {
        0
    };
    Some(Version { major, minor, patch })
}

/// White space, brackets and commas part the tokens of a version line.
pub open spec fn is_separator(c: char) -> bool {
    is_space(c) || c == '(' || c == ')' || c == ','
}

/// The tokens that a scan from `i` finishes, where the current one began at `start`.
pub open spec fn tokens_from(text: Seq<char>, i: int, start: int) -> Seq<Seq<char>>
    decreases text.len() - i,
{
    let done = if start < i {
        seq![text.subrange(start, i)]
    } else {
        Seq::empty()
    };
    if i < 0 || i >= text.len() {
        done
    } else if is_separator(text[i]) {
        done + tokens_from(text, i + 1, i + 1)
    } else {
        tokens_from(text, i + 1, start)
    }
}

/// The maximal runs of characters that are no separators.
pub open spec fn version_tokens(text: Seq<char>) -> Seq<Seq<char>> {
    tokens_from(text, 0, 0)
}

fn tokens(text: &str) -> (r: Vec<String>)
    ensures
        views(r@) == version_tokens(text@),
{
    let chars: Vec<char> = chars_of(text);
    let mut out: Vec<String> = Vec::new();
    let mut i: usize = 0;
    let mut start: usize = 0;
    assert(views(out@) + tokens_from(text@, 0, 0) =~= version_tokens(text@));
    while i < chars.len()
        invariant
            chars@ == text@,
            start <= i <= chars@.len(),
            views(out@) + tokens_from(text@, i as int, start as int) == version_tokens(text@),
        decreases chars.len() - i,
    {
        let c: char = chars[i];
        if is_whitespace(c) || c == '(' || c == ')' || c == ',' {
            let ghost before = views(out@);
            let ghost tail = tokens_from(text@, i + 1, i + 1);
            if start < i {
                let piece = slice_subrange(chars.as_slice(), start, i);
                let owned: String = string_of(piece);
                out.push(owned);
                assert(views(out@) =~= before.push(text@.subrange(start as int, i as int)));
            }
            assert(views(out@) + tail =~= before + tokens_from(
                text@,
                i as int,
                start as int,
            ));
            start = i + 1;
        }
        i += 1;
    }
    let ghost before = views(out@);
    if start < i {
        let piece = slice_subrange(chars.as_slice(), start, i);
        let owned: String = string_of(piece);
        out.push(owned);
        assert(views(out@) =~= before.push(text@.subrange(start as int, i as int)));
    }
    assert(views(out@) =~= before + tokens_from(text@, i as int, start as int));
    out
}

/// The token at `i` is the word "version" and a version number follows it.
pub open spec fn announced_at(tokens: Seq<Seq<char>>, i: int) -> bool {
    &&& 0 <= i
    &&& i + 1 < tokens.len()
    &&& lower(tokens[i]) == "version"@
    &&& version_token_of(tokens[i + 1]) is Some
}

/// The first announced version at or after `i`.
pub open spec fn announced_from(tokens: Seq<Seq<char>>, i: int) -> Option<Seq<char>>
    decreases tokens.len() - i,
{
    if i < 0 || i >= tokens.len() {
        None
    } else if announced_at(tokens, i) {
        Some(tokens[i + 1])
    } else {
        announced_from(tokens, i + 1)
    }
}

/// The first token at or after `i` that is a version number.
pub open spec fn version_from(tokens: Seq<Seq<char>>, i: int) -> Option<Seq<char>>
    decreases tokens.len() - i,
{
    if i < 0 || i >= tokens.len() {
        None
    } else if version_token_of(tokens[i]) is Some {
        Some(tokens[i])
    } else {
        version_from(tokens, i + 1)
    }
}

/// The version number in a text as it is written: one that follows the word
/// "version" if there is one, else the first.
pub open spec fn version_token_in(text: Seq<char>) -> Option<Seq<char>> {
    let tokens = version_tokens(text);
    match announced_from(tokens, 0) {
        Some(t) => Some(t),
        None => version_from(tokens, 0),
    }
}

pub fn find_version_token(text: &str) -> (r: Option<String>)
    ensures
        opt_view(r) == version_token_in(text@),
{
    let list: Vec<String> = tokens(text);
    let ghost all = version_tokens(text@);
    let mut i: usize = 0;
    while i < list.len()
        invariant
            views(list@) == all,
            all == version_tokens(text@),
            i <= list@.len(),
            announced_from(all, 0) == announced_from(all, i as int),
        decreases list.len() - i,
    {
        assert(all[i as int] == list@[i as int]@);
        let chars: Vec<char> = chars_of(list[i].as_str());
        let key: Vec<char> = lowercase_ascii(chars.as_slice());
        if i + 1 < list.len() && same_text(key.as_slice(), "version") {
            assert(all[i + 1] == list@[i + 1]@);
            if parse_version_token(list[i + 1].as_str()).is_some() {
                return Some(list[i + 1].clone());
            }
        }
        i += 1;
    }
    let mut k: usize = 0;
    while k < list.len()
        invariant
            views(list@) == all,
            all == version_tokens(text@),
            k <= list@.len(),
            announced_from(all, 0) is None,
            version_from(all, 0) == version_from(all, k as int),
        decreases list.len() - k,
    {
        assert(all[k as int] == list@[k as int]@);
        if parse_version_token(list[k].as_str()).is_some() {
            return Some(list[k].clone());
        }
        k += 1;
    }
    None
}

pub open spec fn version_in(text: Seq<char>) -> Option<Version> {
    match version_token_in(text) {
        Some(t) => version_token_of(t),
        None => None,
    }
}

/// The version number in the output of `screen -v`.
pub fn parse_version(text: &str) -> (r: Option<Version>)
    ensures
        r == version_in(text@),
{
    match find_version_token(text) {
        Some(t) => parse_version_token(t.as_str()),
        None => None,
    }
}

// ---------------------------------------------------------------------------
// Support
// ---------------------------------------------------------------------------
/// What is known of a capability.
#[derive(Debug, Clone, Copy, PartialEq, Eq, Structural)]
pub enum Support {
    /// It was seen to work.
    Yes,
    /// It was seen not to work.
    No,
    /// It could not be tried, which is not the same as not working.
    Unknown,
}

pub open spec fn support_label(s: Support) -> Seq<char> {
    match s {
        Support::Yes => "yes"@,
        Support::No => "no"@,
        Support::Unknown => "unknown"@,
    }
}

impl Support {
    pub fn label(self) -> (r: &'static str)
        ensures
            r@ == support_label(self),
    {
        match self {
            Support::Yes => "yes",
            Support::No => "no",
            Support::Unknown => "unknown",
        }
    }

    /// Whether the capability may be used; what is not known is not used.
    pub fn usable(self) -> (r: bool)
        ensures
            r == (self == Support::Yes),
    {
        match self {
            Support::Yes => true,
            _ => false,
        }
    }
}

/// The first lines of a text, with line ends between them.
pub open spec fn head_of(text: Seq<char>, n: nat) -> Seq<char> {
    let lines = lines_of(text);
    join_of(
        lines.take(
            if lines.len() <= n {
                lines.len() as int
            } else {
                n as int
            },
        ),
        "\n"@,
    )
}

/// The summary of options that screen prints in place of an answer.
pub open spec fn is_usage_dump(text: Seq<char>) -> bool {
    contains_text(head_of(text, 3), "Use: screen"@) || contains_text(
        head_of(text, 3),
        "or: screen -r"@,
    )
}

pub fn looks_like_usage_dump(text: &str) -> (r: bool)
    ensures
        r == is_usage_dump(text@),
{
    let all: Vec<String> = lines(text);
    let mut head: Vec<String> = Vec::new();
    let mut i: usize = 0;
    while i < all.len() && i < 3
        invariant
            i <= all@.len(),
            i <= 3,
            head@.len() == i,
            forall|k: int| 0 <= k < i ==> (#[trigger] head@[k])@ == all@[k]@,
        decreases all.len() - i,
    {
        head.push(all[i].clone());
        i += 1;
    }
    let ghost n = if lines_of(text@).len() <= 3 {
        lines_of(text@).len() as int
    } else {
        3
    };
    assert(views(all@).len() == all@.len());
    assert(views(head@) =~= lines_of(text@).take(n)) by {
        assert forall|k: int| 0 <= k < i implies views(head@)[k] == lines_of(text@)[k] by {
            assert(views(all@)[k] == all@[k]@);
            assert(head@[k]@ == all@[k]@);
        }
    }
    let joined: String = join(&head, "\n");
    contains(joined.as_str(), "Use: screen") || contains(joined.as_str(), "or: screen -r")
}

/// The first line that is not blank, trimmed; `None` if there is none.
pub open spec fn first_solid_line(lines: Seq<Seq<char>>) -> Option<Seq<char>>
    decreases lines.len(),
{
    if lines.len() == 0 {
        None
    } else if trim_of(lines[0]).len() > 0 {
        Some(trim_of(lines[0]))
    } else {
        first_solid_line(lines.drop_first())
    }
}

/// The first line of `text` that is not blank, trimmed.
pub fn solid_line(text: &str) -> (r: Option<String>)
    ensures
        opt_view(r) == first_solid_line(lines_of(text@)),
{
    let all: Vec<String> = lines(text);
    let ghost texts = lines_of(text@);
    let mut i: usize = 0;
    assert(texts.skip(0) =~= texts);
    while i < all.len()
        invariant
            i <= all@.len(),
            views(all@) == texts,
            texts == lines_of(text@),
            first_solid_line(texts) == first_solid_line(texts.skip(i as int)),
        decreases all.len() - i,
    {
        assert(texts.skip(i as int)[0] == all@[i as int]@);
        let t: String = trim_str(all[i].as_str());
        if !t.as_str().is_empty() {
            return Some(t);
        }
        assert(texts.skip(i as int).drop_first() =~= texts.skip(i + 1));
        i += 1;
    }
    None
}

pub open spec fn first_line_or_empty(text: Seq<char>) -> Seq<char> {
    match first_solid_line(lines_of(text)) {
        Some(l) => l,
        None => Seq::empty(),
    }
}

pub fn first_meaningful_line(text: &str) -> (r: String)
    ensures
        r@ == first_line_or_empty(text@),
{
    match solid_line(text) {
        Some(l) => l,
        None => String::new(),
    }
}

/// What an attempt at `-Q` shows: an error about the option or a summary of
/// options is a no; a missing session leaves the question open; an exit code of
/// zero is a yes.
pub open spec fn query_support(run: RunView) -> Support {
    let text = run_text(run);
    if contains_text(text, "Unknown option"@) || is_usage_dump(text) {
        Support::No
    } else if contains_text(text, "No screen session found"@) || contains_text(
        text,
        "No Sockets found"@,
    ) {
        Support::Unknown
    } else if run.code == 0 {
        Support::Yes
    } else {
        Support::Unknown
    }
}

pub fn classify_query(run: &Run) -> (r: Support)
    ensures
        r == query_support(run@),
{
    let text: String = run.text();
    if contains(text.as_str(), "Unknown option") || looks_like_usage_dump(text.as_str()) {
        return Support::No;
    }
    if contains(text.as_str(), "No screen session found") || contains(
        text.as_str(),
        "No Sockets found",
    ) {
        return Support::Unknown;
    }
    if run.success() {
        return Support::Yes;
    }
    Support::Unknown
}

// ---------------------------------------------------------------------------
// Hardcopy
// ---------------------------------------------------------------------------
/// What a trial hardcopy led to.
#[derive(Debug)]
pub enum HardcopyOutcome {
    Wrote(u64),
    Unsupported(String),
    Inconclusive(String),
}

/// The model of a [`HardcopyOutcome`].
pub enum HardcopyView {
    Wrote(u64),
    Unsupported(Seq<char>),
    Inconclusive(Seq<char>),
}

impl View for HardcopyOutcome {
    type V = HardcopyView;

    open spec fn view(&self) -> HardcopyView {
        match *self {
            HardcopyOutcome::Wrote(n) => HardcopyView::Wrote(n),
            HardcopyOutcome::Unsupported(text) => HardcopyView::Unsupported(text@),
            HardcopyOutcome::Inconclusive(text) => HardcopyView::Inconclusive(text@),
        }
    }
}

pub open spec fn hardcopy_args_of(
    full: Seq<char>,
    history: bool,
    path: Seq<char>,
) -> Seq<Seq<char>> {
    if history {
        seq!["-S"@, full, "-X"@, "hardcopy"@, "-h"@, path]
    } else {
        seq!["-S"@, full, "-X"@, "hardcopy"@, path]
    }
}

/// Arguments that write the screen of a session to a file.
pub fn hardcopy_args(full: &str, history: bool, path: &str) -> (r: Vec<String>)
    ensures
        views(r@) == hardcopy_args_of(full@, history, path@),
{
    let mut args: Vec<String> = Vec::new();
    args.push("-S".to_owned());
    args.push(full.to_owned());
    args.push("-X".to_owned());
    args.push("hardcopy".to_owned());
    if history {
        args.push("-h".to_owned());
    }
    args.push(path.to_owned());
    assert(views(args@) =~= hardcopy_args_of(full@, history, path@));
    args
}

pub open spec fn hardcopy_outcome_of(run: RunView, written: u64) -> HardcopyView {
    let text = run_text(run);
    let line = first_line_or_empty(text);
    if written > 0 {
        HardcopyView::Wrote(written)
    } else if is_usage_dump(text) || contains_text(text, "Unknown option"@) {
        HardcopyView::Unsupported(line)
    } else if line.len() == 0 {
        HardcopyView::Inconclusive("no output, exit "@ + signed_decimal_of(run.code as int))
    } else {
        HardcopyView::Inconclusive(line)
    }
}

/// Judges a trial hardcopy by what it printed and how many bytes it wrote.
pub fn hardcopy_once(run: &Run, written: u64) -> (r: HardcopyOutcome)
    ensures
        r@ == hardcopy_outcome_of(run@, written),
{
    if written > 0 {
        return HardcopyOutcome::Wrote(written);
    }
    let text: String = run.text();
    let line: String = first_meaningful_line(text.as_str());
    if looks_like_usage_dump(text.as_str()) || contains(text.as_str(), "Unknown option") {
        return HardcopyOutcome::Unsupported(line);
    }
    if line.as_str().is_empty() {
        let mut out: String = "no output, exit ".to_owned();
        out.append(signed_decimal(run.code as i64).as_str());
        HardcopyOutcome::Inconclusive(out)
    } else {
        HardcopyOutcome::Inconclusive(line)
    }
}

/// What the trial hardcopies of a session showed.
#[derive(Debug)]
pub struct HardcopyProbe {
    pub hardcopy: Support,
    pub history: Support,
    /// The reason in words.
    pub detail: String,
}

/// The model of a [`HardcopyProbe`].
#[verifier::ext_equal]
pub struct ProbeView {
    pub hardcopy: Support,
    pub history: Support,
    pub detail: Seq<char>,
}

impl View for HardcopyProbe {
    type V = ProbeView;

    open spec fn view(&self) -> ProbeView {
        ProbeView { hardcopy: self.hardcopy, history: self.history, detail: self.detail@ }
    }
}

pub open spec fn hardcopy_support(o: HardcopyView) -> Support {
    match o {
        HardcopyView::Wrote(_) => Support::Yes,
        HardcopyView::Unsupported(_) => Support::No,
        HardcopyView::Inconclusive(_) => Support::Unknown,
    }
}

pub open spec fn hardcopy_detail(o: HardcopyView) -> Seq<char> {
    match o {
        HardcopyView::Wrote(bytes) => "hardcopy wrote "@ + decimal_of(bytes as nat) + " bytes"@,
        HardcopyView::Unsupported(text) =>
            "hardcopy reported unsupported by this screen build: "@ + text,
        HardcopyView::Inconclusive(text) => "hardcopy could not be verified: "@ + text,
    }
}

fn support_of(o: &HardcopyOutcome) -> (r: Support)
    ensures
        r == hardcopy_support(o@),
{
    match o {
        HardcopyOutcome::Wrote(_) => Support::Yes,
        HardcopyOutcome::Unsupported(_) => Support::No,
        HardcopyOutcome::Inconclusive(_) => Support::Unknown,
    }
}

/// Puts the two trials together: without and with the scroll-back buffer.
pub fn probe_hardcopy(plain: &HardcopyOutcome, history: &HardcopyOutcome) -> (r: HardcopyProbe)
    ensures
        r@ == (ProbeView {
            hardcopy: hardcopy_support(plain@),
            history: hardcopy_support(history@),
            detail: hardcopy_detail(plain@),
        }),
{
    let mut detail: String = String::new();
    match plain {
        HardcopyOutcome::Wrote(bytes) => {
            detail.append("hardcopy wrote ");
            detail.append(decimal(*bytes).as_str());
            detail.append(" bytes");
        },
        HardcopyOutcome::Unsupported(text) => {
            detail.append("hardcopy reported unsupported by this screen build: ");
            detail.append(text.as_str());
        },
        HardcopyOutcome::Inconclusive(text) => {
            detail.append("hardcopy could not be verified: ");
            detail.append(text.as_str());
        },
    }
    assert(detail@ =~= hardcopy_detail(plain@));
    HardcopyProbe { hardcopy: support_of(plain), history: support_of(history), detail }
}

// ---------------------------------------------------------------------------
// Capabilities
// ---------------------------------------------------------------------------
/// The capabilities, probed once at the start.
#[derive(Debug)]
pub struct Caps {
    pub program: String,
    /// The first line of `screen -v`.
    pub version_line: String,
    pub version: Option<Version>,
    /// The version number as it was printed, with its leading zeros.
    pub version_text: Option<String>,
    /// Remote queries with `-Q`.
    pub query: Support,
    /// `-X hardcopy`.
    pub hardcopy: Support,
    /// `-X hardcopy -h`.
    pub hardcopy_history: Support,
    /// SGR mouse reports; no probe can tell, so they stay off.
    pub mouse_sgr: bool,
    /// The escape prefix for hints.
    pub escape_prefix: String,
    /// What was probed and why it turned out so.
    pub probe_notes: Vec<String>,
}

/// The model of [`Caps`].
#[verifier::ext_equal]
pub struct CapsView {
    pub program: Seq<char>,
    pub version_line: Seq<char>,
    pub version: Option<Version>,
    pub version_text: Option<Seq<char>>,
    pub query: Support,
    pub hardcopy: Support,
    pub hardcopy_history: Support,
    pub mouse_sgr: bool,
    pub escape_prefix: Seq<char>,
    pub probe_notes: Seq<Seq<char>>,
}

impl View for Caps {
    type V = CapsView;

    open spec fn view(&self) -> CapsView {
        CapsView {
            program: self.program@,
            version_line: self.version_line@,
            version: self.version,
            version_text: opt_view(self.version_text),
            query: self.query,
            hardcopy: self.hardcopy,
            hardcopy_history: self.hardcopy_history,
            mouse_sgr: self.mouse_sgr,
            escape_prefix: self.escape_prefix@,
            probe_notes: views(self.probe_notes@),
        }
    }
}

/// Nothing probed: everything unknown.
pub open spec fn unprobed(program: Seq<char>) -> CapsView {
    CapsView {
        program,
        version_line: Seq::empty(),
        version: None,
        version_text: None,
        query: Support::Unknown,
        hardcopy: Support::Unknown,
        hardcopy_history: Support::Unknown,
        mouse_sgr: false,
        escape_prefix: "C-a"@,
        probe_notes: Seq::empty(),
    }
}

impl Default for Caps {
    fn default() -> (r: Self)
        ensures
            r@ == unprobed("screen"@),
    {
        let r = Caps {
            program: "screen".to_owned(),
            version_line: String::new(),
            version: None,
            version_text: None,
            query: Support::Unknown,
            hardcopy: Support::Unknown,
            hardcopy_history: Support::Unknown,
            mouse_sgr: false,
            escape_prefix: "C-a".to_owned(),
            probe_notes: Vec::new(),
        };
        assert(r@ =~= unprobed("screen"@));
        r
    }
}

impl Clone for Caps {
    fn clone(&self) -> (r: Self)
        ensures
            r@ == self@,
    {
        Caps {
            program: self.program.clone(),
            version_line: self.version_line.clone(),
            version: self.version,
            version_text: clone_opt(&self.version_text),
            query: self.query,
            hardcopy: self.hardcopy,
            hardcopy_history: self.hardcopy_history,
            mouse_sgr: self.mouse_sgr,
            escape_prefix: self.escape_prefix.clone(),
            probe_notes: clone_strings(&self.probe_notes),
        }
    }
}

pub open spec fn version_note(version: Option<Version>) -> Seq<char> {
    match version {
        Some(v) => "parsed version "@ + version_text(v) + " from `screen -v`"@,
        None =>
            "could not parse a version number from `screen -v` output; capability flags fall back to probes"@,
    }
}

pub open spec fn query_note(full: Seq<char>, run: RunView) -> Seq<char> {
    "`-Q windows` on "@ + full + ": exit "@ + signed_decimal_of(run.code as int) + " → query="@
        + support_label(query_support(run))
}

/// The first line of a text, trimmed.
pub open spec fn headline(text: Seq<char>) -> Seq<char> {
    let lines = lines_of(text);
    if lines.len() == 0 {
        Seq::empty()
    } else {
        trim_of(lines[0])
    }
}

/// The capabilities with the version filled in.
pub open spec fn with_version(program: Seq<char>, run: RunView) -> CapsView {
    CapsView {
        version_line: headline(run.stdout),
        version: version_in(run_text(run)),
        version_text: version_token_in(run_text(run)),
        probe_notes: seq![version_note(version_in(run_text(run)))],
        ..unprobed(program)
    }
}

/// What the runs of `screen -v` and `screen -Q windows` show.
pub open spec fn detected(
    program: Seq<char>,
    version_run: RunView,
    query: Option<(Seq<char>, RunView)>,
) -> CapsView {
    let base = with_version(program, version_run);
    match query {
        Some((full, run)) => CapsView {
            query: query_support(run),
            probe_notes: base.probe_notes.push(query_note(full, run)),
            ..base
        },
        None => CapsView {
            probe_notes: base.probe_notes.push(
                "no session available to test `-Q`, query support left unknown"@,
            ),
            ..base
        },
    }
}

pub open spec fn query_args_of(full: Seq<char>) -> Seq<Seq<char>> {
    seq!["-S"@, full, "-Q"@, "windows"@]
}

/// Arguments that ask a session for its windows.
pub fn query_args(full: &str) -> (r: Vec<String>)
    ensures
        views(r@) == query_args_of(full@),
{
    let mut args: Vec<String> = Vec::new();
    args.push("-S".to_owned());
    args.push(full.to_owned());
    args.push("-Q".to_owned());
    args.push("windows".to_owned());
    assert(views(args@) =~= query_args_of(full@));
    args
}

fn push_note(notes: &mut Vec<String>, s: String)
    ensures
        views(final(notes)@) == views(old(notes)@).push(s@),
{
    let ghost before = views(notes@);
    notes.push(s);
    assert(views(notes@) =~= before.push(s@));
}

impl Caps {
    /// Reads the runs of `screen -v` and, where a session was there to try it
    /// on, `screen -S <full> -Q windows`.
    pub fn detect(program: String, version_run: &Run, query: Option<(&str, &Run)>) -> (r: Caps)
        ensures
            r@ == detected(
                program@,
                version_run@,
                match query {
                    Some((full, run)) => Some((full@, run@)),
                    None => None,
                },
            ),
    {
        let head: Vec<String> = lines(version_run.stdout.as_str());
        let version_line: String = if head.len() > 0 {
            assert(lines_of(version_run.stdout@)[0] == head@[0]@);
            trim_str(head[0].as_str())
        } else {
            String::new()
        };
        let text: String = version_run.text();
        let version: Option<Version> = parse_version(text.as_str());
        let version_text: Option<String> = find_version_token(text.as_str());
        let mut note: String = String::new();
        match version {
            Some(v) => {
                note.append("parsed version ");
                note.append(v.text().as_str());
                note.append(" from `screen -v`");
            },
            None => {
                note.append(
                    "could not parse a version number from `screen -v` output; capability flags fall back to probes",
                );
            },
        }
        assert(note@ =~= version_note(version));
        let mut notes: Vec<String> = Vec::new();
        push_note(&mut notes, note);
        assert(views(notes@) =~= seq![version_note(version)]);
        let mut caps = Caps {
            program,
            version_line,
            version,
            version_text,
            query: Support::Unknown,
            hardcopy: Support::Unknown,
            hardcopy_history: Support::Unknown,
            mouse_sgr: false,
            escape_prefix: "C-a".to_owned(),
            probe_notes: notes,
        };
        assert(caps@ =~= with_version(program@, version_run@));
        match query {
            Some((full, run)) => {
                caps.probe_query(full, run);
            },
            None => {
                push_note(
                    &mut caps.probe_notes,
                    "no session available to test `-Q`, query support left unknown".to_owned(),
                );
            },
        }
        caps
    }

    /// Takes over what a run of `-Q windows` on `full` shows.
    pub fn probe_query(&mut self, full: &str, run: &Run)
        ensures
            final(self)@ == (CapsView {
                query: query_support(run@),
                probe_notes: old(self)@.probe_notes.push(query_note(full@, run@)),
                ..old(self)@
            }),
    {
        self.query = classify_query(run);
        let mut note: String = "`-Q windows` on ".to_owned();
        note.append(full);
        note.append(": exit ");
        note.append(signed_decimal(run.code as i64).as_str());
        note.append(" → query=");
        note.append(self.query.label());
        push_note(&mut self.probe_notes, note);
    }

    /// Takes over the result of [`probe_hardcopy`].
    pub fn apply_hardcopy_probe(&mut self, probe: &HardcopyProbe)
        ensures
            final(self)@ == (CapsView {
                hardcopy: probe.hardcopy,
                hardcopy_history: probe.history,
                probe_notes: old(self)@.probe_notes.push(probe.detail@),
                ..old(self)@
            }),
    {
        self.hardcopy = probe.hardcopy;
        self.hardcopy_history = probe.history;
        push_note(&mut self.probe_notes, probe.detail.clone());
    }

    /// The version for display.
    pub fn version_display(&self) -> (r: &str)
        ensures
            r@ == match self@.version_text {
                Some(t) => t,
                None => "unknown"@,
            },
    {
        match &self.version_text {
            Some(t) => t.as_str(),
            None => "unknown",
        }
    }
}

/// Nothing is used that was not seen to work: without a session to try `-Q` on,
/// and after any run that does not end in success, queries stay unusable.
pub proof fn nothing_unproven_is_usable(
    program: Seq<char>,
    version_run: RunView,
    full: Seq<char>,
    run: RunView,
)
    ensures
        detected(program, version_run, None).query == Support::Unknown,
        run.code != 0 ==> detected(program, version_run, Some((full, run))).query != Support::Yes,
        detected(program, version_run, Some((full, run))).hardcopy == Support::Unknown,
        !detected(program, version_run, None).mouse_sgr,
{
}

} // verus!
