//! Reading `screen -ls`, and the exit code of `screen -q -ls`.
//!
//! The exit code is only a hint: its documented meaning does not hold on old
//! versions (4.00.03 returns 8 for an empty list), so the listing is the one
//! source of detail. Output that cannot be read is an error, never a guess.

use super::cmd::{run_text, Run, RunView};
use super::{Error, ErrorView, error_text};
use crate::text::{
    chars_of, clone_opt, clone_strings, contains_char, decimal, decimal_of, find, find_in,
    first_word, first_word_of, index_of_char, is_ascii_digit, is_digit, join, join_of, less,
    lines, lines_of, lower, lowercase_ascii, opt_view, parse_digits, read_digits, same_str,
    same_text, signed_decimal, signed_decimal_of, starts_with, starts_with_text, string_of,
    strip_cr, text_less, trim, trim_of, trim_start, trim_start_of, trim_str, until_char, views,
    without_cr,
};
use vstd::prelude::*;
use vstd::slice::slice_subrange;

verus! {

// ---------------------------------------------------------------------------
// Status
// ---------------------------------------------------------------------------
/// The state of a session.
#[derive(Debug, PartialEq, Eq)]
pub enum Status {
    Detached,
    Attached,
    Multi,
    Dead,
    Unreachable,
    /// A state word that is not known, kept as it was printed.
    Unknown(String),
}

/// The model of a [`Status`].
pub enum StatusView {
    Detached,
    Attached,
    Multi,
    Dead,
    Unreachable,
    Unknown(Seq<char>),
}

impl View for Status {
    type V = StatusView;

    open spec fn view(&self) -> StatusView {
        match *self {
            Status::Detached => StatusView::Detached,
            Status::Attached => StatusView::Attached,
            Status::Multi => StatusView::Multi,
            Status::Dead => StatusView::Dead,
            Status::Unreachable => StatusView::Unreachable,
            Status::Unknown(raw) => StatusView::Unknown(raw@),
        }
    }
}

impl Clone for Status {
    fn clone(&self) -> (r: Self)
        ensures
            r@ == self@,
    {
        match self {
            Status::Detached => Status::Detached,
            Status::Attached => Status::Attached,
            Status::Multi => Status::Multi,
            Status::Dead => Status::Dead,
            Status::Unreachable => Status::Unreachable,
            Status::Unknown(raw) => Status::Unknown(raw.clone()),
        }
    }
}

/// The text without the commas at its end.
pub open spec fn strip_commas(s: Seq<char>) -> Seq<char>
    decreases s.len(),
{
    if s.len() > 0 && s.last() == ',' {
        strip_commas(s.drop_last())
    } else {
        s
    }
}

/// The state that a state word stands for. Only its first word counts, without
/// commas and regardless of case; an unknown one is kept whole, trimmed.
pub open spec fn status_of(word: Seq<char>) -> StatusView {
    let key = lower(strip_commas(first_word_of(word)));
    if key == "detached"@ {
        StatusView::Detached
    } else if key == "attached"@ {
        StatusView::Attached
    } else if key == "multi"@ {
        StatusView::Multi
    } else if key == "dead"@ {
        StatusView::Dead
    } else if key == "unreachable"@ {
        StatusView::Unreachable
    } else {
        StatusView::Unknown(trim_of(word))
    }
}

pub open spec fn status_label(s: StatusView) -> Seq<char> {
    match s {
        StatusView::Detached => "detached"@,
        StatusView::Attached => "attached"@,
        StatusView::Multi => "multi"@,
        StatusView::Dead => "dead"@,
        StatusView::Unreachable => "unreachable"@,
        StatusView::Unknown(raw) => raw,
    }
}

/// A state in which a connection may be tried at all.
pub open spec fn connectable(s: StatusView) -> bool {
    s is Detached || s is Attached || s is Multi
}

fn without_commas(s: &[char]) -> (r: &[char])
    ensures
        r@ == strip_commas(s@),
{
    let mut n: usize = s.len();
    assert(s@.take(n as int) =~= s@);
    while n > 0 && s[n - 1] == ','
        invariant
            n <= s@.len(),
            strip_commas(s@.take(n as int)) == strip_commas(s@),
        decreases n,
    {
        assert(s@.take(n as int).drop_last() =~= s@.take(n - 1));
        n -= 1;
    }
    let r = slice_subrange(s, 0, n);
    assert(r@ =~= s@.take(n as int));
    r
}

impl Status {
    pub fn from_word(word: &str) -> (r: Status)
        ensures
            r@ == status_of(word@),
    {
        let chars: Vec<char> = chars_of(word);
        let first = without_commas(first_word(chars.as_slice()));
        let key: Vec<char> = lowercase_ascii(first);
        if same_text(key.as_slice(), "detached") {
            Status::Detached
        } else if same_text(key.as_slice(), "attached") {
            Status::Attached
        } else if same_text(key.as_slice(), "multi") {
            Status::Multi
        } else if same_text(key.as_slice(), "dead") {
            Status::Dead
        } else if same_text(key.as_slice(), "unreachable") {
            Status::Unreachable
        } else {
            Status::Unknown(string_of(trim(chars.as_slice())))
        }
    }

    /// The normalised word; an unknown state as it was printed.
    pub fn label(&self) -> (r: String)
        ensures
            r@ == status_label(self@),
    {
        match self {
            Status::Detached => "detached".to_owned(),
            Status::Attached => "attached".to_owned(),
            Status::Multi => "multi".to_owned(),
            Status::Dead => "dead".to_owned(),
            Status::Unreachable => "unreachable".to_owned(),
            Status::Unknown(raw) => raw.clone(),
        }
    }

    /// Whether `screen -r` connects without further ado.
    pub fn is_attachable(&self) -> (r: bool)
        ensures
            r == (self@ is Detached),
    {
        match self {
            Status::Detached => true,
            _ => false,
        }
    }

    /// Whether a connection may be tried at all.
    pub fn is_connectable(&self) -> (r: bool)
        ensures
            r == connectable(self@),
    {
        match self {
            Status::Detached => true,
            Status::Attached => true,
            Status::Multi => true,
            _ => false,
        }
    }
}

// ---------------------------------------------------------------------------
// Records and lists
// ---------------------------------------------------------------------------
/// One session.
#[derive(Debug, PartialEq, Eq)]
pub struct SessionRecord {
    /// `<pid>.<name>`, the only reliable address when a name is not unique.
    pub full: String,
    pub pid: Option<i32>,
    /// The name without the pid.
    pub name: String,
    /// The date as it was printed; old versions print none.
    pub created: Option<String>,
    pub status: Status,
}

/// The model of a [`SessionRecord`].
#[verifier::ext_equal]
pub struct SessionView {
    pub full: Seq<char>,
    pub pid: Option<i32>,
    pub name: Seq<char>,
    pub created: Option<Seq<char>>,
    pub status: StatusView,
}

impl View for SessionRecord {
    type V = SessionView;

    open spec fn view(&self) -> SessionView {
        SessionView {
            full: self.full@,
            pid: self.pid,
            name: self.name@,
            created: opt_view(self.created),
            status: self.status@,
        }
    }
}

impl Clone for SessionRecord {
    fn clone(&self) -> (r: Self)
        ensures
            r@ == self@,
    {
        SessionRecord {
            full: self.full.clone(),
            pid: self.pid,
            name: self.name.clone(),
            created: clone_opt(&self.created),
            status: self.status.clone(),
        }
    }
}

/// The models of a list of sessions.
pub open spec fn session_views(v: Seq<SessionRecord>) -> Seq<SessionView> {
    v.map_values(|s: SessionRecord| s@)
}

pub fn clone_sessions(v: &Vec<SessionRecord>) -> (r: Vec<SessionRecord>)
    ensures
        session_views(r@) == session_views(v@),
{
    let mut out: Vec<SessionRecord> = Vec::new();
    let mut i: usize = 0;
    while i < v.len()
        invariant
            i <= v@.len(),
            out@.len() == i,
            forall|k: int| 0 <= k < i ==> (#[trigger] out@[k])@ == v@[k]@,
        decreases v.len() - i,
    {
        out.push(v[i].clone());
        i += 1;
    }
    assert(session_views(out@) =~= session_views(v@));
    out
}

/// What `screen -q -ls` said through its exit code, by the manual.
#[derive(Debug, Clone, Copy, PartialEq, Eq, Structural)]
pub enum Outlook {
    NoSessions,
    Unconnectable,
    Available(u32),
    /// A code outside the documented table.
    Inconclusive(i32),
}

pub open spec fn outlook_of(code: i32) -> Outlook {
    if code == 9 {
        Outlook::NoSessions
    } else if code == 10 {
        Outlook::Unconnectable
    } else if code >= 11 {
        Outlook::Available((code - 10) as u32)
    } else {
        Outlook::Inconclusive(code)
    }
}

pub open spec fn outlook_label(o: Outlook) -> Seq<char> {
    match o {
        Outlook::NoSessions => "no sessions (exit 9)"@,
        Outlook::Unconnectable => "sessions exist but none connectable (exit 10)"@,
        Outlook::Available(n) => "available (exit "@ + decimal_of((n + 10) as nat) + ")"@,
        Outlook::Inconclusive(code) => "inconclusive (exit "@ + signed_decimal_of(code as int)
            + ", outside the documented 9/10/11+ table)"@,
    }
}

impl Outlook {
    pub fn from_code(code: i32) -> (r: Outlook)
        ensures
            r == outlook_of(code),
    {
        if code == 9 {
            Outlook::NoSessions
        } else if code == 10 {
            Outlook::Unconnectable
        } else if code >= 11 {
            Outlook::Available((code - 10) as u32)
        } else {
            Outlook::Inconclusive(code)
        }
    }

    pub fn label(&self) -> (r: String)
        ensures
            r@ == outlook_label(*self),
    {
        match *self {
            Outlook::NoSessions => "no sessions (exit 9)".to_owned(),
            Outlook::Unconnectable => "sessions exist but none connectable (exit 10)".to_owned(),
            Outlook::Available(n) => {
                let mut out: String = "available (exit ".to_owned();
                out.append(decimal(n as u64 + 10).as_str());
                out.append(")");
                out
            },
            Outlook::Inconclusive(code) => {
                let mut out: String = "inconclusive (exit ".to_owned();
                out.append(signed_decimal(code as i64).as_str());
                out.append(", outside the documented 9/10/11+ table)");
                out
            },
        }
    }

    /// Whether the exit code allows a conclusion.
    pub fn is_conclusive(&self) -> (r: bool)
        ensures
            r == !(*self is Inconclusive),
    {
        match self {
            Outlook::Inconclusive(_) => false,
            _ => true,
        }
    }
}

/// What a listing says.
#[derive(Debug)]
pub struct SessionList {
    pub sessions: Vec<SessionRecord>,
    /// The socket directory, from the last line of the listing.
    pub socket_dir: Option<String>,
    /// Doubtful lines, for display.
    pub warnings: Vec<String>,
    /// Names that more than one session has.
    pub duplicates: Vec<String>,
}

/// The model of a [`SessionList`].
#[verifier::ext_equal]
pub struct ListView {
    pub sessions: Seq<SessionView>,
    pub socket_dir: Option<Seq<char>>,
    pub warnings: Seq<Seq<char>>,
    pub duplicates: Seq<Seq<char>>,
}

impl View for SessionList {
    type V = ListView;

    open spec fn view(&self) -> ListView {
        ListView {
            sessions: session_views(self.sessions@),
            socket_dir: opt_view(self.socket_dir),
            warnings: views(self.warnings@),
            duplicates: views(self.duplicates@),
        }
    }
}

pub open spec fn empty_list() -> ListView {
    ListView {
        sessions: Seq::empty(),
        socket_dir: None,
        warnings: Seq::empty(),
        duplicates: Seq::empty(),
    }
}

impl Default for SessionList {
    fn default() -> (r: Self)
        ensures
            r@ == empty_list(),
    {
        let r = SessionList {
            sessions: Vec::new(),
            socket_dir: None,
            warnings: Vec::new(),
            duplicates: Vec::new(),
        };
        assert(r@ =~= empty_list());
        r
    }
}

impl Clone for SessionList {
    fn clone(&self) -> (r: Self)
        ensures
            r@ == self@,
    {
        SessionList {
            sessions: clone_sessions(&self.sessions),
            socket_dir: clone_opt(&self.socket_dir),
            warnings: clone_strings(&self.warnings),
            duplicates: clone_strings(&self.duplicates),
        }
    }
}

impl SessionList {
    pub fn len(&self) -> (r: usize)
        ensures
            r == self@.sessions.len(),
    {
        self.sessions.len()
    }

    pub fn is_empty(&self) -> (r: bool)
        ensures
            r == (self@.sessions.len() == 0),
    {
        self.sessions.len() == 0
    }

    /// The first session on which a capability can be tried out.
    pub fn probe_target(&self) -> (r: Option<&SessionRecord>)
        ensures
            match r {
                Some(s) => exists|i: int|
                    {
                        &&& 0 <= i < self.sessions@.len()
                        &&& *s == #[trigger] self.sessions@[i]
                        &&& connectable(s@.status)
                        &&& forall|j: int|
                            0 <= j < i ==> !connectable((#[trigger] self.sessions@[j])@.status)
                    },
                None => forall|j: int|
                    0 <= j < self.sessions@.len() ==> !connectable(
                        (#[trigger] self.sessions@[j])@.status,
                    ),
            },
    {
        let mut i: usize = 0;
        while i < self.sessions.len()
            invariant
                i <= self.sessions@.len(),
                forall|j: int| 0 <= j < i ==> !connectable((#[trigger] self.sessions@[j])@.status),
            decreases self.sessions.len() - i,
        {
            if self.sessions[i].status.is_connectable() {
                return Some(&self.sessions[i]);
            }
            i += 1;
        }
        None
    }

    /// The first session of that name.
    pub fn by_name(&self, name: &str) -> (r: Option<&SessionRecord>)
        ensures
            match r {
                Some(s) => exists|i: int|
                    {
                        &&& 0 <= i < self.sessions@.len()
                        &&& *s == #[trigger] self.sessions@[i]
                        &&& s@.name == name@
                        &&& forall|j: int|
                            0 <= j < i ==> (#[trigger] self.sessions@[j])@.name != name@
                    },
                None => forall|j: int|
                    0 <= j < self.sessions@.len() ==> (#[trigger] self.sessions@[j])@.name != name@,
            },
    {
        let mut i: usize = 0;
        while i < self.sessions.len()
            invariant
                i <= self.sessions@.len(),
                forall|j: int| 0 <= j < i ==> (#[trigger] self.sessions@[j])@.name != name@,
            decreases self.sessions.len() - i,
        {
            if same_str(self.sessions[i].name.as_str(), name) {
                return Some(&self.sessions[i]);
            }
            i += 1;
        }
        None
    }
}

/// The exit code's outlook and the listing's detail.
#[derive(Debug)]
pub struct Enumeration {
    pub outlook: Outlook,
    /// The one source of detail.
    pub list: SessionList,
    /// Why the listing could not be read at all; the list is then empty.
    pub list_error: Option<String>,
}

/// The model of an [`Enumeration`].
#[verifier::ext_equal]
pub struct EnumerationView {
    pub outlook: Outlook,
    pub list: ListView,
    pub list_error: Option<Seq<char>>,
}

impl View for Enumeration {
    type V = EnumerationView;

    open spec fn view(&self) -> EnumerationView {
        EnumerationView {
            outlook: self.outlook,
            list: self.list@,
            list_error: opt_view(self.list_error),
        }
    }
}

impl Clone for Enumeration {
    fn clone(&self) -> (r: Self)
        ensures
            r@ == self@,
    {
        Enumeration {
            outlook: self.outlook,
            list: self.list.clone(),
            list_error: clone_opt(&self.list_error),
        }
    }
}

/// The remark on an exit code that does not fit the listing.
pub open spec fn outlook_note(o: Outlook, count: nat) -> Seq<Seq<char>> {
    match o {
        Outlook::NoSessions => if count > 0 {
            seq![
                "`-q -ls` said no sessions but `-ls` listed "@ + decimal_of(count)
                    + "; trusting the listing"@,
            ]
        } else {
            Seq::empty()
        },
        Outlook::Available(n) => if n != count {
            seq![
                "`-q -ls` reported "@ + decimal_of(n as nat) + " session(s) but `-ls` detailed "@
                    + decimal_of(count),
            ]
        } else {
            Seq::empty()
        },
        Outlook::Inconclusive(code) => seq![
            "`-q -ls` exited "@ + signed_decimal_of(code as int)
                + ", outside the documented 9/10/11+ table (measured 8 on Screen 4.00.03 with no sessions); falling back to `-ls` text"@,
        ],
        Outlook::Unconnectable => Seq::empty(),
    }
}

/// All remarks on an enumeration: exit code, listing, failure.
pub open spec fn notes_of(e: EnumerationView) -> Seq<Seq<char>> {
    outlook_note(e.outlook, e.list.sessions.len()) + e.list.warnings + match e.list_error {
        Some(err) => seq![err],
        None => Seq::empty(),
    }
}

/// Appends copies of all strings of `more`.
pub fn extend_strings(out: &mut Vec<String>, more: &Vec<String>)
    ensures
        views(final(out)@) == views(old(out)@) + views(more@),
{
    let mut i: usize = 0;
    assert(views(more@).take(0) =~= Seq::<Seq<char>>::empty());
    assert(views(out@) + views(more@).take(0) =~= views(out@));
    let ghost start = views(out@);
    while i < more.len()
        invariant
            i <= more@.len(),
            views(out@) == start + views(more@).take(i as int),
        decreases more.len() - i,
    {
        let ghost before = views(out@);
        out.push(more[i].clone());
        assert(views(out@) =~= before.push(more@[i as int]@));
        assert(views(more@).take(i + 1) =~= views(more@).take(i as int).push(more@[i as int]@));
        i += 1;
    }
    assert(views(more@).take(i as int) =~= views(more@));
}

/// Appends one string.
pub fn push_string(out: &mut Vec<String>, s: String)
    ensures
        views(final(out)@) == views(old(out)@).push(s@),
{
    let ghost before = views(out@);
    out.push(s);
    assert(views(out@) =~= before.push(s@));
}

impl Enumeration {
    pub fn count(&self) -> (r: usize)
        ensures
            r == self@.list.sessions.len(),
    {
        self.list.len()
    }

    pub fn has_sessions(&self) -> (r: bool)
        ensures
            r == (self@.list.sessions.len() > 0),
    {
        !self.list.is_empty()
    }

    /// Where exit code and listing disagree, and what the listing left doubtful.
    pub fn notes(&self) -> (r: Vec<String>)
        ensures
            views(r@) == notes_of(self@),
    {
        let count: u64 = self.list.len() as u64;
        let mut notes: Vec<String> = Vec::new();
        assert(views(notes@) =~= Seq::<Seq<char>>::empty());
        match self.outlook {
            Outlook::NoSessions => {
                if count > 0 {
                    let mut s: String = "`-q -ls` said no sessions but `-ls` listed ".to_owned();
                    s.append(decimal(count).as_str());
                    s.append("; trusting the listing");
                    push_string(&mut notes, s);
                }
            },
            Outlook::Available(n) => {
                if n as u64 != count {
                    let mut s: String = "`-q -ls` reported ".to_owned();
                    s.append(decimal(n as u64).as_str());
                    s.append(" session(s) but `-ls` detailed ");
                    s.append(decimal(count).as_str());
                    push_string(&mut notes, s);
                }
            },
            Outlook::Inconclusive(code) => {
                let mut s: String = "`-q -ls` exited ".to_owned();
                s.append(signed_decimal(code as i64).as_str());
                s.append(
                    ", outside the documented 9/10/11+ table (measured 8 on Screen 4.00.03 with no sessions); falling back to `-ls` text",
                );
                push_string(&mut notes, s);
            },
            Outlook::Unconnectable => {},
        }
        assert(views(notes@) =~= outlook_note(self.outlook, count as nat));
        extend_strings(&mut notes, &self.list.warnings);
        match &self.list_error {
            Some(err) => {
                push_string(&mut notes, err.clone());
            },
            None => {},
        }
        assert(views(notes@) =~= notes_of(self@));
        notes
    }
}

// ---------------------------------------------------------------------------
// Lines
// ---------------------------------------------------------------------------
pub open spec fn is_header(line: Seq<char>) -> bool {
    starts_with_text(line, "There is a screen on"@) || starts_with_text(
        line,
        "There are screens on"@,
    )
}

pub fn is_header_line(line: &[char]) -> (r: bool)
    ensures
        r == is_header(line@),
{
    starts_with(line, "There is a screen on") || starts_with(line, "There are screens on")
}

/// The full stop that ends the sentence is not part of the path.
pub open spec fn strip_period(s: Seq<char>) -> Seq<char> {
    if s.len() > 0 && s.last() == '.' {
        s.drop_last()
    } else {
        s
    }
}

/// The directory after the first ` in `.
pub open spec fn socket_dir_of(rest: Seq<char>) -> Option<Seq<char>> {
    match find_in(rest, " in "@) {
        None => None,
        Some(pos) => {
            let dir = trim_of(strip_period(trim_of(rest.skip(pos + " in "@.len()))));
            if dir.len() == 0 {
                None
            } else {
                Some(dir)
            }
        },
    }
}

pub fn extract_socket_dir(rest: &[char]) -> (r: Option<String>)
    ensures
        opt_view(r) == socket_dir_of(rest@),
{
    proof {
        reveal_strlit(" in ");
    }
    match find(rest, " in ") {
        None => None,
        Some(pos) => {
            let n: usize = rest.len();
            let after = slice_subrange(rest, pos + 4, n);
            assert(after@ =~= rest@.skip(pos + " in "@.len()));
            let tail = trim(after);
            let sentence = if tail.len() > 0 && tail[tail.len() - 1] == '.' {
                slice_subrange(tail, 0, tail.len() - 1)
            } else {
                tail
            };
            assert(sentence@ =~= strip_period(tail@));
            let dir = trim(sentence);
            if dir.len() == 0 {
                None
            } else {
                Some(string_of(dir))
            }
        },
    }
}

/// The directory of a last line: `1 Socket in <dir>.`, `2 Sockets in <dir>.` or
/// `No Sockets found in <dir>.`
pub open spec fn summary_dir(line: Seq<char>) -> Option<Seq<char>> {
    if starts_with_text(line, "No Sockets found"@) {
        socket_dir_of(line.skip("No Sockets found"@.len() as int))
    } else {
        match find_in(line, "Socket"@) {
            None => None,
            Some(i) => {
                if parse_digits(trim_of(line.take(i))) is None {
                    None
                } else {
                    socket_dir_of(line.skip(i))
                }
            },
        }
    }
}

/// Whether there are digits, and nothing else.
pub fn is_digit_run(s: &[char]) -> (r: bool)
    ensures
        r == (parse_digits(s@) is Some),
{
    if s.len() == 0 {
        return false;
    }
    let mut i: usize = 0;
    while i < s.len()
        invariant
            i <= s@.len(),
            forall|k: int| 0 <= k < i ==> is_digit(#[trigger] s@[k]),
        decreases s.len() - i,
    {
        if !is_ascii_digit(s[i]) {
            return false;
        }
        i += 1;
    }
    true
}

pub fn parse_socket_summary_line(line: &[char]) -> (r: Option<String>)
    ensures
        opt_view(r) == summary_dir(line@),
{
    proof {
        reveal_strlit("No Sockets found");
    }
    if starts_with(line, "No Sockets found") {
        let rest = slice_subrange(line, 16, line.len());
        assert(rest@ =~= line@.skip("No Sockets found"@.len() as int));
        return extract_socket_dir(rest);
    }
    match find(line, "Socket") {
        None => None,
        Some(i) => {
            let head = slice_subrange(line, 0, i);
            let rest = slice_subrange(line, i, line.len());
            assert(head@ =~= line@.take(i as int));
            assert(rest@ =~= line@.skip(i as int));
            if !is_digit_run(trim(head)) {
                None
            } else {
                extract_socket_dir(rest)
            }
        },
    }
}

/// `<pid>.<name>` taken apart; the pid is written in digits alone and the name is not
/// empty.
pub open spec fn split_full_of(full: Seq<char>) -> Option<(nat, Seq<char>)> {
    let dot = until_char(full, '.') as int;
    if dot >= full.len() {
        None
    } else {
        match parse_digits(full.take(dot)) {
            None => None,
            Some(pid) => if dot + 1 >= full.len() || pid > i32::MAX {
                None
            } else {
                Some((pid, full.skip(dot + 1)))
            },
        }
    }
}

pub fn split_full(full: &[char]) -> (r: Option<(i32, String)>)
    ensures
        match split_full_of(full@) {
            Some((pid, name)) => r matches Some((p, n)) && p == pid && n@ == name,
            None => r is None,
        },
{
    let dot: usize = index_of_char(full, '.');
    if dot >= full.len() {
        return None;
    }
    let head = slice_subrange(full, 0, dot);
    assert(head@ =~= full@.take(dot as int));
    match read_digits(head, 0x7fff_ffff) {
        None => None,
        Some(pid) => {
            if dot + 1 >= full.len() {
                None
            } else {
                let rest = slice_subrange(full, dot + 1, full.len());
                assert(rest@ =~= full@.skip(dot + 1));
                Some((pid as i32, string_of(rest)))
            }
        },
    }
}

/// A group with a slash and a digit in it.
pub open spec fn date_like(group: Seq<char>) -> bool {
    group.contains('/') && exists|i: int| 0 <= i < group.len() && is_digit(#[trigger] group[i])
}

pub fn looks_like_date(group: &str) -> (r: bool)
    ensures
        r == date_like(group@),
{
    let chars: Vec<char> = chars_of(group);
    if !contains_char(chars.as_slice(), '/') {
        return false;
    }
    let mut i: usize = 0;
    while i < chars.len()
        invariant
            i <= chars@.len(),
            chars@ == group@,
            group@.contains('/'),
            forall|k: int| 0 <= k < i ==> !is_digit(#[trigger] chars@[k]),
        decreases chars.len() - i,
    {
        if is_ascii_digit(chars[i]) {
            assert(is_digit(group@[i as int]));
            return true;
        }
        i += 1;
    }
    false
}

/// The top-level groups that a scan from `i` closes, where `depth` brackets are
/// open and the outermost began before `start`.
pub open spec fn groups_from(text: Seq<char>, i: int, depth: nat, start: int) -> Seq<Seq<char>>
    decreases text.len() - i,
{
    if i < 0 || i >= text.len() {
        Seq::empty()
    } else if text[i] == '(' {
        groups_from(
            text,
            i + 1,
            depth + 1,
            if depth == 0 {
                i + 1
            } else {
                start
            },
        )
    } else if text[i] == ')' && depth > 0 {
        if depth == 1 {
            seq![text.subrange(start, i)] + groups_from(text, i + 1, 0, start)
        } else {
            groups_from(text, i + 1, (depth - 1) as nat, start)
        }
    } else {
        groups_from(text, i + 1, depth, start)
    }
}

/// What stands inside the top-level brackets of a text, without the brackets.
pub open spec fn groups_of(text: Seq<char>) -> Seq<Seq<char>> {
    groups_from(text, 0, 0, 0)
}

pub fn parenthesized_groups(text: &[char]) -> (r: Vec<String>)
    ensures
        views(r@) == groups_of(text@),
{
    let mut groups: Vec<String> = Vec::new();
    let mut depth: usize = 0;
    let mut start: usize = 0;
    let mut i: usize = 0;
    assert(views(groups@) + groups_from(text@, 0, 0, 0) =~= groups_of(text@));
    while i < text.len()
        invariant
            i <= text@.len(),
            depth <= i,
            start <= i,
            views(groups@) + groups_from(text@, i as int, depth as nat, start as int) == groups_of(
                text@,
            ),
        decreases text.len() - i,
    {
        let c: char = text[i];
        if c == '(' {
            if depth == 0 {
                start = i + 1;
            }
            depth += 1;
        } else if c == ')' && depth > 0 {
            depth -= 1;
            if depth == 0 {
                let group = slice_subrange(text, start, i);
                let ghost before = views(groups@);
                push_string(&mut groups, string_of(group));
                let ghost tail = groups_from(text@, i + 1, 0, start as int);
                assert(views(groups@) + tail =~= before + (seq![group@] + tail));
            }
        }
        i += 1;
    }
    assert(views(groups@) + Seq::<Seq<char>>::empty() =~= views(groups@));
    groups
}

/// The first group that looks like a date.
pub open spec fn first_date(groups: Seq<Seq<char>>) -> Option<Seq<char>>
    decreases groups.len(),
{
    if groups.len() == 0 {
        None
    } else if date_like(groups[0]) {
        Some(groups[0])
    } else {
        first_date(groups.drop_first())
    }
}

/// The last group that does not look like a date.
pub open spec fn last_state(groups: Seq<Seq<char>>) -> Option<Seq<char>>
    decreases groups.len(),
{
    if groups.len() == 0 {
        None
    } else if !date_like(groups.last()) {
        Some(groups.last())
    } else {
        last_state(groups.drop_last())
    }
}

/// The session on a line of detail: `<pid>.<name>`, maybe a date, a state.
pub open spec fn entry_of(line: Seq<char>) -> Option<SessionView> {
    let open = until_char(line, '(') as int;
    if open >= line.len() {
        None
    } else {
        let full = first_word_of(trim_of(line.take(open)));
        let groups = groups_of(line.skip(open));
        match (split_full_of(full), last_state(groups)) {
            (Some((pid, name)), Some(state)) => Some(
                SessionView {
                    full,
                    pid: Some(pid as i32),
                    name,
                    created: match first_date(groups) {
                        Some(date) => Some(trim_of(date)),
                        None => None,
                    },
                    status: status_of(trim_of(state)),
                },
            ),
            _ => None,
        }
    }
}

fn find_date(groups: &Vec<String>) -> (r: Option<String>)
    ensures
        opt_view(r) == match first_date(views(groups@)) {
            Some(date) => Some(trim_of(date)),
            None => None,
        },
{
    let mut i: usize = 0;
    let ghost all = views(groups@);
    assert(all.skip(0) =~= all);
    while i < groups.len()
        invariant
            i <= groups@.len(),
            all == views(groups@),
            first_date(all) == first_date(all.skip(i as int)),
        decreases groups.len() - i,
    {
        assert(all.skip(i as int)[0] == groups@[i as int]@);
        if looks_like_date(groups[i].as_str()) {
            return Some(trim_str(groups[i].as_str()));
        }
        assert(all.skip(i as int).drop_first() =~= all.skip(i + 1));
        i += 1;
    }
    None
}

fn find_state(groups: &Vec<String>) -> (r: Option<String>)
    ensures
        opt_view(r) == match last_state(views(groups@)) {
            Some(state) => Some(trim_of(state)),
            None => None,
        },
{
    let mut n: usize = groups.len();
    let ghost all = views(groups@);
    assert(all.take(n as int) =~= all);
    while n > 0
        invariant
            n <= groups@.len(),
            all == views(groups@),
            last_state(all) == last_state(all.take(n as int)),
        decreases n,
    {
        assert(all.take(n as int).last() == groups@[n - 1]@);
        if !looks_like_date(groups[n - 1].as_str()) {
            return Some(trim_str(groups[n - 1].as_str()));
        }
        assert(all.take(n as int).drop_last() =~= all.take(n - 1));
        n -= 1;
    }
    None
}

/// Reads a line of detail. The first component must be a number: that keeps the
/// option summary that some versions print from being taken for sessions.
pub fn parse_entry_line(line: &[char]) -> (r: Option<SessionRecord>)
    ensures
        match r {
            Some(record) => entry_of(line@) == Some(record@),
            None => entry_of(line@) is None,
        },
{
    let open: usize = index_of_char(line, '(');
    if open >= line.len() {
        return None;
    }
    let before = slice_subrange(line, 0, open);
    let after = slice_subrange(line, open, line.len());
    assert(before@ =~= line@.take(open as int));
    assert(after@ =~= line@.skip(open as int));
    let full = first_word(trim(before));
    match split_full(full) {
        None => None,
        Some((pid, name)) => {
            let groups: Vec<String> = parenthesized_groups(after);
            match find_state(&groups) {
                None => None,
                Some(state) => {
                    let created: Option<String> = find_date(&groups);
                    Some(
                        SessionRecord {
                            full: string_of(full),
                            pid: Some(pid),
                            name,
                            created,
                            status: Status::from_word(state.as_str()),
                        },
                    )
                },
            }
        },
    }
}

/// At most sixty characters of a line.
pub open spec fn summary_of(line: Seq<char>) -> Seq<char> {
    if line.len() <= 60 {
        line
    } else {
        line.take(60).push('…')
    }
}

pub fn summarize(line: &[char]) -> (r: String)
    ensures
        r@ == summary_of(line@),
{
    if line.len() <= 60 {
        string_of(line)
    } else {
        let head = slice_subrange(line, 0, 60);
        assert(head@ =~= line@.take(60));
        let mut out: String = string_of(head);
        out.push('…');
        out
    }
}

// ---------------------------------------------------------------------------
// The listing
// ---------------------------------------------------------------------------
/// What a line of a listing is.
pub enum LineView {
    Blank,
    Header,
    /// The last line, with the socket directory.
    Summary(Seq<char>),
    Entry(SessionView),
    /// A line that could not be read, shortened.
    Rejected(Seq<char>),
}

pub open spec fn line_of(raw: Seq<char>) -> LineView {
    let line = strip_cr(raw);
    let body = trim_start_of(line);
    if trim_of(line).len() == 0 {
        LineView::Blank
    } else if is_header(body) {
        LineView::Header
    } else {
        match summary_dir(body) {
            Some(dir) => LineView::Summary(dir),
            None => match entry_of(body) {
                Some(record) => LineView::Entry(record),
                None => LineView::Rejected(summary_of(body)),
            },
        }
    }
}

pub open spec fn line_views(lines: Seq<Seq<char>>) -> Seq<LineView> {
    lines.map_values(|raw: Seq<char>| line_of(raw))
}

/// The sessions of the lines of detail, in order.
pub open spec fn entries_of(lines: Seq<LineView>) -> Seq<SessionView>
    decreases lines.len(),
{
    if lines.len() == 0 {
        Seq::empty()
    } else {
        match lines.last() {
            LineView::Entry(record) => entries_of(lines.drop_last()).push(record),
            _ => entries_of(lines.drop_last()),
        }
    }
}

/// The lines that could not be read, in order.
pub open spec fn rejected_of(lines: Seq<LineView>) -> Seq<Seq<char>>
    decreases lines.len(),
{
    if lines.len() == 0 {
        Seq::empty()
    } else {
        match lines.last() {
            LineView::Rejected(text) => rejected_of(lines.drop_last()).push(text),
            _ => rejected_of(lines.drop_last()),
        }
    }
}

/// The directory of the last summary line.
pub open spec fn last_dir(lines: Seq<LineView>) -> Option<Seq<char>>
    decreases lines.len(),
{
    if lines.len() == 0 {
        None
    } else {
        match lines.last() {
            LineView::Summary(dir) => Some(dir),
            _ => last_dir(lines.drop_last()),
        }
    }
}

/// Some line was recognised.
pub open spec fn has_structure(lines: Seq<LineView>) -> bool {
    exists|i: int| 0 <= i < lines.len() && is_structure(#[trigger] lines[i])
}

pub open spec fn is_structure(line: LineView) -> bool {
    line is Header || line is Summary || line is Entry
}

/// One remark for each session in an unknown state.
pub open spec fn state_warnings(records: Seq<SessionView>) -> Seq<Seq<char>>
    decreases records.len(),
{
    if records.len() == 0 {
        Seq::empty()
    } else {
        match records.last().status {
            StatusView::Unknown(raw) => state_warnings(records.drop_last()).push(
                "unknown state `"@ + raw + "` on "@ + records.last().full
                    + "; showing it as-is"@,
            ),
            _ => state_warnings(records.drop_last()),
        }
    }
}

pub open spec fn skip_warnings(rejected: Seq<Seq<char>>) -> Seq<Seq<char>> {
    rejected.map_values(|line: Seq<char>| "skipped unrecognized line: "@ + line)
}

pub open spec fn duplicate_warnings(names: Seq<Seq<char>>) -> Seq<Seq<char>> {
    names.map_values(
        |name: Seq<char>|
            "duplicate session name `"@ + name + "`; address it by `<pid>.<name>`"@,
    )
}

// --- order -----------------------------------------------------------------
/// By name, then by full address.
pub open spec fn record_less(a: SessionView, b: SessionView) -> bool {
    text_less(a.name, b.name) || (a.name == b.name && text_less(a.full, b.full))
}

/// `r` put behind all records that it is not less than.
pub open spec fn insert_record(sorted: Seq<SessionView>, r: SessionView) -> Seq<SessionView>
    decreases sorted.len(),
{
    if sorted.len() == 0 || !record_less(r, sorted.last()) {
        sorted.push(r)
    } else {
        insert_record(sorted.drop_last(), r).push(sorted.last())
    }
}

/// The records in order; records that compare equal keep their order.
pub open spec fn sort_records(records: Seq<SessionView>) -> Seq<SessionView>
    decreases records.len(),
{
    if records.len() == 0 {
        Seq::empty()
    } else {
        insert_record(sort_records(records.drop_last()), records.last())
    }
}

/// No record stands before a smaller one.
pub open spec fn is_sorted(records: Seq<SessionView>) -> bool {
    forall|i: int, j: int|
        0 <= i < j < records.len() ==> !record_less(#[trigger] records[j], #[trigger] records[i])
}

/// The names that occur more than once in a sorted list, each once.
pub open spec fn duplicate_names(sorted: Seq<SessionView>) -> Seq<Seq<char>>
    decreases sorted.len(),
{
    if sorted.len() < 2 {
        Seq::empty()
    } else {
        let n = sorted.len();
        let name = sorted.last().name;
        let before = duplicate_names(sorted.drop_last());
        if name == sorted[n - 2].name && (n == 2 || name != sorted[n - 3].name) {
            before.push(name)
        } else {
            before
        }
    }
}

/// What a listing says, or the lines that made no sense when none did.
pub open spec fn listing_of(text: Seq<char>) -> Result<ListView, Seq<char>> {
    let lines = line_views(lines_of(text));
    let rejected = rejected_of(lines);
    if !has_structure(lines) && rejected.len() > 0 {
        Err(join_of(rejected, " | "@))
    } else {
        let sessions = sort_records(entries_of(lines));
        let duplicates = duplicate_names(sessions);
        Ok(
            ListView {
                sessions,
                socket_dir: last_dir(lines),
                warnings: state_warnings(entries_of(lines)) + skip_warnings(rejected)
                    + duplicate_warnings(duplicates),
                duplicates,
            },
        )
    }
}

pub fn record_precedes(a: &SessionRecord, b: &SessionRecord) -> (r: bool)
    ensures
        r == record_less(a@, b@),
{
    if less(a.name.as_str(), b.name.as_str()) {
        true
    } else {
        same_str(a.name.as_str(), b.name.as_str()) && less(a.full.as_str(), b.full.as_str())
    }
}

proof fn lemma_insert_record_at(sorted: Seq<SessionView>, r: SessionView, pos: int)
    requires
        0 <= pos <= sorted.len(),
        forall|k: int| pos <= k < sorted.len() ==> record_less(r, #[trigger] sorted[k]),
        pos == 0 || !record_less(r, sorted[pos - 1]),
    ensures
        insert_record(sorted, r) == sorted.insert(pos, r),
    decreases sorted.len(),
{
    if pos == sorted.len() {
        assert(sorted.insert(pos, r) =~= sorted.push(r));
    } else {
        let rest = sorted.drop_last();
        assert(sorted.last() == sorted[sorted.len() - 1]);
        lemma_insert_record_at(rest, r, pos);
        assert(rest.insert(pos, r).push(sorted.last()) =~= sorted.insert(pos, r));
    }
}

/// Sorts the records in place.
fn sort_sessions(v: &mut Vec<SessionRecord>)
    ensures
        session_views(final(v)@) == sort_records(session_views(old(v)@)),
{
    let ghost input = session_views(v@);
    let n: usize = v.len();
    let mut i: usize = 0;
    assert(sort_records(input.take(0)) =~= Seq::<SessionView>::empty());
    assert(session_views(v@) =~= sort_records(input.take(0)) + input.skip(0));
    proof {
        assert(sort_records(input.take(0)).len() == 0);
    }
    while i < n
        invariant
            i <= n,
            n == v@.len(),
            n == input.len(),
            sort_records(input.take(i as int)).len() == i,
            session_views(v@) == sort_records(input.take(i as int)) + input.skip(i as int),
        decreases n - i,
    {
        let ghost sorted = sort_records(input.take(i as int));
        let ghost now = session_views(v@);
        let ghost key = input[i as int];
        let r = v.remove(i);
        assert(now[i as int] == key);
        assert(r@ == now[i as int]);
        assert(session_views(v@) =~= sorted + input.skip(i + 1)) by {
            assert forall|k: int| 0 <= k < v@.len() implies session_views(v@)[k] == (sorted
                + input.skip(i + 1))[k] by {
                if k < i {
                    assert(session_views(v@)[k] == now[k]);
                } else {
                    assert(session_views(v@)[k] == now[k + 1]);
                }
            }
        }
        let ghost without = session_views(v@);
        let mut pos: usize = i;
        assert forall|k: int| 0 <= k < i implies (#[trigger] v@[k])@ == sorted[k] by {
            assert(without[k] == v@[k]@);
        }
        while pos > 0 && record_precedes(&r, &v[pos - 1])
            invariant
                pos <= i,
                i < n,
                v@.len() == n - 1,
                r@ == key,
                sorted.len() == i,
                forall|k: int| 0 <= k < i ==> (#[trigger] v@[k])@ == sorted[k],
                forall|k: int| pos <= k < i ==> record_less(key, #[trigger] sorted[k]),
            decreases pos,
        {
            pos -= 1;
        }
        v.insert(pos, r);
        proof {
            assert(pos == 0 || !record_less(key, sorted[pos - 1]));
            lemma_insert_record_at(sorted, key, pos as int);
            assert(input.take(i + 1).drop_last() =~= input.take(i as int));
            assert(input.take(i + 1).last() == key);
            assert(sort_records(input.take(i + 1)) == sorted.insert(pos as int, key));
            assert(session_views(v@) =~= without.insert(pos as int, key));
            assert(session_views(v@) =~= sort_records(input.take(i + 1)) + input.skip(i + 1));
        }
        i += 1;
    }
    assert(input.take(i as int) =~= input);
    assert(input.skip(i as int) =~= Seq::<SessionView>::empty());
    assert(session_views(v@) =~= sort_records(input));
}

fn find_duplicates(v: &Vec<SessionRecord>) -> (r: Vec<String>)
    ensures
        views(r@) == duplicate_names(session_views(v@)),
{
    let mut out: Vec<String> = Vec::new();
    let ghost all = session_views(v@);
    let mut i: usize = 0;
    assert(views(out@) =~= duplicate_names(all.take(0)));
    while i < v.len()
        invariant
            i <= v@.len(),
            all == session_views(v@),
            views(out@) == duplicate_names(all.take(i as int)),
        decreases v.len() - i,
    {
        let ghost now = all.take(i + 1);
        assert(now.drop_last() =~= all.take(i as int));
        assert(now.last() == v@[i as int]@);
        if i >= 1 {
            assert(now[i - 1] == v@[i - 1]@);
            if i >= 2 {
                assert(now[i - 2] == v@[i - 2]@);
            }
            if same_str(v[i].name.as_str(), v[i - 1].name.as_str()) && (i == 1 || !same_str(
                v[i].name.as_str(),
                v[i - 2].name.as_str(),
            )) {
                push_string(&mut out, v[i].name.clone());
            }
        } else {
            assert(duplicate_names(all.take(0)) =~= Seq::<Seq<char>>::empty());
        }
        i += 1;
    }
    assert(all.take(i as int) =~= all);
    out
}

/// Sorts the sessions and reports the names that are not unique.
fn finish(list: &mut SessionList)
    ensures
        ({
            let sessions = sort_records(old(list)@.sessions);
            let duplicates = duplicate_names(sessions);
            final(list)@ == (ListView {
                sessions,
                socket_dir: old(list)@.socket_dir,
                warnings: old(list)@.warnings + duplicate_warnings(duplicates),
                duplicates,
            })
        }),
{
    let ghost start = list@;
    sort_sessions(&mut list.sessions);
    list.duplicates = find_duplicates(&list.sessions);
    let ghost names = views(list.duplicates@);
    let mut i: usize = 0;
    assert(duplicate_warnings(names.take(0)) =~= Seq::<Seq<char>>::empty());
    assert(list@.warnings =~= start.warnings + duplicate_warnings(names.take(0)));
    while i < list.duplicates.len()
        invariant
            i <= list.duplicates@.len(),
            names == views(list.duplicates@),
            list@.sessions == sort_records(start.sessions),
            list@.duplicates == duplicate_names(list@.sessions),
            list@.socket_dir == start.socket_dir,
            list@.warnings == start.warnings + duplicate_warnings(names.take(i as int)),
        decreases list.duplicates.len() - i,
    {
        let mut s: String = "duplicate session name `".to_owned();
        s.append(list.duplicates[i].as_str());
        s.append("`; address it by `<pid>.<name>`");
        push_string(&mut list.warnings, s);
        assert(duplicate_warnings(names.take(i + 1)) =~= duplicate_warnings(
            names.take(i as int),
        ).push(s@));
        i += 1;
    }
    assert(names.take(i as int) =~= names);
}

/// Reads the whole output of `screen -ls`.
///
/// Output in which no line could be read is an error that quotes the lines.
pub fn parse_list_output(text: &str) -> (r: Result<SessionList, Error>)
    ensures
        match listing_of(text@) {
            Ok(list) => r matches Ok(l) && l@ == list,
            Err(detail) => r matches Err(e) && e@ == ErrorView::UnrecognizedOutput(detail),
        },
{
    let mut list: SessionList = SessionList::default();
    let mut saw_structure: bool = false;
    let mut rejected: Vec<String> = Vec::new();
    let raw_lines: Vec<String> = lines(text);
    let ghost kinds = line_views(lines_of(text@));
    let mut i: usize = 0;
    assert(kinds.take(0) =~= Seq::<LineView>::empty());
    assert(views(rejected@) =~= rejected_of(kinds.take(0)));
    while i < raw_lines.len()
        invariant
            i <= raw_lines@.len(),
            views(raw_lines@) == lines_of(text@),
            kinds == line_views(lines_of(text@)),
            list@.sessions == entries_of(kinds.take(i as int)),
            list@.socket_dir == last_dir(kinds.take(i as int)),
            list@.warnings == state_warnings(entries_of(kinds.take(i as int))),
            list@.duplicates == Seq::<Seq<char>>::empty(),
            views(rejected@) == rejected_of(kinds.take(i as int)),
            saw_structure == has_structure(kinds.take(i as int)),
        decreases raw_lines.len() - i,
    {
        let ghost seen = kinds.take(i as int);
        let ghost now = kinds.take(i + 1);
        let ghost kind = kinds[i as int];
        assert(kind == line_of(raw_lines@[i as int]@));
        proof {
            lemma_scan_step(kinds, i as int);
        }
        let chars: Vec<char> = chars_of(raw_lines[i].as_str());
        let line = without_cr(chars.as_slice());
        i += 1;
        if trim(line).len() == 0 {
            continue ;
        }
        let body = trim_start(line);
        if is_header_line(body) {
            saw_structure = true;
            continue ;
        }
        if let Some(dir) = parse_socket_summary_line(body) {
            saw_structure = true;
            list.socket_dir = Some(dir);
            continue ;
        }
        match parse_entry_line(body) {
            Some(record) => {
                let ghost before = list@.sessions;
                assert(before.push(record@).drop_last() =~= before);
                if let Status::Unknown(raw) = &record.status {
                    let mut s: String = "unknown state `".to_owned();
                    s.append(raw.as_str());
                    s.append("` on ");
                    s.append(record.full.as_str());
                    s.append("; showing it as-is");
                    push_string(&mut list.warnings, s);
                }
                list.sessions.push(record);
                assert(list@.sessions =~= before.push(record@));
                saw_structure = true;
            },
            None => {
                push_string(&mut rejected, summarize(body));
            },
        }
    }
    assert(kinds.take(i as int) =~= kinds);
    if !saw_structure && rejected.len() > 0 {
        return Err(Error::UnrecognizedOutput(join(&rejected, " | ")));
    }
    let ghost base = list@.warnings;
    let ghost lost = views(rejected@);
    let mut k: usize = 0;
    assert(skip_warnings(lost.take(0)) =~= Seq::<Seq<char>>::empty());
    assert(list@.warnings =~= base + skip_warnings(lost.take(0)));
    while k < rejected.len()
        invariant
            k <= rejected@.len(),
            lost == views(rejected@),
            list@.sessions == entries_of(kinds),
            list@.socket_dir == last_dir(kinds),
            list@.warnings == base + skip_warnings(lost.take(k as int)),
        decreases rejected.len() - k,
    {
        let mut s: String = "skipped unrecognized line: ".to_owned();
        s.append(rejected[k].as_str());
        push_string(&mut list.warnings, s);
        assert(skip_warnings(lost.take(k + 1)) =~= skip_warnings(lost.take(k as int)).push(s@));
        k += 1;
    }
    assert(lost.take(k as int) =~= lost);
    finish(&mut list);
    Ok(list)
}

/// How each accumulator moves on by one line.
proof fn lemma_scan_step(kinds: Seq<LineView>, i: int)
    requires
        0 <= i < kinds.len(),
    ensures
        entries_of(kinds.take(i + 1)) == match kinds[i] {
            LineView::Entry(record) => entries_of(kinds.take(i)).push(record),
            _ => entries_of(kinds.take(i)),
        },
        rejected_of(kinds.take(i + 1)) == match kinds[i] {
            LineView::Rejected(text) => rejected_of(kinds.take(i)).push(text),
            _ => rejected_of(kinds.take(i)),
        },
        last_dir(kinds.take(i + 1)) == match kinds[i] {
            LineView::Summary(dir) => Some(dir),
            _ => last_dir(kinds.take(i)),
        },
        has_structure(kinds.take(i + 1)) == (has_structure(kinds.take(i)) || is_structure(
            kinds[i],
        )),
{
    let now = kinds.take(i + 1);
    assert(now.drop_last() =~= kinds.take(i));
    assert(now.last() == kinds[i]);
    if has_structure(kinds.take(i)) {
        let k = choose|k: int| 0 <= k < i && is_structure(#[trigger] kinds.take(i)[k]);
        assert(is_structure(now[k]));
    }
    if is_structure(kinds[i]) {
        assert(is_structure(now[i]));
    }
    if has_structure(now) {
        let k = choose|k: int| 0 <= k < i + 1 && is_structure(#[trigger] now[k]);
        if k < i {
            assert(is_structure(kinds.take(i)[k]));
        }
    }
}

// ---------------------------------------------------------------------------
// Both levels
// ---------------------------------------------------------------------------
pub open spec fn enumeration_of(quiet_code: i32, listing: RunView) -> EnumerationView {
    match listing_of(run_text(listing)) {
        Ok(list) => EnumerationView { outlook: outlook_of(quiet_code), list, list_error: None },
        Err(detail) => EnumerationView {
            outlook: outlook_of(quiet_code),
            list: empty_list(),
            list_error: Some(error_text(ErrorView::UnrecognizedOutput(detail))),
        },
    }
}

/// Puts the runs of `screen -q -ls` and `screen -ls` together. A listing that
/// cannot be read leaves an empty list and the reason.
pub fn enumerate(quiet: &Run, listing: &Run) -> (r: Enumeration)
    ensures
        r@ == enumeration_of(quiet.code, listing@),
{
    let outlook: Outlook = Outlook::from_code(quiet.code);
    let text: String = listing.text();
    match parse_list_output(text.as_str()) {
        Ok(list) => Enumeration { outlook, list, list_error: None },
        Err(err) => Enumeration {
            outlook,
            list: SessionList::default(),
            list_error: Some(err.message()),
        },
    }
}

} // verus!
