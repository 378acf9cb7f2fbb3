//! Working directory and command of a session, from the operating system.
//!
//! Screen itself does not tell. What cannot be read is left out, never guessed.

use crate::screen::cmd::{
    lossy, lossy_text,
};
use crate::text::{
    chars_of, clone_opt, join, join_of, lower, lowercase_ascii, opt_view, same_text, views,
};
use std::collections::BTreeMap;
use vstd::prelude::*;
use vstd::slice::slice_subrange;
use vstd::std_specs::btree::{
    axiom_key_obeys_cmp_spec_meaning, group_btree_axioms, key_obeys_cmp_spec,
};

verus! {

broadcast use {group_btree_axioms, vstd::laws_cmp::group_laws_cmp};

// ---------------------------------------------------------------------------
// What is known of a session
// ---------------------------------------------------------------------------
/// What was found; a missing field stays hidden.
#[derive(Debug, PartialEq, Eq)]
pub struct Meta {
    pub cwd: Option<String>,
    pub command: Option<String>,
}

/// The model of [`Meta`].
#[verifier::ext_equal]
pub struct MetaView {
    pub cwd: Option<Seq<char>>,
    pub command: Option<Seq<char>>,
}

impl View for Meta {
    type V = MetaView;

    open spec fn view(&self) -> MetaView {
        MetaView { cwd: opt_view(self.cwd), command: opt_view(self.command) }
    }
}

impl Default for Meta {
    fn default() -> (r: Self)
        ensures
            r@ == (MetaView { cwd: None, command: None }),
    {
        Meta { cwd: None, command: None }
    }
}

impl Clone for Meta {
    fn clone(&self) -> (r: Self)
        ensures
            r@ == self@,
    {
        Meta { cwd: clone_opt(&self.cwd), command: clone_opt(&self.command) }
    }
}

pub open spec fn opt_meta_view(o: Option<Meta>) -> Option<MetaView> {
    match o {
        Some(m) => Some(m@),
        None => None,
    }
}

pub open spec fn combined(cwd: Option<Seq<char>>, command: Option<Seq<char>>) -> Option<MetaView> {
    if cwd is None && command is None {
        None
    } else {
        Some(MetaView { cwd, command })
    }
}

impl Meta {
    /// Nothing found at all is no result.
    pub fn combine(cwd: Option<String>, command: Option<String>) -> (r: Option<Meta>)
        ensures
            opt_meta_view(r) == combined(opt_view(cwd), opt_view(command)),
    {
        if cwd.is_none() && command.is_none() {
            None
        } else {
            Some(Meta { cwd, command })
        }
    }
}

/// What follows the last slash.
pub open spec fn last_component(path: Seq<char>) -> Seq<char>
    decreases path.len(),
{
    if path.len() == 0 || path.last() == '/' {
        Seq::empty()
    } else {
        last_component(path.drop_last()).push(path.last())
    }
}

pub open spec fn is_screen(argv0: Seq<char>) -> bool {
    lower(last_component(argv0)) == "screen"@
}

/// Whether a program name is screen itself, whatever its path and case.
pub fn is_screen_binary(argv0: &str) -> (r: bool)
    ensures
        r == is_screen(argv0@),
{
    let chars: Vec<char> = chars_of(argv0);
    let mut start: usize = chars.len();
    let ghost n = chars@.len() as int;
    assert(chars@.take(n) =~= chars@);
    assert(last_component(chars@) =~= last_component(chars@.take(start as int)) + chars@.subrange(
        start as int,
        n,
    ));
    while start > 0 && chars[start - 1] != '/'
        invariant
            n == chars@.len(),
            start <= n,
            last_component(chars@) == last_component(chars@.take(start as int)) + chars@.subrange(
                start as int,
                n,
            ),
        decreases start,
    {
        let ghost head = chars@.take(start as int);
        assert(head.drop_last() =~= chars@.take(start - 1));
        assert(last_component(head) + chars@.subrange(start as int, n) =~= last_component(
            chars@.take(start - 1),
        ) + chars@.subrange(start - 1, n));
        start -= 1;
    }
    assert(last_component(chars@.take(start as int)) =~= Seq::<char>::empty());
    let base = slice_subrange(chars.as_slice(), start, chars.len());
    assert(base@ =~= last_component(argv0@));
    let key: Vec<char> = lowercase_ascii(base);
    same_text(key.as_slice(), "screen")
}

// ---------------------------------------------------------------------------
// Byte strings that end in NUL
// ---------------------------------------------------------------------------
/// The first position at or after `i` that holds a NUL, or the end.
pub open spec fn run_end(buf: Seq<u8>, i: int) -> int
    decreases buf.len() - i,
{
    if i < 0 || i >= buf.len() || buf[i] == 0 {
        i
    } else {
        run_end(buf, i + 1)
    }
}

/// The first position at or after `i` that holds no NUL, or the end.
pub open spec fn gap_end(buf: Seq<u8>, i: int) -> int
    decreases buf.len() - i,
{
    if i < 0 || i >= buf.len() || buf[i] != 0 {
        i
    } else {
        gap_end(buf, i + 1)
    }
}

/// The non-empty byte strings from `pos` on, at most `limit` of them.
pub open spec fn strings_from(buf: Seq<u8>, pos: int, limit: nat) -> Seq<Seq<u8>>
    decreases buf.len() - pos,
{
    if pos < 0 || pos >= buf.len() || limit == 0 {
        Seq::empty()
    } else {
        let end = run_end(buf, pos);
        if end <= pos {
            strings_from(buf, pos + 1, limit)
        } else if end >= buf.len() {
            seq![buf.subrange(pos, end)]
        } else {
            seq![buf.subrange(pos, end)] + strings_from(buf, end + 1, (limit - 1) as nat)
        }
    }
}

pub open spec fn texts_of(parts: Seq<Seq<u8>>) -> Seq<Seq<char>> {
    parts.map_values(|b: Seq<u8>| lossy_text(b))
}

fn seek_nul(buf: &[u8], from: usize) -> (r: usize)
    requires
        from <= buf@.len(),
    ensures
        r == run_end(buf@, from as int),
        from <= r <= buf@.len(),
        r < buf@.len() ==> buf@[r as int] == 0,
        from < buf@.len() && buf@[from as int] != 0 ==> r > from,
{
    let mut i: usize = from;
    while i < buf.len() && buf[i] != 0
        invariant
            from <= i <= buf@.len(),
            run_end(buf@, from as int) == run_end(buf@, i as int),
        decreases buf.len() - i,
    {
        i += 1;
    }
    i
}

fn skip_nul(buf: &[u8], from: usize) -> (r: usize)
    requires
        from <= buf@.len(),
    ensures
        r == gap_end(buf@, from as int),
        from <= r <= buf@.len(),
{
    let mut i: usize = from;
    while i < buf.len() && buf[i] == 0
        invariant
            from <= i <= buf@.len(),
            gap_end(buf@, from as int) == gap_end(buf@, i as int),
        decreases buf.len() - i,
    {
        i += 1;
    }
    i
}

/// The texts of the byte strings from `from` on, at most `limit` of them.
fn read_strings(buf: &[u8], from: usize, limit: usize) -> (r: Vec<String>)
    requires
        from <= buf@.len(),
    ensures
        views(r@) == texts_of(strings_from(buf@, from as int, limit as nat)),
{
    let mut out: Vec<String> = Vec::new();
    let mut pos: usize = from;
    let ghost want = texts_of(strings_from(buf@, from as int, limit as nat));
    assert(views(out@) + texts_of(strings_from(buf@, from as int, limit as nat)) =~= want);
    while pos < buf.len() && out.len() < limit
        invariant
            pos <= buf@.len(),
            out@.len() <= limit,
            views(out@) + texts_of(strings_from(buf@, pos as int, (limit - out@.len()) as nat))
                == want,
        decreases buf.len() - pos,
    {
        let ghost left = (limit - out@.len()) as nat;
        let end: usize = seek_nul(buf, pos);
        if end > pos {
            let piece = slice_subrange(buf, pos, end);
            let ghost before = views(out@);
            let ghost tail = if end < buf@.len() {
                strings_from(buf@, end + 1, (left - 1) as nat)
            } else {
                Seq::empty()
            };
            assert(strings_from(buf@, pos as int, left) =~= seq![piece@] + tail);
            out.push(lossy(piece));
            assert(views(out@) =~= before.push(lossy_text(piece@)));
            assert(texts_of(seq![piece@] + tail) =~= seq![lossy_text(piece@)] + texts_of(tail));
            assert(views(out@) + texts_of(tail) =~= before + (seq![lossy_text(piece@)] + texts_of(
                tail,
            )));
            if end < buf.len() {
                pos = end + 1;
            } else {
                assert(tail =~= strings_from(buf@, end as int, (left - 1) as nat));
                pos = end;
            }
        } else {
            pos += 1;
        }
    }
    assert(strings_from(buf@, pos as int, (limit - out@.len()) as nat) =~= Seq::<Seq<u8>>::empty());
    assert(views(out@) + texts_of(Seq::<Seq<u8>>::empty()) =~= views(out@));
    out
}

/// The text before the first NUL of a fixed array.
pub fn c_string(bytes: &[u8]) -> (r: String)
    ensures
        r@ == lossy_text(bytes@.take(run_end(bytes@, 0))),
{
    let end: usize = seek_nul(bytes, 0);
    let head = slice_subrange(bytes, 0, end);
    assert(head@ =~= bytes@.take(end as int));
    lossy(head)
}

// ---------------------------------------------------------------------------
// Linux
// ---------------------------------------------------------------------------
/// The command line of a process as `/proc/<pid>/cmdline` holds it.
pub open spec fn cmdline_of(raw: Seq<u8>) -> Seq<Seq<char>> {
    texts_of(strings_from(raw, 0, raw.len()))
}

/// The command of a child process unless it is screen itself or has none.
pub open spec fn child_command_of(raw: Seq<u8>) -> Option<Seq<char>> {
    let argv = cmdline_of(raw);
    if argv.len() == 0 || is_screen(argv[0]) {
        None
    } else {
        Some(join_of(argv, " "@))
    }
}

pub fn child_command(raw: &[u8]) -> (r: Option<String>)
    ensures
        opt_view(r) == child_command_of(raw@),
{
    let argv: Vec<String> = read_strings(raw, 0, raw.len());
    if argv.len() == 0 {
        return None;
    }
    assert(cmdline_of(raw@)[0] == argv@[0]@);
    if is_screen_binary(argv[0].as_str()) {
        None
    } else {
        Some(join(&argv, " "))
    }
}

/// The first command among the children; one that cannot be read is passed over.
pub open spec fn first_command(children: Seq<Option<Vec<u8>>>) -> Option<Seq<char>>
    decreases children.len(),
{
    if children.len() == 0 {
        None
    } else {
        let here = match children[0] {
            Some(raw) => child_command_of(raw@),
            None => None,
        };
        match here {
            Some(c) => Some(c),
            None => first_command(children.drop_first()),
        }
    }
}

/// What `/proc` tells of a session: its working directory, and the command of
/// its first child that is not screen itself. `children` holds the raw command
/// lines of the children in order, `None` for one that could not be read.
pub fn linux_meta(cwd: Option<String>, children: &Vec<Option<Vec<u8>>>) -> (r: Option<Meta>)
    ensures
        opt_meta_view(r) == combined(opt_view(cwd), first_command(children@)),
{
    let mut command: Option<String> = None;
    let mut i: usize = 0;
    assert(children@.skip(0) =~= children@);
    while i < children.len() && command.is_none()
        invariant
            i <= children@.len(),
            match command {
                Some(c) => first_command(children@) == Some(c@),
                None => first_command(children@) == first_command(children@.skip(i as int)),
            },
        decreases children.len() - i,
    {
        assert(children@.skip(i as int)[0] == children@[i as int]);
        assert(children@.skip(i as int).drop_first() =~= children@.skip(i + 1));
        match &children[i] {
            Some(raw) => {
                command = child_command(raw.as_slice());
            },
            None => {},
        }
        i += 1;
    }
    Meta::combine(cwd, command)
}

// ---------------------------------------------------------------------------
// macOS
// ---------------------------------------------------------------------------
/// A child process as the kernel describes it: its short name and its arguments.
pub struct ChildProcess {
    pub comm: Option<String>,
    pub argv: Option<String>,
}

/// The first child with a name other than screen; its arguments if they could
/// be read, else its name.
pub open spec fn first_named_child(children: Seq<ChildProcess>) -> Option<Seq<char>>
    decreases children.len(),
{
    if children.len() == 0 {
        None
    } else {
        match children[0].comm {
            Some(comm) if !is_screen(comm@) => Some(
                match children[0].argv {
                    Some(argv) => argv@,
                    None => comm@,
                },
            ),
            _ => first_named_child(children.drop_first()),
        }
    }
}

pub fn child_command_argv(children: &Vec<ChildProcess>) -> (r: Option<String>)
    ensures
        opt_view(r) == first_named_child(children@),
{
    let mut i: usize = 0;
    assert(children@.skip(0) =~= children@);
    while i < children.len()
        invariant
            i <= children@.len(),
            first_named_child(children@) == first_named_child(children@.skip(i as int)),
        decreases children.len() - i,
    {
        assert(children@.skip(i as int)[0] == children@[i as int]);
        assert(children@.skip(i as int).drop_first() =~= children@.skip(i + 1));
        match &children[i].comm {
            Some(comm) => {
                if !is_screen_binary(comm.as_str()) {
                    return match &children[i].argv {
                        Some(argv) => Some(argv.clone()),
                        None => Some(comm.clone()),
                    };
                }
            },
            None => {},
        }
        i += 1;
    }
    None
}

/// What the kernel tells of a session on macOS.
pub fn macos_meta(cwd: Option<String>, children: &Vec<ChildProcess>) -> (r: Option<Meta>)
    ensures
        opt_meta_view(r) == combined(opt_view(cwd), first_named_child(children@)),
{
    let command: Option<String> = child_command_argv(children);
    Meta::combine(cwd, command)
}

/// What to do with a list of child processes that was read into a buffer.
#[derive(Debug, Clone, Copy, PartialEq, Eq, Structural)]
pub enum ChildList {
    /// The buffer holds this many process numbers.
    Complete(usize),
    /// The buffer was too small; try one of this size.
    Retry(usize),
    /// No list can be had.
    Unavailable,
}

/// Judges a call that filled a buffer for `capacity` process numbers: a full
/// buffer may be short, so it is made four times as large, up to 64 Ki.
pub fn proc_child_pids(capacity: usize, got: i32) -> (r: ChildList)
    requires
        0 < capacity <= 0x1_0000,
    ensures
        r == if got < 0 {
            ChildList::Unavailable
        } else if got < capacity {
            ChildList::Complete(got as usize)
        } else if capacity * 4 <= 0x1_0000 {
            ChildList::Retry((capacity * 4) as usize)
        } else {
            ChildList::Unavailable
        },
{
    if got < 0 {
        return ChildList::Unavailable;
    }
    let count: usize = got as usize;
    if count < capacity {
        return ChildList::Complete(count);
    }
    let next: usize = capacity * 4;
    if next > 0x1_0000 {
        ChildList::Unavailable
    } else {
        ChildList::Retry(next)
    }
}

pub open spec fn little_endian(b0: u8, b1: u8, b2: u8, b3: u8) -> nat {
    (b0 + 0x100 * b1 + 0x1_0000 * b2 + 0x100_0000 * b3) as nat
}

/// `u32::from_ne_bytes`: the number that four bytes hold in the byte order of
/// the machine, little-endian or big-endian.
#[verifier::external_body]
fn native_u32(b0: u8, b1: u8, b2: u8, b3: u8) -> (r: u32)
    ensures
        r == little_endian(b0, b1, b2, b3) || r == little_endian(b3, b2, b1, b0),
{
    u32::from_ne_bytes([b0, b1, b2, b3])
}

/// The command line in a `KERN_PROCARGS2` buffer that announces `argc`
/// arguments: after the count come the path of the executable, padding, the
/// arguments and then the environment, which is not read.
pub open spec fn procargs_of(argc: nat, buf: Seq<u8>) -> Option<Seq<char>> {
    if buf.len() < 5 || argc == 0 {
        None
    } else {
        let argv = texts_of(strings_from(buf, gap_end(buf, run_end(buf, 4)), argc));
        if argv.len() == 0 {
            None
        } else {
            Some(join_of(argv, " "@))
        }
    }
}

/// Reads the arguments of a `KERN_PROCARGS2` buffer whose count is known. A
/// count that is too high takes what is there.
pub fn parse_arguments(argc: u32, buf: &[u8]) -> (r: Option<String>)
    ensures
        opt_view(r) == procargs_of(argc as nat, buf@),
{
    if buf.len() < 5 || argc == 0 {
        return None;
    }
    let path_end: usize = seek_nul(buf, 4);
    let start: usize = skip_nul(buf, path_end);
    let argv: Vec<String> = read_strings(buf, start, argc as usize);
    if argv.len() == 0 {
        None
    } else {
        Some(join(&argv, " "))
    }
}

/// Reads a `KERN_PROCARGS2` buffer, whose first four bytes count the arguments
/// in the byte order of the machine.
pub fn parse_procargs2(buf: &[u8]) -> (r: Option<String>)
    ensures
        buf@.len() < 5 ==> r is None,
        buf@.len() >= 5 ==> (opt_view(r) == procargs_of(
            little_endian(buf@[0], buf@[1], buf@[2], buf@[3]),
            buf@,
        ) || opt_view(r) == procargs_of(
            little_endian(buf@[3], buf@[2], buf@[1], buf@[0]),
            buf@,
        )),
{
    if buf.len() < 5 {
        return None;
    }
    let argc: u32 = native_u32(buf[0], buf[1], buf[2], buf[3]);
    parse_arguments(argc, buf)
}

// ---------------------------------------------------------------------------
// Cache
// ---------------------------------------------------------------------------
/// What was found, by process number. Dropped on every refresh.
#[derive(Debug)]
pub struct MetaCache {
    entries: BTreeMap<u32, Meta>,
}

impl View for MetaCache {
    type V = Map<u32, MetaView>;

    closed spec fn view(&self) -> Map<u32, MetaView> {
        self.entries@.map_values(|m: Meta| m@)
    }
}

/// The contents after asking for `pid`, where a probe would find `found`.
pub open spec fn cache_after(
    cache: Map<u32, MetaView>,
    pid: u32,
    found: Option<MetaView>,
) -> Map<u32, MetaView> {
    match found {
        Some(m) if !cache.contains_key(pid) => cache.insert(pid, m),
        _ => cache,
    }
}

pub open spec fn cached(cache: Map<u32, MetaView>, pid: u32) -> Option<MetaView> {
    if cache.contains_key(pid) {
        Some(cache[pid])
    } else {
        None
    }
}

impl Default for MetaCache {
    fn default() -> (r: Self)
        ensures
            r@ == Map::<u32, MetaView>::empty(),
    {
        let r = MetaCache { entries: BTreeMap::new() };
        assert(r@ =~= Map::<u32, MetaView>::empty());
        r
    }
}

impl MetaCache {
    /// The entry for `pid`. Where there is none, the finding of a probe is
    /// stored first; a probe that found nothing is not remembered.
    pub fn get(&mut self, pid: u32, probed: Option<Meta>) -> (r: Option<&Meta>)
        ensures
            final(self)@ == cache_after(old(self)@, pid, opt_meta_view(probed)),
            match r {
                Some(m) => cached(final(self)@, pid) == Some(m@),
                None => cached(final(self)@, pid) is None,
            },
    {
        assert(key_obeys_cmp_spec::<u32>());
        if !self.entries.contains_key(&pid) {
            if let Some(meta) = probed {
                let ghost before = self@;
                self.entries.insert(pid, meta);
                assert(self@ =~= before.insert(pid, meta@));
            }
        }
        self.entries.get(&pid)
    }

    /// The entry for `pid` without a probe.
    pub fn peek(&self, pid: u32) -> (r: Option<&Meta>)
        ensures
            match r {
                Some(m) => cached(self@, pid) == Some(m@),
                None => cached(self@, pid) is None,
            },
    {
        assert(key_obeys_cmp_spec::<u32>());
        self.entries.get(&pid)
    }

    /// Drops the entry for `pid`.
    pub fn invalidate(&mut self, pid: u32)
        ensures
            final(self)@ == old(self)@.remove(pid),
    {
        assert(key_obeys_cmp_spec::<u32>());
        let ghost before = self@;
        self.entries.remove(&pid);
        assert(self@ =~= before.remove(pid));
    }

    pub fn clear(&mut self)
        ensures
            final(self)@ == Map::<u32, MetaView>::empty(),
    {
        self.entries.clear();
        assert(self@ =~= Map::<u32, MetaView>::empty());
    }

    pub fn len(&self) -> (r: usize)
        ensures
            r == self@.dom().len(),
    {
        assert(key_obeys_cmp_spec::<u32>());
        assert(self@.dom() =~= self.entries@.dom());
        self.entries.len()
    }

    pub fn is_empty(&self) -> (r: bool)
        ensures
            r == (self@.dom() =~= Set::<u32>::empty()),
    {
        assert(self@.dom() =~= self.entries@.dom());
        self.entries.is_empty()
    }
}

/// A finding is kept until it is dropped: asking again gives the same answer,
/// whatever a new probe would find. A miss leaves no trace.
pub proof fn hits_are_cached_and_misses_are_not(
    cache: Map<u32, MetaView>,
    pid: u32,
    first: MetaView,
    later: Option<MetaView>,
)
    requires
        !cache.contains_key(pid),
    ensures
        cached(cache_after(cache_after(cache, pid, Some(first)), pid, later), pid) == Some(first),
        cache_after(cache, pid, None) == cache,
        cached(cache_after(cache, pid, Some(first)).remove(pid), pid) is None,
{
}

} // verus!
