//! Configuration: its values, where it is kept, and when it may be written.
//!
//! A file of a newer version is read but never written. A broken file is backed
//! up and the defaults are used.

use crate::text::{
    chars_of, clone_opt, decimal, decimal_of, less, opt_view, same_str, text_less,
    text_order_is_total, text_order_is_transitive, views,
};
use vstd::prelude::*;

verus! {

/// The name of the configuration directory.
pub const APP_DIR: &'static str = "screen-tui";

/// The environment variable that overrides the configuration directory.
pub const HOME_ENV: &'static str = "SCREEN_TUI_HOME";

/// The newest configuration version that is understood.
pub const CONFIG_VERSION: u32 = 1;

// ---------------------------------------------------------------------------
// Values
// ---------------------------------------------------------------------------
/// Behaviour of the interface.
#[derive(Debug, PartialEq, Eq)]
pub struct UiConfig {
    /// `auto`, or the name of a layout tier.
    pub layout: String,
    /// Below this many columns the narrow layout is used.
    pub narrow_cols: u16,
    /// From this many columns on two panes are shown.
    pub wide_cols: u16,
    /// The refresh interval in milliseconds.
    pub refresh_ms: u64,
    /// State icons instead of state words.
    pub icons: bool,
}

/// The model of [`UiConfig`].
#[verifier::ext_equal]
pub struct UiModel {
    pub layout: Seq<char>,
    pub narrow_cols: u16,
    pub wide_cols: u16,
    pub refresh_ms: u64,
    pub icons: bool,
}

impl View for UiConfig {
    type V = UiModel;

    open spec fn view(&self) -> UiModel {
        UiModel {
            layout: self.layout@,
            narrow_cols: self.narrow_cols,
            wide_cols: self.wide_cols,
            refresh_ms: self.refresh_ms,
            icons: self.icons,
        }
    }
}

pub open spec fn default_ui() -> UiModel {
    UiModel {
        layout: "auto"@,
        narrow_cols: crate::ui::layout::NARROW_COLS,
        wide_cols: crate::ui::layout::WIDE_COLS,
        refresh_ms: 3000,
        icons: true,
    }
}

impl Default for UiConfig {
    fn default() -> (r: Self)
        ensures
            r@ == default_ui(),
    {
        UiConfig {
            layout: "auto".to_owned(),
            narrow_cols: crate::ui::layout::NARROW_COLS,
            wide_cols: crate::ui::layout::WIDE_COLS,
            refresh_ms: 3000,
            icons: true,
        }
    }
}

impl Clone for UiConfig {
    fn clone(&self) -> (r: Self)
        ensures
            r@ == self@,
    {
        UiConfig {
            layout: self.layout.clone(),
            narrow_cols: self.narrow_cols,
            wide_cols: self.wide_cols,
            refresh_ms: self.refresh_ms,
            icons: self.icons,
        }
    }
}

/// Preferences for new sessions.
#[derive(Debug, PartialEq, Eq)]
pub struct Defaults {
    pub use_utf8: bool,
    pub prefer_256color: bool,
    /// Enter a session right after it was created.
    pub attach_after_create: bool,
    /// The escape prefix for hints; `None` means that it is looked up.
    pub escape_prefix: Option<String>,
}

/// The model of [`Defaults`].
#[verifier::ext_equal]
pub struct DefaultsModel {
    pub use_utf8: bool,
    pub prefer_256color: bool,
    pub attach_after_create: bool,
    pub escape_prefix: Option<Seq<char>>,
}

impl View for Defaults {
    type V = DefaultsModel;

    open spec fn view(&self) -> DefaultsModel {
        DefaultsModel {
            use_utf8: self.use_utf8,
            prefer_256color: self.prefer_256color,
            attach_after_create: self.attach_after_create,
            escape_prefix: opt_view(self.escape_prefix),
        }
    }
}

pub open spec fn default_defaults() -> DefaultsModel {
    DefaultsModel {
        use_utf8: true,
        prefer_256color: true,
        attach_after_create: true,
        escape_prefix: None,
    }
}

impl Default for Defaults {
    fn default() -> (r: Self)
        ensures
            r@ == default_defaults(),
    {
        Defaults {
            use_utf8: true,
            prefer_256color: true,
            attach_after_create: true,
            escape_prefix: None,
        }
    }
}

impl Clone for Defaults {
    fn clone(&self) -> (r: Self)
        ensures
            r@ == self@,
    {
        Defaults {
            use_utf8: self.use_utf8,
            prefer_256color: self.prefer_256color,
            attach_after_create: self.attach_after_create,
            escape_prefix: clone_opt(&self.escape_prefix),
        }
    }
}

/// A directory that was used. The order of the list tells how recently; the
/// stamp is only shown.
#[derive(Debug, PartialEq, Eq)]
pub struct DirEntry {
    pub path: String,
    pub last_used: String,
}

/// The model of a [`DirEntry`].
#[verifier::ext_equal]
pub struct DirModel {
    pub path: Seq<char>,
    pub last_used: Seq<char>,
}

impl View for DirEntry {
    type V = DirModel;

    open spec fn view(&self) -> DirModel {
        DirModel { path: self.path@, last_used: self.last_used@ }
    }
}

impl Clone for DirEntry {
    fn clone(&self) -> (r: Self)
        ensures
            r@ == self@,
    {
        DirEntry { path: self.path.clone(), last_used: self.last_used.clone() }
    }
}

pub open spec fn dir_views(v: Seq<DirEntry>) -> Seq<DirModel> {
    v.map_values(|d: DirEntry| d@)
}

/// What is remembered of a session. A managed session was created here and can
/// be started again; of others only the sighting is kept.
#[derive(Debug, PartialEq, Eq)]
pub struct SessionMeta {
    pub alias: Option<String>,
    pub note: Option<String>,
    pub managed: bool,
    pub command: Option<String>,
    pub cwd: Option<String>,
    pub last_seen: Option<String>,
}

/// The model of [`SessionMeta`].
#[verifier::ext_equal]
pub struct MetaModel {
    pub alias: Option<Seq<char>>,
    pub note: Option<Seq<char>>,
    pub managed: bool,
    pub command: Option<Seq<char>>,
    pub cwd: Option<Seq<char>>,
    pub last_seen: Option<Seq<char>>,
}

impl View for SessionMeta {
    type V = MetaModel;

    open spec fn view(&self) -> MetaModel {
        MetaModel {
            alias: opt_view(self.alias),
            note: opt_view(self.note),
            managed: self.managed,
            command: opt_view(self.command),
            cwd: opt_view(self.cwd),
            last_seen: opt_view(self.last_seen),
        }
    }
}

pub open spec fn no_meta() -> MetaModel {
    MetaModel {
        alias: None,
        note: None,
        managed: false,
        command: None,
        cwd: None,
        last_seen: None,
    }
}

impl Default for SessionMeta {
    fn default() -> (r: Self)
        ensures
            r@ == no_meta(),
    {
        SessionMeta {
            alias: None,
            note: None,
            managed: false,
            command: None,
            cwd: None,
            last_seen: None,
        }
    }
}

impl Clone for SessionMeta {
    fn clone(&self) -> (r: Self)
        ensures
            r@ == self@,
    {
        SessionMeta {
            alias: clone_opt(&self.alias),
            note: clone_opt(&self.note),
            managed: self.managed,
            command: clone_opt(&self.command),
            cwd: clone_opt(&self.cwd),
            last_seen: clone_opt(&self.last_seen),
        }
    }
}

// ---------------------------------------------------------------------------
// The table of sessions
// ---------------------------------------------------------------------------
/// One remembered session.
#[derive(Debug, PartialEq, Eq)]
pub struct SessionEntry {
    pub name: String,
    pub meta: SessionMeta,
}

/// The model of a [`SessionEntry`].
#[verifier::ext_equal]
pub struct EntryModel {
    pub name: Seq<char>,
    pub meta: MetaModel,
}

impl View for SessionEntry {
    type V = EntryModel;

    open spec fn view(&self) -> EntryModel {
        EntryModel { name: self.name@, meta: self.meta@ }
    }
}

impl Clone for SessionEntry {
    fn clone(&self) -> (r: Self)
        ensures
            r@ == self@,
    {
        SessionEntry { name: self.name.clone(), meta: self.meta.clone() }
    }
}

/// The remembered sessions by name, in order of the names.
#[derive(Debug, PartialEq, Eq)]
pub struct SessionTable {
    entries: Vec<SessionEntry>,
}

pub open spec fn entry_views(v: Seq<SessionEntry>) -> Seq<EntryModel> {
    v.map_values(|e: SessionEntry| e@)
}

impl View for SessionTable {
    type V = Seq<EntryModel>;

    closed spec fn view(&self) -> Seq<EntryModel> {
        entry_views(self.entries@)
    }
}

/// The position of a name, or the number of entries.
pub open spec fn position_of(table: Seq<EntryModel>, name: Seq<char>) -> nat
    decreases table.len(),
{
    if table.len() == 0 || table[0].name == name {
        0
    } else {
        1 + position_of(table.drop_first(), name)
    }
}

/// Where a new name belongs: behind the names that are less.
pub open spec fn slot_of(table: Seq<EntryModel>, name: Seq<char>) -> nat
    decreases table.len(),
{
    if table.len() == 0 || !text_less(table[0].name, name) {
        0
    } else {
        1 + slot_of(table.drop_first(), name)
    }
}

pub open spec fn table_get(table: Seq<EntryModel>, name: Seq<char>) -> Option<MetaModel> {
    let i = position_of(table, name) as int;
    if i < table.len() {
        Some(table[i].meta)
    } else {
        None
    }
}

pub open spec fn table_put(
    table: Seq<EntryModel>,
    name: Seq<char>,
    meta: MetaModel,
) -> Seq<EntryModel> {
    let i = position_of(table, name) as int;
    if i < table.len() {
        table.update(i, EntryModel { name, meta })
    } else {
        table.insert(slot_of(table, name) as int, EntryModel { name, meta })
    }
}

pub open spec fn table_remove(table: Seq<EntryModel>, name: Seq<char>) -> Seq<EntryModel> {
    let i = position_of(table, name) as int;
    if i < table.len() {
        table.remove(i)
    } else {
        table
    }
}

pub open spec fn table_names(table: Seq<EntryModel>) -> Seq<Seq<char>> {
    table.map_values(|e: EntryModel| e.name)
}

/// The names are in strictly ascending order.
pub open spec fn table_sorted(table: Seq<EntryModel>) -> bool {
    forall|i: int, j: int|
        0 <= i < j < table.len() ==> text_less(
            (#[trigger] table[i]).name,
            (#[trigger] table[j]).name,
        )
}

pub proof fn lemma_position(table: Seq<EntryModel>, name: Seq<char>)
    ensures
        position_of(table, name) <= table.len(),
        position_of(table, name) < table.len() ==> table[position_of(table, name) as int].name
            == name,
        forall|k: int| 0 <= k < position_of(table, name) ==> (#[trigger] table[k]).name != name,
    decreases table.len(),
{
    if table.len() == 0 || table[0].name == name {
    } else {
        let rest = table.drop_first();
        lemma_position(rest, name);
        assert forall|k: int| 0 <= k < position_of(table, name) implies (
        #[trigger] table[k]).name != name by {
            if k > 0 {
                assert(rest[k - 1] == table[k]);
            }
        }
    }
}

pub proof fn lemma_slot(table: Seq<EntryModel>, name: Seq<char>)
    ensures
        slot_of(table, name) <= table.len(),
        slot_of(table, name) < table.len() ==> !text_less(
            table[slot_of(table, name) as int].name,
            name,
        ),
        forall|k: int|
            0 <= k < slot_of(table, name) ==> text_less((#[trigger] table[k]).name, name),
    decreases table.len(),
{
    if table.len() == 0 || !text_less(table[0].name, name) {
    } else {
        let rest = table.drop_first();
        lemma_slot(rest, name);
        assert forall|k: int| 0 <= k < slot_of(table, name) implies text_less(
            (#[trigger] table[k]).name,
            name,
        ) by {
            if k > 0 {
                assert(rest[k - 1] == table[k]);
            }
        }
    }
}

proof fn lemma_position_is(table: Seq<EntryModel>, name: Seq<char>, i: int)
    requires
        0 <= i <= table.len(),
        i < table.len() ==> table[i].name == name,
        forall|k: int| 0 <= k < i ==> (#[trigger] table[k]).name != name,
    ensures
        position_of(table, name) == i,
{
    lemma_position(table, name);
    let p = position_of(table, name) as int;
    if p < i {
        assert(table[p].name != name);
    }
    if i < p {
        assert(table[i].name != name);
    }
}

/// A table starts in order, and storing or dropping a name keeps it so: a name
/// occurs at most once.
pub proof fn table_stays_sorted(table: Seq<EntryModel>, name: Seq<char>, meta: MetaModel)
    requires
        table_sorted(table),
    ensures
        table_sorted(table_put(table, name, meta)),
        table_sorted(table_remove(table, name)),
        table_sorted(Seq::<EntryModel>::empty()),
{
    lemma_position(table, name);
    lemma_slot(table, name);
    let i = position_of(table, name) as int;
    if i < table.len() {
        let put = table_put(table, name, meta);
        assert forall|a: int, b: int| 0 <= a < b < put.len() implies text_less(
            (#[trigger] put[a]).name,
            (#[trigger] put[b]).name,
        ) by {
            assert(put[a].name == table[a].name);
            assert(put[b].name == table[b].name);
        }
        let cut = table_remove(table, name);
        assert forall|a: int, b: int| 0 <= a < b < cut.len() implies text_less(
            (#[trigger] cut[a]).name,
            (#[trigger] cut[b]).name,
        ) by {
            let x = if a < i {
                a
            } else {
                a + 1
            };
            let y = if b < i {
                b
            } else {
                b + 1
            };
            assert(cut[a] == table[x] && cut[b] == table[y]);
        }
    } else {
        let s = slot_of(table, name) as int;
        let put = table_put(table, name, meta);
        assert forall|a: int, b: int| 0 <= a < b < put.len() implies text_less(
            (#[trigger] put[a]).name,
            (#[trigger] put[b]).name,
        ) by {
            if a < s {
                assert(put[a] == table[a]);
            } else if a > s {
                assert(put[a] == table[a - 1]);
            }
            if b < s {
                assert(put[b] == table[b]);
            } else if b > s {
                assert(put[b] == table[b - 1]);
            }
            if b == s {
                assert(text_less(table[a].name, name));
            } else if a == s {
                text_order_is_total(table[b - 1].name, name);
                assert(table[b - 1].name != name);
                if b - 1 > s {
                    text_order_is_total(table[s].name, name);
                    assert(table[s].name != name);
                    assert(text_less(table[s].name, table[b - 1].name));
                    text_order_is_transitive(name, table[s].name, table[b - 1].name);
                }
            }
        }
    }
}

/// Reading gives back what was stored last, and other names are not affected.
pub proof fn table_reads_what_was_stored(
    table: Seq<EntryModel>,
    name: Seq<char>,
    meta: MetaModel,
    other: Seq<char>,
)
    requires
        other != name,
    ensures
        table_get(table_put(table, name, meta), name) == Some(meta),
        table_get(table_put(table, name, meta), other) == table_get(table, other),
{
    lemma_position(table, name);
    lemma_position(table, other);
    lemma_slot(table, name);
    let i = position_of(table, name) as int;
    let o = position_of(table, other) as int;
    let put = table_put(table, name, meta);
    if i < table.len() {
        lemma_position_is(put, name, i);
        assert forall|k: int| 0 <= k < o implies (#[trigger] put[k]).name != other by {
            assert(k == i || put[k] == table[k]);
        }
        if o < table.len() {
            assert(o != i);
        }
        lemma_position_is(put, other, o);
    } else {
        let s = slot_of(table, name) as int;
        assert forall|k: int| 0 <= k < s implies (#[trigger] put[k]).name != name by {
            assert(put[k] == table[k]);
        }
        lemma_position_is(put, name, s);
        let p = if o < s {
            o
        } else {
            o + 1
        };
        assert forall|k: int| 0 <= k < p implies (#[trigger] put[k]).name != other by {
            if k < s {
                assert(put[k] == table[k]);
            } else if k > s {
                assert(put[k] == table[k - 1]);
            }
        }
        if p < put.len() {
            assert(put[p] == table[o]);
        }
        lemma_position_is(put, other, p);
    }
}

/// In a table in order a dropped name is gone, and other names are not affected.
pub proof fn table_forgets_what_was_dropped(
    table: Seq<EntryModel>,
    name: Seq<char>,
    other: Seq<char>,
)
    requires
        table_sorted(table),
        other != name,
    ensures
        table_get(table_remove(table, name), name) is None,
        table_get(table_remove(table, name), other) == table_get(table, other),
{
    lemma_position(table, name);
    lemma_position(table, other);
    let i = position_of(table, name) as int;
    let o = position_of(table, other) as int;
    let cut = table_remove(table, name);
    if i < table.len() {
        assert forall|k: int| 0 <= k < cut.len() implies (#[trigger] cut[k]).name != name by {
            if k < i {
                assert(cut[k] == table[k]);
            } else {
                assert(cut[k] == table[k + 1]);
                assert(text_less(table[i].name, table[k + 1].name));
                text_order_is_total(name, name);
            }
        }
        lemma_position_is(cut, name, cut.len() as int);
        let p = if o < i {
            o
        } else {
            o - 1
        };
        assert forall|k: int| 0 <= k < p implies (#[trigger] cut[k]).name != other by {
            if k < i {
                assert(cut[k] == table[k]);
            } else {
                assert(cut[k] == table[k + 1]);
            }
        }
        if o < table.len() {
            assert(o != i);
            assert(cut[p] == table[o]);
        }
        lemma_position_is(cut, other, p);
    }
}

impl SessionTable {
    pub fn new() -> (r: Self)
        ensures
            r@ == Seq::<EntryModel>::empty(),
    {
        let r = SessionTable { entries: Vec::new() };
        assert(r@ =~= Seq::<EntryModel>::empty());
        r
    }

    fn index_of(&self, name: &str) -> (r: usize)
        ensures
            r == position_of(self@, name@),
            r <= self.entries@.len(),
    {
        let ghost all = self@;
        let mut i: usize = 0;
        assert(all.skip(0) =~= all);
        while i < self.entries.len()
            invariant
                all == self@,
                i <= self.entries@.len(),
                position_of(all, name@) == i + position_of(all.skip(i as int), name@),
            decreases self.entries.len() - i,
        {
            assert(all.skip(i as int)[0] == self.entries@[i as int]@);
            if same_str(self.entries[i].name.as_str(), name) {
                return i;
            }
            assert(all.skip(i as int).drop_first() =~= all.skip(i + 1));
            i += 1;
        }
        i
    }

    pub fn len(&self) -> (r: usize)
        ensures
            r == self@.len(),
    {
        self.entries.len()
    }

    pub fn get(&self, name: &str) -> (r: Option<&SessionMeta>)
        ensures
            match r {
                Some(m) => table_get(self@, name@) == Some(m@),
                None => table_get(self@, name@) is None,
            },
    {
        let i: usize = self.index_of(name);
        if i < self.entries.len() {
            assert(self@[i as int] == self.entries@[i as int]@);
            Some(&self.entries[i].meta)
        } else {
            None
        }
    }

    pub fn contains_key(&self, name: &str) -> (r: bool)
        ensures
            r == (table_get(self@, name@) is Some),
    {
        self.index_of(name) < self.entries.len()
    }

    /// The names in order.
    pub fn keys(&self) -> (r: Vec<String>)
        ensures
            views(r@) == table_names(self@),
    {
        let mut out: Vec<String> = Vec::new();
        let mut i: usize = 0;
        while i < self.entries.len()
            invariant
                i <= self.entries@.len(),
                out@.len() == i,
                forall|k: int| 0 <= k < i ==> (#[trigger] out@[k])@ == self.entries@[k]@.name,
            decreases self.entries.len() - i,
        {
            out.push(self.entries[i].name.clone());
            i += 1;
        }
        assert(views(out@) =~= table_names(self@));
        out
    }

    /// Stores what is known of a session.
    pub fn insert(&mut self, name: String, meta: SessionMeta)
        ensures
            final(self)@ == table_put(old(self)@, name@, meta@),
    {
        let ghost all = self@;
        let i: usize = self.index_of(name.as_str());
        let ghost stored = EntryModel { name: name@, meta: meta@ };
        if i < self.entries.len() {
            self.entries.set(i, SessionEntry { name, meta });
            assert(self@ =~= all.update(i as int, stored));
        } else {
            let mut s: usize = 0;
            assert(all.skip(0) =~= all);
            while s < self.entries.len() && less(self.entries[s].name.as_str(), name.as_str())
                invariant
                    all == self@,
                    s <= self.entries@.len(),
                    slot_of(all, name@) == s + slot_of(all.skip(s as int), name@),
                decreases self.entries.len() - s,
            {
                assert(all.skip(s as int)[0] == self.entries@[s as int]@);
                assert(all.skip(s as int).drop_first() =~= all.skip(s + 1));
                s += 1;
            }
            proof {
                if s < self.entries@.len() {
                    assert(all.skip(s as int)[0] == self.entries@[s as int]@);
                }
            }
            self.entries.insert(s, SessionEntry { name, meta });
            assert(self@ =~= all.insert(s as int, stored));
        }
    }

    /// Forgets a session.
    pub fn remove(&mut self, name: &str)
        ensures
            final(self)@ == table_remove(old(self)@, name@),
    {
        let ghost all = self@;
        let i: usize = self.index_of(name);
        if i < self.entries.len() {
            self.entries.remove(i);
            assert(self@ =~= all.remove(i as int));
        }
    }
}

impl Clone for SessionTable {
    fn clone(&self) -> (r: Self)
        ensures
            r@ == self@,
    {
        let mut out: Vec<SessionEntry> = Vec::new();
        let mut i: usize = 0;
        while i < self.entries.len()
            invariant
                i <= self.entries@.len(),
                out@.len() == i,
                forall|k: int| 0 <= k < i ==> (#[trigger] out@[k])@ == self.entries@[k]@,
            decreases self.entries.len() - i,
        {
            out.push(self.entries[i].clone());
            i += 1;
        }
        let r = SessionTable { entries: out };
        assert(r@ =~= self@);
        r
    }
}

// ---------------------------------------------------------------------------
// The configuration
// ---------------------------------------------------------------------------
#[derive(Debug, PartialEq, Eq)]
pub struct Config {
    pub version: u32,
    /// `zh`, `en` or `auto`.
    pub language: String,
    pub ui: UiConfig,
    pub defaults: Defaults,
    /// How many directories are remembered.
    pub max_recent_dirs: usize,
    /// The directories used, the most recent first.
    pub dirs: Vec<DirEntry>,
    pub sessions: SessionTable,
}

/// The model of a [`Config`].
#[verifier::ext_equal]
pub struct ConfigModel {
    pub version: u32,
    pub language: Seq<char>,
    pub ui: UiModel,
    pub defaults: DefaultsModel,
    pub max_recent_dirs: usize,
    pub dirs: Seq<DirModel>,
    pub sessions: Seq<EntryModel>,
}

impl View for Config {
    type V = ConfigModel;

    open spec fn view(&self) -> ConfigModel {
        ConfigModel {
            version: self.version,
            language: self.language@,
            ui: self.ui@,
            defaults: self.defaults@,
            max_recent_dirs: self.max_recent_dirs,
            dirs: dir_views(self.dirs@),
            sessions: self.sessions@,
        }
    }
}

/// A configuration in which nothing was set.
pub open spec fn fresh_config() -> ConfigModel {
    ConfigModel {
        version: CONFIG_VERSION,
        language: "auto"@,
        ui: default_ui(),
        defaults: default_defaults(),
        max_recent_dirs: 10,
        dirs: Seq::empty(),
        sessions: Seq::empty(),
    }
}

impl Default for Config {
    fn default() -> (r: Self)
        ensures
            r@ == fresh_config(),
    {
        Config::new()
    }
}

impl Clone for Config {
    fn clone(&self) -> (r: Self)
        ensures
            r@ == self@,
    {
        let mut dirs: Vec<DirEntry> = Vec::new();
        let mut i: usize = 0;
        while i < self.dirs.len()
            invariant
                i <= self.dirs@.len(),
                dirs@.len() == i,
                forall|k: int| 0 <= k < i ==> (#[trigger] dirs@[k])@ == self.dirs@[k]@,
            decreases self.dirs.len() - i,
        {
            dirs.push(self.dirs[i].clone());
            i += 1;
        }
        assert(dir_views(dirs@) =~= dir_views(self.dirs@));
        Config {
            version: self.version,
            language: self.language.clone(),
            ui: self.ui.clone(),
            defaults: self.defaults.clone(),
            max_recent_dirs: self.max_recent_dirs,
            dirs,
            sessions: self.sessions.clone(),
        }
    }
}

/// The entries of other directories.
pub open spec fn other_dirs(dirs: Seq<DirModel>, path: Seq<char>) -> Seq<DirModel>
    decreases dirs.len(),
{
    if dirs.len() == 0 {
        Seq::empty()
    } else if dirs.last().path == path {
        other_dirs(dirs.drop_last(), path)
    } else {
        other_dirs(dirs.drop_last(), path).push(dirs.last())
    }
}

/// The directory put in front, at most `max` kept.
pub open spec fn touched(
    dirs: Seq<DirModel>,
    path: Seq<char>,
    stamp: Seq<char>,
    max: nat,
) -> Seq<DirModel> {
    let all = seq![DirModel { path, last_used: stamp }] + other_dirs(dirs, path);
    all.take(
        if all.len() <= max {
            all.len() as int
        } else {
            max as int
        },
    )
}

impl Config {
    pub fn new() -> (r: Self)
        ensures
            r@ == fresh_config(),
    {
        let r = Config {
            version: CONFIG_VERSION,
            language: "auto".to_owned(),
            ui: UiConfig::default(),
            defaults: Defaults::default(),
            max_recent_dirs: 10,
            dirs: Vec::new(),
            sessions: SessionTable::new(),
        };
        assert(r@.dirs =~= Seq::<DirModel>::empty());
        r
    }

    /// Notes that a directory was used just now.
    pub fn touch_dir(&mut self, path: &str, stamp: &str)
        ensures
            final(self)@ == (ConfigModel {
                dirs: touched(old(self)@.dirs, path@, stamp@, old(self)@.max_recent_dirs as nat),
                ..old(self)@
            }),
    {
        let ghost before = dir_views(self.dirs@);
        let max: usize = self.max_recent_dirs;
        let mut out: Vec<DirEntry> = Vec::new();
        out.push(DirEntry { path: path.to_owned(), last_used: stamp.to_owned() });
        let ghost head = seq![DirModel { path: path@, last_used: stamp@ }];
        let mut i: usize = 0;
        assert(before.take(0) =~= Seq::<DirModel>::empty());
        assert(dir_views(out@) =~= head + other_dirs(before.take(0), path@));
        while i < self.dirs.len()
            invariant
                before == dir_views(self.dirs@),
                i <= self.dirs@.len(),
                dir_views(out@) == head + other_dirs(before.take(i as int), path@),
            decreases self.dirs.len() - i,
        {
            let ghost done = dir_views(out@);
            assert(before.take(i + 1).drop_last() =~= before.take(i as int));
            assert(before.take(i + 1).last() == self.dirs@[i as int]@);
            if !same_str(self.dirs[i].path.as_str(), path) {
                out.push(self.dirs[i].clone());
                assert(dir_views(out@) =~= done.push(self.dirs@[i as int]@));
                assert(dir_views(out@) =~= head + other_dirs(before.take(i + 1), path@));
            }
            i += 1;
        }
        assert(before.take(i as int) =~= before);
        let ghost all = dir_views(out@);
        if out.len() > max {
            out.truncate(max);
            assert(dir_views(out@) =~= all.take(max as int));
        } else {
            assert(all.take(all.len() as int) =~= all);
        }
        self.dirs = out;
    }
}

proof fn lemma_other_dirs(dirs: Seq<DirModel>, path: Seq<char>)
    ensures
        other_dirs(dirs, path).len() <= dirs.len(),
        forall|i: int|
            0 <= i < other_dirs(dirs, path).len() ==> (#[trigger] other_dirs(dirs, path)[i]).path
                != path,
        forall|d: DirModel| #[trigger]
            other_dirs(dirs, path).contains(d) <==> dirs.contains(d) && d.path != path,
    decreases dirs.len(),
{
    let o = other_dirs(dirs, path);
    if dirs.len() > 0 {
        let rest = dirs.drop_last();
        let p = other_dirs(rest, path);
        lemma_other_dirs(rest, path);
        assert forall|d: DirModel| #[trigger]
            o.contains(d) <==> dirs.contains(d) && d.path != path by {
            if dirs.contains(d) && d.path != path {
                let k = choose|k: int| 0 <= k < dirs.len() && dirs[k] == d;
                if k < rest.len() {
                    assert(rest[k] == d);
                    assert(p.contains(d));
                    let m = choose|m: int| 0 <= m < p.len() && p[m] == d;
                    assert(o[m] == d);
                } else {
                    assert(o[p.len() as int] == d);
                }
            }
            if o.contains(d) {
                let k = choose|k: int| 0 <= k < o.len() && o[k] == d;
                if k < p.len() {
                    assert(p[k] == d);
                    assert(p.contains(d));
                    let m = choose|m: int| 0 <= m < rest.len() && rest[m] == d;
                    assert(dirs[m] == d);
                } else {
                    assert(dirs[dirs.len() - 1] == d);
                }
            }
        }
    }
}

/// No two entries have the same path.
pub open spec fn distinct_dirs(dirs: Seq<DirModel>) -> bool {
    forall|i: int, j: int|
        0 <= i < j < dirs.len() ==> (#[trigger] dirs[i]).path != (#[trigger] dirs[j]).path
}

proof fn lemma_other_dirs_distinct(dirs: Seq<DirModel>, path: Seq<char>)
    requires
        distinct_dirs(dirs),
    ensures
        distinct_dirs(other_dirs(dirs, path)),
    decreases dirs.len(),
{
    if dirs.len() > 0 {
        let rest = dirs.drop_last();
        assert forall|i: int, j: int| 0 <= i < j < rest.len() implies (#[trigger] rest[i]).path
            != (#[trigger] rest[j]).path by {
            assert(rest[i] == dirs[i] && rest[j] == dirs[j]);
        }
        lemma_other_dirs_distinct(rest, path);
        lemma_other_dirs(rest, path);
        let p = other_dirs(rest, path);
        let o = other_dirs(dirs, path);
        assert forall|i: int, j: int| 0 <= i < j < o.len() implies (#[trigger] o[i]).path != (
        #[trigger] o[j]).path by {
            if j < p.len() {
                assert(o[i] == p[i] && o[j] == p[j]);
            } else {
                assert(o[i] == p[i]);
                assert(p.contains(p[i]));
                let m = choose|m: int| 0 <= m < rest.len() && rest[m] == p[i];
                assert(dirs[m] == p[i]);
                assert(dirs[dirs.len() - 1].path != dirs[m].path);
            }
        }
    }
}

/// The directory that was used stands first and only once, there are never more
/// than allowed, and no other directory is invented.
pub proof fn recent_dirs_are_distinct_and_capped(
    dirs: Seq<DirModel>,
    path: Seq<char>,
    stamp: Seq<char>,
    max: nat,
)
    requires
        distinct_dirs(dirs),
    ensures
        touched(dirs, path, stamp, max).len() <= max,
        distinct_dirs(touched(dirs, path, stamp, max)),
        max > 0 ==> touched(dirs, path, stamp, max).len() > 0 && touched(
            dirs,
            path,
            stamp,
            max,
        )[0].path == path,
        forall|d: DirModel| #[trigger]
            touched(dirs, path, stamp, max).contains(d) ==> d.path == path || dirs.contains(d),
{
    let head = DirModel { path, last_used: stamp };
    let o = other_dirs(dirs, path);
    let t = touched(dirs, path, stamp, max);
    lemma_other_dirs(dirs, path);
    lemma_other_dirs_distinct(dirs, path);
    assert forall|i: int, j: int| 0 <= i < j < t.len() implies (#[trigger] t[i]).path != (
    #[trigger] t[j]).path by {
        assert(t[j] == o[j - 1]);
        if i > 0 {
            assert(t[i] == o[i - 1]);
        }
    }
    assert forall|d: DirModel| #[trigger] t.contains(d) implies d.path == path
        || dirs.contains(d) by {
        let k = choose|k: int| 0 <= k < t.len() && t[k] == d;
        if k > 0 {
            assert(o[k - 1] == d);
            assert(o.contains(d));
        }
    }
}

// ---------------------------------------------------------------------------
// Reading and writing
// ---------------------------------------------------------------------------
/// What reading the configuration file led to.
pub enum ReadOutcome {
    /// There is no place for a configuration.
    NoPath,
    /// There is no file yet.
    Missing,
    /// The file could not be read.
    Unreadable { path: String, error: String },
    /// The file is broken; it was copied to `backup`, or could not be.
    Corrupt { error: String, backup: Result<String, String> },
    /// The file holds this.
    Parsed(Config),
}

/// A configuration, what to tell the user, and whether it may be written.
#[derive(Debug)]
pub struct Loaded {
    pub config: Config,
    pub warnings: Vec<String>,
    /// The file is of a newer version and is never written.
    pub read_only: bool,
}

/// The model of [`Loaded`].
#[verifier::ext_equal]
pub struct LoadedModel {
    pub config: ConfigModel,
    pub warnings: Seq<Seq<char>>,
    pub read_only: bool,
}

impl View for Loaded {
    type V = LoadedModel;

    open spec fn view(&self) -> LoadedModel {
        LoadedModel {
            config: self.config@,
            warnings: views(self.warnings@),
            read_only: self.read_only,
        }
    }
}

pub open spec fn newer_warning(version: u32) -> Seq<char> {
    "config version "@ + decimal_of(version as nat)
        + " is newer than this build understands ("@ + decimal_of(CONFIG_VERSION as nat)
        + "); running read-only, your file will not be touched"@
}

pub open spec fn loaded_of(outcome: ReadOutcome) -> LoadedModel {
    match outcome {
        ReadOutcome::NoPath => LoadedModel {
            config: fresh_config(),
            warnings: Seq::empty(),
            read_only: false,
        },
        ReadOutcome::Missing => LoadedModel {
            config: fresh_config(),
            warnings: Seq::empty(),
            read_only: false,
        },
        ReadOutcome::Unreadable { path, error } => LoadedModel {
            config: fresh_config(),
            warnings: seq!["cannot read "@ + path@ + ": "@ + error@ + "; using defaults"@],
            read_only: false,
        },
        ReadOutcome::Corrupt { error, backup } => LoadedModel {
            config: fresh_config(),
            warnings: seq![
                match backup {
                    Ok(path) => "config file is corrupt; backed up to "@ + path@
                        + " and starting with defaults"@,
                    Err(reason) => "config file is corrupt ("@ + error@
                        + ") and could not be backed up ("@ + reason@
                        + "); starting with defaults"@,
                },
            ],
            read_only: false,
        },
        ReadOutcome::Parsed(config) => LoadedModel {
            config: config@,
            warnings: if config.version > CONFIG_VERSION {
                seq![newer_warning(config.version)]
            } else {
                Seq::empty()
            },
            read_only: config.version > CONFIG_VERSION,
        },
    }
}

fn one_warning(s: String) -> (r: Vec<String>)
    ensures
        views(r@) == seq![s@],
{
    let mut v: Vec<String> = Vec::new();
    v.push(s);
    assert(views(v@) =~= seq![s@]);
    v
}

fn no_warnings() -> (r: Vec<String>)
    ensures
        views(r@) == Seq::<Seq<char>>::empty(),
{
    let v: Vec<String> = Vec::new();
    assert(views(v@) =~= Seq::<Seq<char>>::empty());
    v
}

/// Turns what was read into the configuration to run with.
pub fn load_from(outcome: ReadOutcome) -> (r: Loaded)
    ensures
        r@ == loaded_of(outcome),
{
    match outcome {
        ReadOutcome::NoPath => Loaded {
            config: Config::new(),
            warnings: no_warnings(),
            read_only: false,
        },
        ReadOutcome::Missing => Loaded {
            config: Config::new(),
            warnings: no_warnings(),
            read_only: false,
        },
        ReadOutcome::Unreadable { path, error } => {
            let mut s: String = "cannot read ".to_owned();
            s.append(path.as_str());
            s.append(": ");
            s.append(error.as_str());
            s.append("; using defaults");
            Loaded { config: Config::new(), warnings: one_warning(s), read_only: false }
        },
        ReadOutcome::Corrupt { error, backup } => {
            let mut s: String = String::new();
            match backup {
                Ok(path) => {
                    s.append("config file is corrupt; backed up to ");
                    s.append(path.as_str());
                    s.append(" and starting with defaults");
                    assert(s@ =~= "config file is corrupt; backed up to "@ + path@
                        + " and starting with defaults"@);
                },
                Err(reason) => {
                    s.append("config file is corrupt (");
                    s.append(error.as_str());
                    s.append(") and could not be backed up (");
                    s.append(reason.as_str());
                    s.append("); starting with defaults");
                    assert(s@ =~= "config file is corrupt ("@ + error@
                        + ") and could not be backed up ("@ + reason@
                        + "); starting with defaults"@);
                },
            }
            Loaded { config: Config::new(), warnings: one_warning(s), read_only: false }
        },
        ReadOutcome::Parsed(config) => {
            if config.version > CONFIG_VERSION {
                let mut s: String = "config version ".to_owned();
                s.append(decimal(config.version as u64).as_str());
                s.append(" is newer than this build understands (");
                s.append(decimal(CONFIG_VERSION as u64).as_str());
                s.append("); running read-only, your file will not be touched");
                Loaded { config, warnings: one_warning(s), read_only: true }
            } else {
                Loaded { config, warnings: no_warnings(), read_only: false }
            }
        },
    }
}

/// Where to write a configuration: nowhere if it is of a newer version, or if
/// there is no place for it.
pub open spec fn save_target(version: u32, path: Option<Seq<char>>) -> Option<Seq<char>> {
    if version > CONFIG_VERSION {
        None
    } else {
        path
    }
}

pub fn save_to(config: &Config, path: Option<String>) -> (r: Option<String>)
    ensures
        opt_view(r) == save_target(config.version, opt_view(path)),
{
    if config.version > CONFIG_VERSION {
        None
    } else {
        path
    }
}

/// What may be written comes back as it was: a file that reads as this configuration
/// is taken over unchanged, without a warning, and may be written again.
pub proof fn what_is_written_is_taken_over(config: Config, path: Seq<char>)
    ensures
        save_target(config.version, Some(path)) is Some <==> config.version <= CONFIG_VERSION,
        save_target(config.version, Some(path)) is Some ==> {
            let loaded = loaded_of(ReadOutcome::Parsed(config));
            &&& save_target(config.version, Some(path)) == Some(path)
            &&& loaded.config == config@
            &&& loaded.warnings.len() == 0
            &&& !loaded.read_only
            &&& save_target(loaded.config.version, Some(path)) == Some(path)
        },
{
}

/// A configuration that was loaded read-only is never written, wherever it
/// would go; one with defaults in place of a broken file may be.
pub proof fn newer_files_are_never_written(outcome: ReadOutcome, path: Option<Seq<char>>)
    ensures
        loaded_of(outcome).read_only ==> save_target(loaded_of(outcome).config.version, path)
            is None,
        !loaded_of(outcome).read_only ==> save_target(loaded_of(outcome).config.version, path)
            == path,
{
}

// ---------------------------------------------------------------------------
// Places
// ---------------------------------------------------------------------------
/// Why the configuration is where it is.
#[derive(Debug, Clone, Copy, PartialEq, Eq, Structural)]
pub enum DirSource {
    /// `$SCREEN_TUI_HOME`.
    Env,
    /// `$XDG_CONFIG_HOME/screen-tui`.
    Xdg,
    /// `~/.config/screen-tui`.
    Home,
}

pub open spec fn dir_source_label(s: DirSource) -> Seq<char> {
    match s {
        DirSource::Env => "$SCREEN_TUI_HOME"@,
        DirSource::Xdg => "$XDG_CONFIG_HOME/screen-tui"@,
        DirSource::Home => "~/.config/screen-tui"@,
    }
}

impl DirSource {
    pub fn label(self) -> (r: &'static str)
        ensures
            r@ == dir_source_label(self),
    {
        match self {
            DirSource::Env => "$SCREEN_TUI_HOME",
            DirSource::Xdg => "$XDG_CONFIG_HOME/screen-tui",
            DirSource::Home => "~/.config/screen-tui",
        }
    }
}

/// A name inside a directory.
pub open spec fn path_in(dir: Seq<char>, name: Seq<char>) -> Seq<char> {
    if dir.len() == 0 || dir.last() == '/' {
        dir + name
    } else {
        dir + "/"@ + name
    }
}

pub fn join_path(dir: &str, name: &str) -> (r: String)
    ensures
        r@ == path_in(dir@, name@),
{
    let chars: Vec<char> = chars_of(dir);
    let mut out: String = dir.to_owned();
    if chars.len() > 0 && chars[chars.len() - 1] != '/' {
        out.append("/");
    }
    out.append(name);
    out
}

/// A variable that is exported but empty counts as unset.
pub open spec fn non_empty(value: Option<Seq<char>>) -> Option<Seq<char>> {
    match value {
        Some(v) if v.len() > 0 => Some(v),
        _ => None,
    }
}

pub open spec fn config_dir_of(
    own: Option<Seq<char>>,
    xdg: Option<Seq<char>>,
    home: Option<Seq<char>>,
) -> Option<(Seq<char>, DirSource)> {
    match non_empty(own) {
        Some(dir) => Some((dir, DirSource::Env)),
        None => match non_empty(xdg) {
            Some(dir) => Some((path_in(dir, APP_DIR@), DirSource::Xdg)),
            None => match non_empty(home) {
                Some(dir) => Some((path_in(path_in(dir, ".config"@), APP_DIR@), DirSource::Home)),
                None => None,
            },
        },
    }
}

/// Drops an empty value.
pub fn keep_non_empty(value: Option<String>) -> (r: Option<String>)
    ensures
        opt_view(r) == non_empty(opt_view(value)),
{
    match value {
        Some(v) => {
            if v.as_str().is_empty() {
                None
            } else {
                Some(v)
            }
        },
        None => None,
    }
}

/// The configuration directory, from `$SCREEN_TUI_HOME`, `$XDG_CONFIG_HOME` and
/// `$HOME`, in this order.
pub fn config_dir(own: Option<String>, xdg: Option<String>, home: Option<String>) -> (r: Option<
    (String, DirSource),
>)
    ensures
        match config_dir_of(opt_view(own), opt_view(xdg), opt_view(home)) {
            Some((dir, source)) => r matches Some((d, s)) && d@ == dir && s == source,
            None => r is None,
        },
{
    if let Some(dir) = keep_non_empty(own) {
        return Some((dir, DirSource::Env));
    }
    if let Some(dir) = keep_non_empty(xdg) {
        return Some((join_path(dir.as_str(), APP_DIR), DirSource::Xdg));
    }
    match keep_non_empty(home) {
        Some(dir) => {
            let base: String = join_path(dir.as_str(), ".config");
            Some((join_path(base.as_str(), APP_DIR), DirSource::Home))
        },
        None => None,
    }
}

/// The configuration file in its directory.
pub fn config_path(own: Option<String>, xdg: Option<String>, home: Option<String>) -> (r: Option<
    String,
>)
    ensures
        opt_view(r) == match config_dir_of(opt_view(own), opt_view(xdg), opt_view(home)) {
            Some((dir, _)) => Some(path_in(dir, "config.json"@)),
            None => None,
        },
{
    match config_dir(own, xdg, home) {
        Some((dir, _)) => Some(join_path(dir.as_str(), "config.json")),
        None => None,
    }
}

/// The name of the file that tries out whether a directory can be written to.
pub fn write_probe_name(pid: u32) -> (r: String)
    ensures
        r@ == ".stui-write-probe-"@ + decimal_of(pid as nat),
{
    let mut out: String = ".stui-write-probe-".to_owned();
    out.append(decimal(pid as u64).as_str());
    out
}

} // verus!
