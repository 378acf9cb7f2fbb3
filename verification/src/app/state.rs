//! The state of the program: the list, the selection, the filter and refreshing.

use crate::app::names::{
    auto_refresh_of, parse_auto_refresh_secs, parse_window_count, solid_lines,
};
use crate::app::types::{
    AttachChoice, AttachModel, AttachRequest, ChoiceModel, ConfirmAction, ConfirmModel,
    DraftModel, MetaEdit, MetaEditModel, Mode, NewDraft, PreviewModel, PreviewRequest,
    PreviewRequestModel, PreviewView, RenameDraft, RenameModel, RenameRequest, RenameRequestModel,
    RestartModel, RestartRequest, WindowCountCache, WindowCountModel, attach_view, choice_view,
    confirm_view, draft_view, meta_edit_view, preview_request_view, preview_view,
    rename_request_view, rename_view, restart_view, window_count_view,
};
use crate::config::{
    Config, ConfigModel, fresh_config,
};
use crate::i18n::{
    Lang, dict, dict_of, fmt, fmt_of, str_views,
};
use crate::screen::caps::{
    Caps, CapsView, Support,
};
use crate::screen::parse::{
    Enumeration, EnumerationView, SessionRecord, SessionView, session_views,
};
use crate::screen::probe::{
    Meta, MetaCache, MetaView, cache_after, cached, opt_meta_view,
};
use crate::screen::{
    Error, ErrorView, error_text,
};
use crate::text::{
    contains, contains_text, is_ascii_text, lines_of, lower, opt_view, same_str, signed_decimal,
    signed_decimal_of,
};
use vstd::prelude::*;

verus! {

/// How long a window count is used again, in milliseconds.
pub const WINDOW_COUNT_TTL: u64 = 10_000;

/// The environment variable that turns automatic refreshing on, in seconds.
pub const AUTO_REFRESH_ENV: &'static str = "STUI_AUTO_REFRESH";

/// The interval of automatic refreshing where one is wanted, in milliseconds.
pub const REFRESH_INTERVAL: u64 = 3_000;

/// The whole state. Times are milliseconds of a clock that never goes back.
#[derive(Debug)]
pub struct App {
    pub lang: Lang,
    pub caps: Caps,
    pub config: Config,
    pub mode: Mode,
    /// The last listing; none before the first one succeeded.
    pub enumeration: Option<Enumeration>,
    /// The selected row.
    pub selected: usize,
    /// A message in the footer.
    pub status: Option<String>,
    pub draft: Option<NewDraft>,
    pub meta_cache: MetaCache,
    /// What runs in the selected session.
    pub meta: Option<Meta>,
    pub attach: Option<AttachChoice>,
    pub confirm: Option<ConfirmAction>,
    pub rename: Option<RenameDraft>,
    pub escape_prefix: Option<String>,
    /// The address of the session that the program itself runs in.
    pub own: Option<String>,
    /// The filter; empty means none.
    pub filter: String,
    pub window_count: Option<usize>,
    pub window_count_cache: Option<WindowCountCache>,
    pub preview: Option<PreviewView>,
    /// The session that a snapshot was last taken of.
    pub last_preview_target: Option<String>,
    pub preview_request: Option<PreviewRequest>,
    pub restart_request: Option<RestartRequest>,
    pub meta_edit: Option<MetaEdit>,
    pub config_path_override: Option<String>,
    pub config_read_only: bool,
    pub action_request: Option<ConfirmAction>,
    pub rename_request: Option<RenameRequest>,
    pub attach_request: Option<AttachRequest>,
    pub should_quit: bool,
    /// The interval of automatic refreshing; none means by hand only.
    pub refresh_interval: Option<u64>,
    pub last_refresh: Option<u64>,
}

/// The model of an [`App`].
#[verifier::ext_equal]
pub struct AppModel {
    pub lang: Lang,
    pub caps: CapsView,
    pub config: ConfigModel,
    pub mode: Mode,
    pub enumeration: Option<EnumerationView>,
    pub selected: usize,
    pub status: Option<Seq<char>>,
    pub draft: Option<DraftModel>,
    pub meta_cache: Map<u32, MetaView>,
    pub meta: Option<MetaView>,
    pub attach: Option<ChoiceModel>,
    pub confirm: Option<ConfirmModel>,
    pub rename: Option<RenameModel>,
    pub escape_prefix: Option<Seq<char>>,
    pub own: Option<Seq<char>>,
    pub filter: Seq<char>,
    pub window_count: Option<usize>,
    pub window_count_cache: Option<WindowCountModel>,
    pub preview: Option<PreviewModel>,
    pub last_preview_target: Option<Seq<char>>,
    pub preview_request: Option<PreviewRequestModel>,
    pub restart_request: Option<RestartModel>,
    pub meta_edit: Option<MetaEditModel>,
    pub config_path_override: Option<Seq<char>>,
    pub config_read_only: bool,
    pub action_request: Option<ConfirmModel>,
    pub rename_request: Option<RenameRequestModel>,
    pub attach_request: Option<AttachModel>,
    pub should_quit: bool,
    pub refresh_interval: Option<u64>,
    pub last_refresh: Option<u64>,
}

pub open spec fn enumeration_view(o: Option<Enumeration>) -> Option<EnumerationView> {
    match o {
        Some(e) => Some(e@),
        None => None,
    }
}

impl View for App {
    type V = AppModel;

    open spec fn view(&self) -> AppModel {
        AppModel {
            lang: self.lang,
            caps: self.caps@,
            config: self.config@,
            mode: self.mode,
            enumeration: enumeration_view(self.enumeration),
            selected: self.selected,
            status: opt_view(self.status),
            draft: draft_view(self.draft),
            meta_cache: self.meta_cache@,
            meta: opt_meta_view(self.meta),
            attach: choice_view(self.attach),
            confirm: confirm_view(self.confirm),
            rename: rename_view(self.rename),
            escape_prefix: opt_view(self.escape_prefix),
            own: opt_view(self.own),
            filter: self.filter@,
            window_count: self.window_count,
            window_count_cache: window_count_view(self.window_count_cache),
            preview: preview_view(self.preview),
            last_preview_target: opt_view(self.last_preview_target),
            preview_request: preview_request_view(self.preview_request),
            restart_request: restart_view(self.restart_request),
            meta_edit: meta_edit_view(self.meta_edit),
            config_path_override: opt_view(self.config_path_override),
            config_read_only: self.config_read_only,
            action_request: confirm_view(self.action_request),
            rename_request: rename_request_view(self.rename_request),
            attach_request: attach_view(self.attach_request),
            should_quit: self.should_quit,
            refresh_interval: self.refresh_interval,
            last_refresh: self.last_refresh,
        }
    }
}

/// The state at the beginning.
pub open spec fn initial(caps: CapsView, config: ConfigModel, lang: Lang) -> AppModel {
    AppModel {
        lang,
        caps,
        config,
        mode: Mode::List,
        enumeration: None,
        selected: 0,
        status: None,
        draft: None,
        meta_cache: Map::empty(),
        meta: None,
        attach: None,
        confirm: None,
        rename: None,
        escape_prefix: None,
        own: None,
        filter: Seq::empty(),
        window_count: None,
        window_count_cache: None,
        preview: None,
        last_preview_target: None,
        preview_request: None,
        restart_request: None,
        meta_edit: None,
        config_path_override: None,
        config_read_only: false,
        action_request: None,
        rename_request: None,
        attach_request: None,
        should_quit: false,
        refresh_interval: None,
        last_refresh: None,
    }
}

// ---------------------------------------------------------------------------
// The list and the filter
// ---------------------------------------------------------------------------
/// What `str::to_lowercase` makes of a text.
pub uninterp spec fn lowercase_text(s: Seq<char>) -> Seq<char>;

/// `str::to_lowercase`: the text in small letters, as Unicode has them. In ASCII text
/// the capitals become small letters and everything else stays; otherwise, which
/// letters become which is only named.
#[verifier::external_body]
fn to_lowercase(s: &str) -> (r: String)
    ensures
        r@ == lowercase_text(s@),
        is_ascii_text(s@) ==> r@ == lower(s@),
{
    s.to_lowercase()
}

/// All sessions of the last listing.
pub open spec fn all_of(m: AppModel) -> Seq<SessionView> {
    match m.enumeration {
        Some(e) => e.list.sessions,
        None => Seq::empty(),
    }
}

/// The process number as the cache knows it.
pub open spec fn cache_pid(s: SessionView) -> Option<u32> {
    match s.pid {
        Some(p) if p >= 0 => Some(p as u32),
        _ => None,
    }
}

/// An optional text contains the query, regardless of case.
pub open spec fn opt_matches(text: Option<Seq<char>>, query: Seq<char>) -> bool {
    match text {
        Some(s) => contains_text(lowercase_text(s), query),
        None => false,
    }
}

/// A session passes the filter if the filter is empty, or if the name, the
/// process number, or what is known of its command and directory contains it.
pub open spec fn passes(
    filter: Seq<char>,
    cache: Map<u32, MetaView>,
    s: SessionView,
) -> bool {
    let query = lowercase_text(filter);
    ||| filter.len() == 0
    ||| contains_text(lowercase_text(s.name), query)
    ||| (s.pid matches Some(p) && contains_text(signed_decimal_of(p as int), query))
    ||| (cache_pid(s) matches Some(pid) && cached(cache, pid) matches Some(meta) && (opt_matches(
        meta.command,
        query,
    ) || opt_matches(meta.cwd, query)))
}

/// An optional ASCII text, or none.
pub open spec fn opt_ascii(text: Option<Seq<char>>) -> bool {
    match text {
        Some(s) => is_ascii_text(s),
        None => true,
    }
}

/// What is known of the command and the directory of a session.
pub open spec fn known_of(cache: Map<u32, MetaView>, s: SessionView) -> MetaView {
    match cache_pid(s) {
        Some(pid) => match cached(cache, pid) {
            Some(meta) => meta,
            None => MetaView { cwd: None, command: None },
        },
        None => MetaView { cwd: None, command: None },
    }
}

/// The filter and all that it is compared with are ASCII.
pub open spec fn ascii_filtering(
    filter: Seq<char>,
    cache: Map<u32, MetaView>,
    s: SessionView,
) -> bool {
    &&& is_ascii_text(filter) && is_ascii_text(s.name)
    &&& opt_ascii(known_of(cache, s).command) && opt_ascii(known_of(cache, s).cwd)
}

/// An optional text contains the query once its capitals are small letters.
pub open spec fn opt_lower_matches(text: Option<Seq<char>>, query: Seq<char>) -> bool {
    match text {
        Some(s) => contains_text(lower(s), query),
        None => false,
    }
}

/// Passing the filter where everything is ASCII: capitals count as small letters.
pub open spec fn passes_ascii(
    filter: Seq<char>,
    cache: Map<u32, MetaView>,
    s: SessionView,
) -> bool {
    let query = lower(filter);
    ||| filter.len() == 0
    ||| contains_text(lower(s.name), query)
    ||| (s.pid matches Some(p) && contains_text(signed_decimal_of(p as int), query))
    ||| opt_lower_matches(known_of(cache, s).command, query)
    ||| opt_lower_matches(known_of(cache, s).cwd, query)
}

/// The sessions that pass the filter, in order.
pub open spec fn filtered(
    sessions: Seq<SessionView>,
    filter: Seq<char>,
    cache: Map<u32, MetaView>,
) -> Seq<SessionView>
    decreases sessions.len(),
{
    if sessions.len() == 0 {
        Seq::empty()
    } else if passes(filter, cache, sessions.last()) {
        filtered(sessions.drop_last(), filter, cache).push(sessions.last())
    } else {
        filtered(sessions.drop_last(), filter, cache)
    }
}

/// The sessions on display.
pub open spec fn visible(m: AppModel) -> Seq<SessionView> {
    filtered(all_of(m), m.filter, m.meta_cache)
}

/// The selected session.
pub open spec fn selected_of(m: AppModel) -> Option<SessionView> {
    if m.selected < visible(m).len() {
        Some(visible(m)[m.selected as int])
    } else {
        None
    }
}

/// The row that a selection is moved to when the list has `count` rows.
pub open spec fn clamp_to(selected: usize, count: nat) -> usize {
    if count == 0 {
        0
    } else if selected < count {
        selected
    } else {
        (count - 1) as usize
    }
}

pub open spec fn clamped(m: AppModel) -> AppModel {
    AppModel { selected: clamp_to(m.selected, visible(m).len()), ..m }
}

/// The state with a new listing.
pub open spec fn with_list(m: AppModel, e: EnumerationView) -> AppModel {
    clamped(AppModel { enumeration: Some(e), ..m })
}

/// The selection stays in the list: some row of it, or the first of none.
pub open spec fn selection_ok(m: AppModel) -> bool {
    m.selected == 0 || m.selected < visible(m).len()
}

/// The outcome of listing the sessions.
pub open spec fn outcome_view(o: Result<Enumeration, Error>) -> Result<EnumerationView, ErrorView> {
    match o {
        Ok(e) => Ok(e@),
        Err(e) => Err(e@),
    }
}

pub open spec fn relisted(
    m: AppModel,
    outcome: Result<EnumerationView, ErrorView>,
) -> AppModel {
    match outcome {
        Ok(e) => AppModel { status: None, ..with_list(m, e) },
        Err(err) => AppModel {
            status: Some(fmt_of(dict_of(m.lang).refresh_failed@, seq![error_text(err)])),
            ..m
        },
    }
}

/// The process number of the selected session.
pub open spec fn selected_pid(m: AppModel) -> Option<u32> {
    match selected_of(m) {
        Some(s) => cache_pid(s),
        None => None,
    }
}

/// The state after a refresh: the new list, or the old one and the reason; what
/// was shown of the selected session is dropped.
pub open spec fn refreshed(
    m: AppModel,
    outcome: Result<EnumerationView, ErrorView>,
    now: u64,
) -> AppModel {
    let n = AppModel {
        last_refresh: Some(now),
        meta: None,
        window_count: None,
        ..relisted(m, outcome)
    };
    match selected_pid(n) {
        Some(pid) => AppModel { meta_cache: n.meta_cache.remove(pid), ..n },
        None => n,
    }
}

/// The process number to look up after a refresh.
pub open spec fn probe_after_refresh(
    m: AppModel,
    outcome: Result<EnumerationView, ErrorView>,
) -> Option<u32> {
    selected_pid(relisted(m, outcome))
}

// ---------------------------------------------------------------------------
// Messages
// ---------------------------------------------------------------------------
/// A template with one argument.
pub fn fmt1(template: &str, a: &str) -> (r: String)
    ensures
        r@ == fmt_of(template@, seq![a@]),
{
    let args: [&str; 1] = [a];
    assert(str_views(args@) =~= seq![a@]);
    fmt(template, &args)
}

/// A template with two arguments.
pub fn fmt2(template: &str, a: &str, b: &str) -> (r: String)
    ensures
        r@ == fmt_of(template@, seq![a@, b@]),
{
    let args: [&str; 2] = [a, b];
    assert(str_views(args@) =~= seq![a@, b@]);
    fmt(template, &args)
}

/// A template with three arguments.
pub fn fmt3(template: &str, a: &str, b: &str, c: &str) -> (r: String)
    ensures
        r@ == fmt_of(template@, seq![a@, b@, c@]),
{
    let args: [&str; 3] = [a, b, c];
    assert(str_views(args@) =~= seq![a@, b@, c@]);
    fmt(template, &args)
}

/// A template with four arguments.
pub fn fmt4(template: &str, a: &str, b: &str, c: &str, d: &str) -> (r: String)
    ensures
        r@ == fmt_of(template@, seq![a@, b@, c@, d@]),
{
    let args: [&str; 4] = [a, b, c, d];
    assert(str_views(args@) =~= seq![a@, b@, c@, d@]);
    fmt(template, &args)
}

/// A template with five arguments.
pub fn fmt5(template: &str, a: &str, b: &str, c: &str, d: &str, e: &str) -> (r: String)
    ensures
        r@ == fmt_of(template@, seq![a@, b@, c@, d@, e@]),
{
    let args: [&str; 5] = [a, b, c, d, e];
    assert(str_views(args@) =~= seq![a@, b@, c@, d@, e@]);
    fmt(template, &args)
}

/// The state with a message.
pub open spec fn telling(m: AppModel, message: Seq<char>) -> AppModel {
    AppModel { status: Some(message), ..m }
}

// ---------------------------------------------------------------------------
// Time
// ---------------------------------------------------------------------------
pub open spec fn elapsed(now: u64, since: u64) -> u64 {
    if now >= since {
        (now - since) as u64
    } else {
        0
    }
}

fn time_since(now: u64, since: u64) -> (r: u64)
    ensures
        r == elapsed(now, since),
{
    if now >= since {
        now - since
    } else {
        0
    }
}

/// The time until the next automatic refresh; without end if there is none.
pub open spec fn next_tick(m: AppModel, now: u64) -> u64 {
    match (m.refresh_interval, m.last_refresh) {
        (Some(interval), Some(at)) => if elapsed(now, at) < interval {
            (interval - elapsed(now, at)) as u64
        } else {
            0
        },
        _ => u64::MAX,
    }
}

/// The interval for a value of `$STUI_AUTO_REFRESH`.
pub open spec fn interval_of(raw: Seq<char>) -> Option<u64> {
    match auto_refresh_of(raw) {
        Some(secs) => if secs * 1000 <= u64::MAX {
            Some((secs * 1000) as u64)
        } else {
            Some(u64::MAX)
        },
        None => None,
    }
}

/// The refresh interval in milliseconds for a value of `$STUI_AUTO_REFRESH`.
pub fn auto_refresh_interval(raw: &str) -> (r: Option<u64>)
    ensures
        r == interval_of(raw@),
{
    match parse_auto_refresh_secs(raw) {
        Some(secs) => {
            if secs <= u64::MAX / 1000 {
                Some(secs * 1000)
            } else {
                Some(u64::MAX)
            }
        },
        None => None,
    }
}

// ---------------------------------------------------------------------------
// Window counts
// ---------------------------------------------------------------------------
/// A cached window count of that session that is still to be used.
pub open spec fn fresh_count(m: AppModel, full: Seq<char>, now: u64) -> Option<WindowCountModel> {
    match m.window_count_cache {
        Some(c) if c.full == full && elapsed(now, c.fetched_at) < WINDOW_COUNT_TTL => Some(c),
        _ => None,
    }
}

/// The session whose windows are to be counted: the selected one, if its detail
/// is on display, queries are known to work, and no count is fresh.
pub open spec fn count_due(m: AppModel, detail_visible: bool, now: u64) -> Option<Seq<char>> {
    match selected_of(m) {
        Some(s) => if detail_visible && m.caps.query == Support::Yes && fresh_count(m, s.full, now)
            is None {
            Some(s.full)
        } else {
            None
        },
        None => None,
    }
}

/// The state that shows a fresh count and no other.
pub open spec fn count_shown(m: AppModel, now: u64) -> AppModel {
    AppModel {
        window_count: match selected_of(m) {
            Some(s) => match fresh_count(m, s.full, now) {
                Some(c) => c.count,
                None => None,
            },
            None => None,
        },
        ..m
    }
}

/// The count in an answer; none if there was no answer.
pub open spec fn counted(answer: Option<Seq<char>>) -> Option<usize> {
    match answer {
        Some(text) => Some(solid_lines(lines_of(text)) as usize),
        None => None,
    }
}

/// The state after an attempt to count windows; a failure is remembered too.
pub open spec fn count_noted(
    m: AppModel,
    full: Seq<char>,
    answer: Option<Seq<char>>,
    now: u64,
) -> AppModel {
    AppModel {
        window_count: counted(answer),
        window_count_cache: Some(
            WindowCountModel { full, count: counted(answer), fetched_at: now },
        ),
        ..m
    }
}

impl App {
    pub fn new(caps: Caps, lang: Lang) -> (r: Self)
        ensures
            r@ == initial(caps@, fresh_config(), lang),
    {
        App::with_config(caps, Config::default(), lang)
    }

    /// The state at the beginning, with a configuration.
    pub fn with_config(caps: Caps, config: Config, lang: Lang) -> (r: Self)
        ensures
            r@ == initial(caps@, config@, lang),
    {
        App {
            lang,
            caps,
            config,
            mode: Mode::List,
            enumeration: None,
            selected: 0,
            status: None,
            draft: None,
            meta_cache: MetaCache::default(),
            meta: None,
            attach: None,
            confirm: None,
            rename: None,
            escape_prefix: None,
            own: None,
            filter: String::new(),
            window_count: None,
            window_count_cache: None,
            preview: None,
            last_preview_target: None,
            preview_request: None,
            restart_request: None,
            meta_edit: None,
            config_path_override: None,
            config_read_only: false,
            action_request: None,
            rename_request: None,
            attach_request: None,
            should_quit: false,
            refresh_interval: None,
            last_refresh: None,
        }
    }

    /// All sessions, whatever the filter.
    pub fn all_sessions(&self) -> (r: &[SessionRecord])
        ensures
            session_views(r@) == all_of(self@),
    {
        match &self.enumeration {
            Some(e) => e.list.sessions.as_slice(),
            None => {
                let none: &[SessionRecord] = &[];
                assert(session_views(none@) =~= Seq::<SessionView>::empty());
                none
            },
        }
    }

    /// Whether a session passes the filter. What runs in it is only looked up in
    /// the cache.
    pub fn matches_filter(&self, session: &SessionRecord) -> (r: bool)
        ensures
            r == passes(self@.filter, self@.meta_cache, session@),
            ascii_filtering(self@.filter, self@.meta_cache, session@) ==> r == passes_ascii(
                self@.filter,
                self@.meta_cache,
                session@,
            ),
    {
        if self.filter.as_str().is_empty() {
            return true;
        }
        let query: String = to_lowercase(self.filter.as_str());
        let name: String = to_lowercase(session.name.as_str());
        if contains(name.as_str(), query.as_str()) {
            return true;
        }
        if let Some(p) = session.pid {
            let digits: String = signed_decimal(p as i64);
            if contains(digits.as_str(), query.as_str()) {
                return true;
            }
            if p >= 0 {
                if let Some(meta) = self.meta_cache.peek(p as u32) {
                    if lowered_contains(&meta.command, query.as_str()) {
                        return true;
                    }
                    if lowered_contains(&meta.cwd, query.as_str()) {
                        return true;
                    }
                }
            }
        }
        false
    }

    /// The sessions on display: those that pass the filter.
    pub fn sessions(&self) -> (r: Vec<SessionRecord>)
        ensures
            session_views(r@) == visible(self@),
    {
        let all = self.all_sessions();
        let ghost texts = all_of(self@);
        let mut out: Vec<SessionRecord> = Vec::new();
        let mut i: usize = 0;
        assert(session_views(out@) =~= filtered(
            texts.take(0),
            self@.filter,
            self@.meta_cache,
        ));
        while i < all.len()
            invariant
                session_views(all@) == texts,
                i <= all@.len(),
                session_views(out@) == filtered(
                    texts.take(i as int),
                    self@.filter,
                    self@.meta_cache,
                ),
            decreases all.len() - i,
        {
            let ghost before = session_views(out@);
            assert(texts.take(i + 1).drop_last() =~= texts.take(i as int));
            assert(texts.take(i + 1).last() == session_views(all@)[i as int]);
            if self.matches_filter(&all[i]) {
                out.push(all[i].clone());
                assert(session_views(out@) =~= before.push(all@[i as int]@));
            }
            i += 1;
        }
        assert(session_views(all@).len() == all@.len());
        assert(texts.take(i as int) =~= texts);
        out
    }

    /// The selected session.
    pub fn selected_session(&self) -> (r: Option<SessionRecord>)
        ensures
            match r {
                Some(s) => selected_of(self@) == Some(s@),
                None => selected_of(self@) is None,
            },
    {
        let list: Vec<SessionRecord> = self.sessions();
        assert(visible(self@).len() == list@.len());
        if self.selected < list.len() {
            assert(visible(self@)[self.selected as int] == list@[self.selected as int]@);
            Some(list[self.selected].clone())
        } else {
            None
        }
    }

    /// Moves a selection that fell out of the list to its last row.
    pub fn clamp_selection(&mut self)
        ensures
            final(self)@ == clamped(old(self)@),
    {
        let count: usize = self.sessions().len();
        assert(count == visible(self@).len());
        if count == 0 {
            self.selected = 0;
        } else if self.selected >= count {
            self.selected = count - 1;
        }
    }

    /// Takes over a listing. The selection is kept as far as the list allows;
    /// nothing else changes.
    pub fn apply_enumeration(&mut self, enumeration: Enumeration)
        ensures
            final(self)@ == with_list(old(self)@, enumeration@),
    {
        self.enumeration = Some(enumeration);
        self.clamp_selection();
    }

    /// Takes over the outcome of a listing. A failure leaves the old list in
    /// place. Returns the process number whose data is to be looked up and
    /// handed to [`App::set_meta`].
    pub fn refresh(&mut self, outcome: Result<Enumeration, Error>, now: u64) -> (r: Option<u32>)
        ensures
            final(self)@ == refreshed(old(self)@, outcome_view(outcome), now),
            r == probe_after_refresh(old(self)@, outcome_view(outcome)),
    {
        match outcome {
            Ok(enumeration) => {
                self.apply_enumeration(enumeration);
                self.status = None;
            },
            Err(err) => {
                let t = dict(self.lang);
                self.status = Some(fmt1(t.refresh_failed, err.message().as_str()));
            },
        }
        self.last_refresh = Some(now);
        self.refresh_meta()
    }

    /// Drops what is shown of the selected session; returns its process number.
    fn refresh_meta(&mut self) -> (r: Option<u32>)
        ensures
            r == selected_pid(old(self)@),
            ({
                let n = AppModel { meta: None, window_count: None, ..old(self)@ };
                final(self)@ == match selected_pid(n) {
                    Some(pid) => AppModel { meta_cache: n.meta_cache.remove(pid), ..n },
                    None => n,
                }
            }),
    {
        self.meta = None;
        self.window_count = None;
        match self.selected_session() {
            Some(session) => match session.pid {
                Some(p) => {
                    if p >= 0 {
                        self.meta_cache.invalidate(p as u32);
                        Some(p as u32)
                    } else {
                        None
                    }
                },
                None => None,
            },
            None => None,
        }
    }

    /// Takes over what was found out about the selected session.
    pub fn set_meta(&mut self, pid: u32, probed: Option<Meta>)
        ensures
            ({
                let cache = cache_after(old(self)@.meta_cache, pid, opt_meta_view(probed));
                final(self)@ == (AppModel {
                    meta_cache: cache,
                    meta: cached(cache, pid),
                    ..old(self)@
                })
            }),
    {
        let found: Option<Meta> = match self.meta_cache.get(pid, probed) {
            Some(meta) => Some(meta.clone()),
            None => None,
        };
        self.meta = found;
    }

    /// Takes over what was found out about some session.
    pub fn store_meta(&mut self, pid: u32, probed: Option<Meta>)
        ensures
            final(self)@ == (AppModel {
                meta_cache: cache_after(old(self)@.meta_cache, pid, opt_meta_view(probed)),
                ..old(self)@
            }),
    {
        self.meta_cache.get(pid, probed);
    }

    /// Moves the selection by one row, not past the ends.
    pub fn move_selection(&mut self, down: bool)
        ensures
            final(self)@ == moved(old(self)@, down),
    {
        let count: usize = self.sessions().len();
        assert(count == visible(self@).len());
        if count == 0 {
            return;
        }
        if down {
            if self.selected < count - 1 {
                self.selected = self.selected + 1;
            } else {
                self.selected = count - 1;
            }
        } else if self.selected >= count {
            self.selected = if self.selected - 1 < count {
                self.selected - 1
            } else {
                count - 1
            };
        } else if self.selected > 0 {
            self.selected = self.selected - 1;
        }
    }

    /// The time until the next automatic refresh.
    pub fn next_tick_in(&self, now: u64) -> (r: u64)
        ensures
            r == next_tick(self@, now),
    {
        match self.refresh_interval {
            Some(interval) => match self.last_refresh {
                Some(at) => {
                    let passed: u64 = time_since(now, at);
                    if passed < interval {
                        interval - passed
                    } else {
                        0
                    }
                },
                None => u64::MAX,
            },
            None => u64::MAX,
        }
    }

    /// Whether it is time for an automatic refresh.
    pub fn tick_due(&self, now: u64) -> (r: bool)
        ensures
            r == (next_tick(self@, now) == 0),
    {
        self.next_tick_in(now) == 0
    }

    /// Whether an address is that of the session that the program itself runs in.
    pub fn is_own(&self, full: &str) -> (r: bool)
        ensures
            r == (self@.own == Some(full@)),
    {
        match &self.own {
            Some(own) => same_str(own.as_str(), full),
            None => false,
        }
    }

    /// The socket directory of the last listing.
    pub fn socket_dir(&self) -> (r: Option<&str>)
        ensures
            match r {
                Some(dir) => self@.enumeration matches Some(e) && e.list.socket_dir == Some(dir@),
                None => match self@.enumeration {
                    Some(e) => e.list.socket_dir is None,
                    None => true,
                },
            },
    {
        match &self.enumeration {
            Some(e) => match &e.list.socket_dir {
                Some(dir) => Some(dir.as_str()),
                None => None,
            },
            None => None,
        }
    }

    fn fresh_window_count(&self, full: &str, now: u64) -> (r: Option<&WindowCountCache>)
        ensures
            match r {
                Some(c) => fresh_count(self@, full@, now) == Some(c@),
                None => fresh_count(self@, full@, now) is None,
            },
    {
        match &self.window_count_cache {
            Some(c) => {
                if same_str(c.full.as_str(), full) && time_since(now, c.fetched_at)
                    < WINDOW_COUNT_TTL {
                    Some(c)
                } else {
                    None
                }
            },
            None => None,
        }
    }

    /// The session whose windows are to be counted now.
    pub fn window_count_due(&self, detail_visible: bool, now: u64) -> (r: Option<String>)
        ensures
            opt_view(r) == count_due(self@, detail_visible, now),
    {
        if !detail_visible || !self.caps.query.usable() {
            return None;
        }
        match self.selected_session() {
            Some(session) => {
                if self.fresh_window_count(session.full.as_str(), now).is_some() {
                    None
                } else {
                    Some(session.full)
                }
            },
            None => None,
        }
    }

    /// Shows the window count of the selected session if it is fresh. Returns
    /// the session to ask otherwise; the answer goes to
    /// [`App::note_window_count`].
    pub fn ensure_window_count(&mut self, detail_visible: bool, now: u64) -> (r: Option<String>)
        ensures
            final(self)@ == count_shown(old(self)@, now),
            opt_view(r) == count_due(old(self)@, detail_visible, now),
    {
        let due: Option<String> = self.window_count_due(detail_visible, now);
        let shown: Option<usize> = match self.selected_session() {
            Some(session) => match self.fresh_window_count(session.full.as_str(), now) {
                Some(c) => c.count,
                None => None,
            },
            None => None,
        };
        self.window_count = shown;
        due
    }

    /// Takes over the answer to a question for windows, or that there was none.
    pub fn note_window_count(&mut self, full: String, answer: Option<&str>, now: u64)
        ensures
            final(self)@ == count_noted(
                old(self)@,
                full@,
                match answer {
                    Some(text) => Some(text@),
                    None => None,
                },
                now,
            ),
    {
        let count: Option<usize> = match answer {
            Some(text) => Some(parse_window_count(text)),
            None => None,
        };
        self.window_count_cache = Some(WindowCountCache { full, count, fetched_at: now });
        self.window_count = count;
    }
}

/// The selection moved by one row, not past the ends.
pub open spec fn moved(m: AppModel, down: bool) -> AppModel {
    let count = visible(m).len() as int;
    let next = if down {
        m.selected + 1
    } else {
        m.selected - 1
    };
    if count == 0 {
        m
    } else {
        AppModel {
            selected: if next < 0 {
                0
            } else if next >= count {
                (count - 1) as usize
            } else {
                next as usize
            },
            ..m
        }
    }
}

fn lowered_contains(text: &Option<String>, query: &str) -> (r: bool)
    ensures
        r == opt_matches(opt_view(*text), query@),
        opt_ascii(opt_view(*text)) ==> r == opt_lower_matches(opt_view(*text), query@),
{
    match text {
        Some(s) => {
            let low: String = to_lowercase(s.as_str());
            contains(low.as_str(), query)
        },
        None => false,
    }
}

} // verus!
