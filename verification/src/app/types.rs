//! What the program keeps between two keys.

use crate::i18n::{
    Lang, dict, dict_of,
};
use crate::screen::cmd::{
    AttachKind, SessionAction,
};
use crate::text::{
    opt_view, views,
};
use vstd::prelude::*;

verus! {

// ---------------------------------------------------------------------------
// Keys
// ---------------------------------------------------------------------------
/// A key as far as the program tells keys apart.
#[derive(Debug, Clone, Copy, PartialEq, Eq, Structural)]
pub enum KeyCode {
    Char(char),
    Enter,
    Esc,
    Tab,
    BackTab,
    Backspace,
    Up,
    Down,
    Left,
    Right,
    Other,
}

#[derive(Debug, Clone, Copy, PartialEq, Eq, Structural)]
pub enum KeyEventKind {
    Press,
    Repeat,
    Release,
}

#[derive(Debug, Clone, Copy, PartialEq, Eq, Structural)]
pub struct KeyEvent {
    pub code: KeyCode,
    pub kind: KeyEventKind,
}

// ---------------------------------------------------------------------------
// Modes
// ---------------------------------------------------------------------------
#[derive(Debug, Clone, Copy, PartialEq, Eq, Structural)]
pub enum Mode {
    /// The list of sessions.
    List,
    Help,
    Detail,
    /// The form for a new session.
    NewSession,
    /// The choice between sharing and taking over an attached session.
    AttachChoice,
    /// The confirmation of a dangerous action.
    Confirm,
    Rename,
    /// Typing a filter, which stays in force afterwards.
    Filter,
    /// A snapshot of a session.
    Preview,
    /// Typing an alias or a note.
    MetaEdit,
}

// ---------------------------------------------------------------------------
// The form for a new session
// ---------------------------------------------------------------------------
/// The field of the form that takes the keys.
#[derive(Debug, Clone, Copy, PartialEq, Eq, Structural)]
pub enum NewField {
    Name,
    Dir,
    Command,
}

pub open spec fn field_index(f: NewField) -> nat {
    match f {
        NewField::Name => 0,
        NewField::Dir => 1,
        NewField::Command => 2,
    }
}

/// The field after `f`, the first one after the last.
pub open spec fn field_after(f: NewField) -> NewField {
    match f {
        NewField::Name => NewField::Dir,
        NewField::Dir => NewField::Command,
        NewField::Command => NewField::Name,
    }
}

/// The field before `f`, the last one before the first.
pub open spec fn field_before(f: NewField) -> NewField {
    match f {
        NewField::Name => NewField::Command,
        NewField::Dir => NewField::Name,
        NewField::Command => NewField::Dir,
    }
}

pub open spec fn field_label(f: NewField, lang: Lang) -> Seq<char> {
    match f {
        NewField::Name => dict_of(lang).f_name@,
        NewField::Dir => dict_of(lang).f_dir@,
        NewField::Command => dict_of(lang).f_command@,
    }
}

impl NewField {
    pub fn index(self) -> (r: usize)
        ensures
            r == field_index(self),
    {
        match self {
            NewField::Name => 0,
            NewField::Dir => 1,
            NewField::Command => 2,
        }
    }

    pub fn label(self, lang: Lang) -> (r: &'static str)
        ensures
            r@ == field_label(self, lang),
    {
        let t = dict(lang);
        match self {
            NewField::Name => t.f_name,
            NewField::Dir => t.f_dir,
            NewField::Command => t.f_command,
        }
    }

    pub fn next(self) -> (r: Self)
        ensures
            r == field_after(self),
    {
        match self {
            NewField::Name => NewField::Dir,
            NewField::Dir => NewField::Command,
            NewField::Command => NewField::Name,
        }
    }

    pub fn prev(self) -> (r: Self)
        ensures
            r == field_before(self),
    {
        match self {
            NewField::Name => NewField::Command,
            NewField::Dir => NewField::Name,
            NewField::Command => NewField::Dir,
        }
    }
}

/// Going on and back cancel out, and three steps lead round.
pub proof fn focus_goes_round(f: NewField)
    ensures
        field_before(field_after(f)) == f,
        field_after(field_before(f)) == f,
        field_after(field_after(field_after(f))) == f,
        field_after(f) != f,
{
}

/// The form for a new session. An error keeps it open, a note does not.
#[derive(Debug)]
pub struct NewDraft {
    pub focus: NewField,
    pub name: String,
    /// The name that the directory suggested, without a number behind it.
    pub name_base: String,
    /// The user changed the name; then it is never replaced by another one.
    pub name_edited: bool,
    pub dir: String,
    pub command: String,
    /// Recent directories that can be picked by number.
    pub recent: Vec<String>,
    pub error: Option<String>,
    pub note: Option<String>,
}

/// The model of a [`NewDraft`].
#[verifier::ext_equal]
pub struct DraftModel {
    pub focus: NewField,
    pub name: Seq<char>,
    pub name_base: Seq<char>,
    pub name_edited: bool,
    pub dir: Seq<char>,
    pub command: Seq<char>,
    pub recent: Seq<Seq<char>>,
    pub error: Option<Seq<char>>,
    pub note: Option<Seq<char>>,
}

impl View for NewDraft {
    type V = DraftModel;

    open spec fn view(&self) -> DraftModel {
        DraftModel {
            focus: self.focus,
            name: self.name@,
            name_base: self.name_base@,
            name_edited: self.name_edited,
            dir: self.dir@,
            command: self.command@,
            recent: views(self.recent@),
            error: opt_view(self.error),
            note: opt_view(self.note),
        }
    }
}

pub open spec fn draft_view(o: Option<NewDraft>) -> Option<DraftModel> {
    match o {
        Some(d) => Some(d@),
        None => None,
    }
}

// ---------------------------------------------------------------------------
// Connecting
// ---------------------------------------------------------------------------
/// A session that someone else is attached to.
#[derive(Debug)]
pub struct AttachChoice {
    pub name: String,
    /// The full address.
    pub full: String,
    pub note: Option<String>,
}

/// The model of an [`AttachChoice`].
#[verifier::ext_equal]
pub struct ChoiceModel {
    pub name: Seq<char>,
    pub full: Seq<char>,
    pub note: Option<Seq<char>>,
}

impl View for AttachChoice {
    type V = ChoiceModel;

    open spec fn view(&self) -> ChoiceModel {
        ChoiceModel { name: self.name@, full: self.full@, note: opt_view(self.note) }
    }
}

pub open spec fn choice_view(o: Option<AttachChoice>) -> Option<ChoiceModel> {
    match o {
        Some(c) => Some(c@),
        None => None,
    }
}

/// A connection to make.
#[derive(Debug)]
pub struct AttachRequest {
    pub kind: AttachKind,
    pub target: String,
}

/// The model of an [`AttachRequest`].
#[verifier::ext_equal]
pub struct AttachModel {
    pub kind: AttachKind,
    pub target: Seq<char>,
}

impl View for AttachRequest {
    type V = AttachModel;

    open spec fn view(&self) -> AttachModel {
        AttachModel { kind: self.kind, target: self.target@ }
    }
}

pub open spec fn attach_view(o: Option<AttachRequest>) -> Option<AttachModel> {
    match o {
        Some(r) => Some(r@),
        None => None,
    }
}

// ---------------------------------------------------------------------------
// Actions
// ---------------------------------------------------------------------------
#[derive(Debug, Clone, Copy, PartialEq, Eq, Structural)]
pub enum ActionKind {
    Detach,
    Kill,
    Wipe,
    /// Forget sessions that no longer exist; screen is not involved.
    Cleanup,
}

pub open spec fn action_label(kind: ActionKind, lang: Lang) -> Seq<char> {
    let t = dict_of(lang);
    match kind {
        ActionKind::Detach => t.act_detach@,
        ActionKind::Kill => t.act_kill@,
        ActionKind::Wipe => t.act_wipe@,
        ActionKind::Cleanup => t.act_cleanup@,
    }
}

pub open spec fn action_consequence(kind: ActionKind, lang: Lang) -> Seq<char> {
    let t = dict_of(lang);
    match kind {
        ActionKind::Detach => t.consequence_detach@,
        ActionKind::Kill => t.consequence_kill@,
        ActionKind::Wipe => t.consequence_wipe@,
        ActionKind::Cleanup => t.consequence_cleanup@,
    }
}

/// The screen command of an action; a cleanup has none.
pub open spec fn action_command(kind: ActionKind) -> Option<SessionAction> {
    match kind {
        ActionKind::Detach => Some(SessionAction::Detach),
        ActionKind::Kill => Some(SessionAction::Kill),
        ActionKind::Wipe => Some(SessionAction::Wipe),
        ActionKind::Cleanup => None,
    }
}

impl ActionKind {
    pub fn label(self, lang: Lang) -> (r: &'static str)
        ensures
            r@ == action_label(self, lang),
    {
        let t = dict(lang);
        match self {
            ActionKind::Detach => t.act_detach,
            ActionKind::Kill => t.act_kill,
            ActionKind::Wipe => t.act_wipe,
            ActionKind::Cleanup => t.act_cleanup,
        }
    }

    /// What the action will do, for the confirmation.
    pub fn consequence(self, lang: Lang) -> (r: &'static str)
        ensures
            r@ == action_consequence(self, lang),
    {
        let t = dict(lang);
        match self {
            ActionKind::Detach => t.consequence_detach,
            ActionKind::Kill => t.consequence_kill,
            ActionKind::Wipe => t.consequence_wipe,
            ActionKind::Cleanup => t.consequence_cleanup,
        }
    }

    pub fn to_cmd(self) -> (r: Option<SessionAction>)
        ensures
            r == action_command(self),
    {
        match self {
            ActionKind::Detach => Some(SessionAction::Detach),
            ActionKind::Kill => Some(SessionAction::Kill),
            ActionKind::Wipe => Some(SessionAction::Wipe),
            ActionKind::Cleanup => None,
        }
    }
}

/// A dangerous action that waits for a confirmation, or was confirmed.
#[derive(Debug)]
pub struct ConfirmAction {
    pub kind: ActionKind,
    /// The full address; empty for a wipe and a cleanup.
    pub target: String,
    /// What the confirmation names.
    pub display: String,
    /// The command that runs in the session, if it is known.
    pub command: Option<String>,
    /// The confirming button has the focus. It never has at the beginning.
    pub focus_yes: bool,
}

/// The model of a [`ConfirmAction`].
#[verifier::ext_equal]
pub struct ConfirmModel {
    pub kind: ActionKind,
    pub target: Seq<char>,
    pub display: Seq<char>,
    pub command: Option<Seq<char>>,
    pub focus_yes: bool,
}

impl View for ConfirmAction {
    type V = ConfirmModel;

    open spec fn view(&self) -> ConfirmModel {
        ConfirmModel {
            kind: self.kind,
            target: self.target@,
            display: self.display@,
            command: opt_view(self.command),
            focus_yes: self.focus_yes,
        }
    }
}

pub open spec fn confirm_view(o: Option<ConfirmAction>) -> Option<ConfirmModel> {
    match o {
        Some(c) => Some(c@),
        None => None,
    }
}

/// Typing a new name.
#[derive(Debug)]
pub struct RenameDraft {
    pub target: String,
    pub name: String,
    pub error: Option<String>,
}

/// The model of a [`RenameDraft`].
#[verifier::ext_equal]
pub struct RenameModel {
    pub target: Seq<char>,
    pub name: Seq<char>,
    pub error: Option<Seq<char>>,
}

impl View for RenameDraft {
    type V = RenameModel;

    open spec fn view(&self) -> RenameModel {
        RenameModel { target: self.target@, name: self.name@, error: opt_view(self.error) }
    }
}

pub open spec fn rename_view(o: Option<RenameDraft>) -> Option<RenameModel> {
    match o {
        Some(d) => Some(d@),
        None => None,
    }
}

/// A new name to set.
#[derive(Debug)]
pub struct RenameRequest {
    pub target: String,
    pub new_name: String,
}

/// The model of a [`RenameRequest`].
#[verifier::ext_equal]
pub struct RenameRequestModel {
    pub target: Seq<char>,
    pub new_name: Seq<char>,
}

impl View for RenameRequest {
    type V = RenameRequestModel;

    open spec fn view(&self) -> RenameRequestModel {
        RenameRequestModel { target: self.target@, new_name: self.new_name@ }
    }
}

pub open spec fn rename_request_view(o: Option<RenameRequest>) -> Option<RenameRequestModel> {
    match o {
        Some(r) => Some(r@),
        None => None,
    }
}

/// A managed session to start again.
#[derive(Debug)]
pub struct RestartRequest {
    pub name: String,
    pub dir: String,
    pub command: String,
}

/// The model of a [`RestartRequest`].
#[verifier::ext_equal]
pub struct RestartModel {
    pub name: Seq<char>,
    pub dir: Seq<char>,
    pub command: Seq<char>,
}

impl View for RestartRequest {
    type V = RestartModel;

    open spec fn view(&self) -> RestartModel {
        RestartModel { name: self.name@, dir: self.dir@, command: self.command@ }
    }
}

pub open spec fn restart_view(o: Option<RestartRequest>) -> Option<RestartModel> {
    match o {
        Some(r) => Some(r@),
        None => None,
    }
}

// ---------------------------------------------------------------------------
// Previews
// ---------------------------------------------------------------------------
/// A snapshot that was taken. A failed attempt leaves none.
#[derive(Debug)]
pub struct PreviewView {
    pub full: String,
    pub name: String,
    /// When it was taken.
    pub fetched: String,
    pub lines: Vec<String>,
}

/// The model of a [`PreviewView`].
#[verifier::ext_equal]
pub struct PreviewModel {
    pub full: Seq<char>,
    pub name: Seq<char>,
    pub fetched: Seq<char>,
    pub lines: Seq<Seq<char>>,
}

impl View for PreviewView {
    type V = PreviewModel;

    open spec fn view(&self) -> PreviewModel {
        PreviewModel {
            full: self.full@,
            name: self.name@,
            fetched: self.fetched@,
            lines: views(self.lines@),
        }
    }
}

pub open spec fn preview_view(o: Option<PreviewView>) -> Option<PreviewModel> {
    match o {
        Some(p) => Some(p@),
        None => None,
    }
}

/// A snapshot to take.
#[derive(Debug)]
pub struct PreviewRequest {
    pub full: String,
    pub name: String,
    /// The user asked for it; then a failure is reported.
    pub manual: bool,
}

/// The model of a [`PreviewRequest`].
#[verifier::ext_equal]
pub struct PreviewRequestModel {
    pub full: Seq<char>,
    pub name: Seq<char>,
    pub manual: bool,
}

impl View for PreviewRequest {
    type V = PreviewRequestModel;

    open spec fn view(&self) -> PreviewRequestModel {
        PreviewRequestModel { full: self.full@, name: self.name@, manual: self.manual }
    }
}

pub open spec fn preview_request_view(o: Option<PreviewRequest>) -> Option<PreviewRequestModel> {
    match o {
        Some(r) => Some(r@),
        None => None,
    }
}

/// The number of windows of a session, or that it could not be found out, with
/// the time of the attempt.
#[derive(Debug)]
pub struct WindowCountCache {
    pub full: String,
    pub count: Option<usize>,
    pub fetched_at: u64,
}

/// The model of a [`WindowCountCache`].
#[verifier::ext_equal]
pub struct WindowCountModel {
    pub full: Seq<char>,
    pub count: Option<usize>,
    pub fetched_at: u64,
}

impl View for WindowCountCache {
    type V = WindowCountModel;

    open spec fn view(&self) -> WindowCountModel {
        WindowCountModel { full: self.full@, count: self.count, fetched_at: self.fetched_at }
    }
}

pub open spec fn window_count_view(o: Option<WindowCountCache>) -> Option<WindowCountModel> {
    match o {
        Some(c) => Some(c@),
        None => None,
    }
}

// ---------------------------------------------------------------------------
// Metadata
// ---------------------------------------------------------------------------
#[derive(Debug, Clone, Copy, PartialEq, Eq, Structural)]
pub enum MetaField {
    Alias,
    Note,
}

pub open spec fn meta_key(f: MetaField, lang: Lang) -> Seq<char> {
    match f {
        MetaField::Alias => dict_of(lang).meta_alias@,
        MetaField::Note => dict_of(lang).meta_note@,
    }
}

impl MetaField {
    pub fn key(self, lang: Lang) -> (r: &'static str)
        ensures
            r@ == meta_key(self, lang),
    {
        let t = dict(lang);
        match self {
            MetaField::Alias => t.meta_alias,
            MetaField::Note => t.meta_note,
        }
    }
}

/// Typing an alias or a note.
#[derive(Debug)]
pub struct MetaEdit {
    pub session: String,
    pub field: MetaField,
    pub value: String,
    pub error: Option<String>,
}

/// The model of a [`MetaEdit`].
#[verifier::ext_equal]
pub struct MetaEditModel {
    pub session: Seq<char>,
    pub field: MetaField,
    pub value: Seq<char>,
    pub error: Option<Seq<char>>,
}

impl View for MetaEdit {
    type V = MetaEditModel;

    open spec fn view(&self) -> MetaEditModel {
        MetaEditModel {
            session: self.session@,
            field: self.field,
            value: self.value@,
            error: opt_view(self.error),
        }
    }
}

pub open spec fn meta_edit_view(o: Option<MetaEdit>) -> Option<MetaEditModel> {
    match o {
        Some(e) => Some(e@),
        None => None,
    }
}

// ---------------------------------------------------------------------------
// Work that needs the outside
// ---------------------------------------------------------------------------
/// What a configuration that is to be written was changed for.
#[derive(Debug)]
pub enum SaveReason {
    /// An alias or a note of a session.
    Meta { session: String, field: MetaField },
    /// This many sessions were forgotten.
    Cleanup { count: usize },
}

/// The model of a [`SaveReason`].
pub enum SaveReasonModel {
    Meta { session: Seq<char>, field: MetaField },
    Cleanup { count: usize },
}

impl View for SaveReason {
    type V = SaveReasonModel;

    open spec fn view(&self) -> SaveReasonModel {
        match *self {
            SaveReason::Meta { session, field } => SaveReasonModel::Meta {
                session: session@,
                field,
            },
            SaveReason::Cleanup { count } => SaveReasonModel::Cleanup { count },
        }
    }
}

/// What a key asks of the outside before the program can go on.
#[derive(Debug)]
pub enum Work {
    /// Nothing.
    Done,
    /// List the sessions, then refresh.
    Refresh,
    /// List the sessions, then connect to the selected one.
    VerifyConnect,
    /// List the sessions, then share the selected one.
    VerifyShare,
    /// Look up what runs in these sessions.
    Probe(Vec<u32>),
    /// Read the working directory and the shell, then open the form.
    OpenForm,
    /// Check the form and create the session.
    SubmitForm,
    /// Write the configuration, then report.
    Save(SaveReason),
}

/// The model of [`Work`].
pub enum WorkModel {
    Done,
    Refresh,
    VerifyConnect,
    VerifyShare,
    Probe(Seq<u32>),
    OpenForm,
    SubmitForm,
    Save(SaveReasonModel),
}

impl View for Work {
    type V = WorkModel;

    open spec fn view(&self) -> WorkModel {
        match *self {
            Work::Done => WorkModel::Done,
            Work::Refresh => WorkModel::Refresh,
            Work::VerifyConnect => WorkModel::VerifyConnect,
            Work::VerifyShare => WorkModel::VerifyShare,
            Work::Probe(pids) => WorkModel::Probe(pids@),
            Work::OpenForm => WorkModel::OpenForm,
            Work::SubmitForm => WorkModel::SubmitForm,
            Work::Save(reason) => WorkModel::Save(reason@),
        }
    }
}

} // verus!
