//! The decisions of the SSH connections panel: what each action does to the
//! panel's state (its mode, the presets it shows, the add/edit form), and
//! which effects the surrounding application has to carry out (update the
//! editors, store or remove a preset, open a tab, send telemetry, ...).

use vstd::prelude::*;

use crate::ids::{is_uuid_v4_text, new_connection_id};
use crate::settings::{
    SshConnection, SshConnectionView, command_text, conns_view, find_by_id, find_connection,
    lemma_delete_removes_only_id, lemma_find_by_id_first, lemma_find_by_id_result, opt_text,
    without_id,
};
use crate::text::{
    all_digits, decimal_text, digits_value, lemma_parse_decimal_round_trip,
    lemma_trim_idempotent, parse_u16, parse_u16_text, trim, trim_end, trim_start, trimmed,
    u16_to_text, unsigned_digits,
};

verus! {

/// What the panel reports to its parent.
#[derive(Debug)]
pub enum SshConnectionsPanelEvent {
    ClosePanel,
    LaunchConnection(String),
}

/// What the user can ask of the panel.
#[derive(Debug, Clone)]
pub enum SshConnectionsPanelAction {
    ClosePanel,
    AddConnection,
    EditConnection(String),
    DeleteConnection(String),
    LaunchConnection(String),
    SaveConnection,
    CancelEdit,
    UpdateLabel(String),
    UpdateHost(String),
    UpdatePort(String),
    UpdateUser(String),
    UpdateIdentityFile(Option<String>),
    OpenIdentityFilePicker,
}

/// What the panel shows: the list of presets, or the form to add one or to
/// edit the preset with the given id.
#[derive(Clone, Debug)]
pub enum PanelMode {
    List,
    Add,
    Edit(String),
}

/// The telemetry events that the panel sends.
#[derive(Clone, Copy, Debug, PartialEq, Eq)]
pub enum TelemetryKind {
    SshConnectionCreated,
    SshConnectionEdited,
    SshConnectionDeleted,
    SshConnectionLaunched,
}

/// Work that handling an action leaves to the application, in the order in
/// which it is to be done.
#[derive(Debug)]
pub enum PanelEffect {
    /// Emit this event to the panel's parent.
    Emit(SshConnectionsPanelEvent),
    /// Redraw the panel.
    Notify,
    /// Empty the label, host and user editors and put `22` in the port editor.
    ClearEditors,
    /// Put the form's label, host, port and user into their editors.
    SyncEditorsFromForm,
    /// Save this preset in the settings, in place of those with its id.
    StoreConnection(SshConnection),
    /// Show the list again with an empty form, by calling
    /// `SshConnectionsPanelView::return_to_list`. Saving asks for it after the
    /// store, so the panel leaves the form only once the settings write has
    /// gone through (a write that fails panics before it).
    ReturnToList,
    /// Remove the presets with this id from the settings.
    RemoveConnection(String),
    /// Open a new tab that runs this command.
    LaunchCommand(String),
    /// Send this telemetry event.
    Telemetry(TelemetryKind),
    /// Ask the user for an identity file.
    OpenIdentityFilePicker,
}

// ---------------------------------------------------------------------------
// Mathematical values
// ---------------------------------------------------------------------------

/// The mathematical value of a [`PanelMode`].
pub enum PanelModeView {
    List,
    Add,
    Edit(Seq<char>),
}

/// The mathematical value of a [`SshConnectionsPanelEvent`].
pub enum PanelEventView {
    ClosePanel,
    LaunchConnection(Seq<char>),
}

/// The mathematical value of a [`PanelEffect`].
pub enum PanelEffectView {
    Emit(PanelEventView),
    Notify,
    ClearEditors,
    SyncEditorsFromForm,
    StoreConnection(SshConnectionView),
    ReturnToList,
    RemoveConnection(Seq<char>),
    LaunchCommand(Seq<char>),
    Telemetry(TelemetryKind),
    OpenIdentityFilePicker,
}

/// The texts of the add/edit form.
#[verifier::ext_equal]
pub struct FormView {
    pub label: Seq<char>,
    pub host: Seq<char>,
    pub port: Seq<char>,
    pub user: Seq<char>,
    pub identity_file: Option<Seq<char>>,
}

/// The state of the panel.
#[verifier::ext_equal]
pub struct PanelModel {
    pub mode: PanelModeView,
    pub connections: Seq<SshConnectionView>,
    pub form: FormView,
}

impl View for PanelMode {
    type V = PanelModeView;

    open spec fn view(&self) -> PanelModeView {
        match self {
            PanelMode::List => PanelModeView::List,
            PanelMode::Add => PanelModeView::Add,
            PanelMode::Edit(id) => PanelModeView::Edit(id@),
        }
    }
}

impl View for SshConnectionsPanelEvent {
    type V = PanelEventView;

    open spec fn view(&self) -> PanelEventView {
        match self {
            SshConnectionsPanelEvent::ClosePanel => PanelEventView::ClosePanel,
            SshConnectionsPanelEvent::LaunchConnection(id) => PanelEventView::LaunchConnection(id@),
        }
    }
}

impl View for PanelEffect {
    type V = PanelEffectView;

    open spec fn view(&self) -> PanelEffectView {
        match self {
            PanelEffect::Emit(e) => PanelEffectView::Emit(e@),
            PanelEffect::Notify => PanelEffectView::Notify,
            PanelEffect::ClearEditors => PanelEffectView::ClearEditors,
            PanelEffect::SyncEditorsFromForm => PanelEffectView::SyncEditorsFromForm,
            PanelEffect::StoreConnection(c) => PanelEffectView::StoreConnection(c@),
            PanelEffect::ReturnToList => PanelEffectView::ReturnToList,
            PanelEffect::RemoveConnection(id) => PanelEffectView::RemoveConnection(id@),
            PanelEffect::LaunchCommand(cmd) => PanelEffectView::LaunchCommand(cmd@),
            PanelEffect::Telemetry(k) => PanelEffectView::Telemetry(*k),
            PanelEffect::OpenIdentityFilePicker => PanelEffectView::OpenIdentityFilePicker,
        }
    }
}

/// The values of a list of effects.
pub open spec fn effects_view(v: Seq<PanelEffect>) -> Seq<PanelEffectView> {
    v.map_values(|e: PanelEffect| e@)
}

// ---------------------------------------------------------------------------
// The decisions, stated
// ---------------------------------------------------------------------------

/// The form as it is when empty: no label, host or user, port `22`, no
/// identity file.
pub open spec fn cleared_form() -> FormView {
    FormView {
        label: Seq::empty(),
        host: Seq::empty(),
        port: "22"@,
        user: Seq::empty(),
        identity_file: None,
    }
}

/// The form filled in from a preset.
pub open spec fn form_of(c: SshConnectionView) -> FormView {
    FormView {
        label: c.label,
        host: c.host,
        port: decimal_text(c.port as nat),
        user: c.user,
        identity_file: c.identity_file,
    }
}

/// The port that the form's port text stands for: its number where it reads
/// as one, else 22.
pub open spec fn form_port(port: Seq<char>) -> u16 {
    match parse_u16(port) {
        Some(p) => p,
        None => 22,
    }
}

/// The preset that saving the form gives, under the id `id`: label, host and
/// user trimmed, the port read from its text.
pub open spec fn connection_from_form(form: FormView, id: Seq<char>) -> SshConnectionView {
    SshConnectionView {
        id: id,
        label: trim(form.label),
        host: trim(form.host),
        port: form_port(form.port),
        user: trim(form.user),
        identity_file: form.identity_file,
    }
}

/// The id under which the form is saved: that of the preset being edited,
/// else `fresh_id`.
pub open spec fn save_id(mode: PanelModeView, fresh_id: Seq<char>) -> Seq<char> {
    match mode {
        PanelModeView::Edit(id) => id,
        _ => fresh_id,
    }
}

/// Whether handling `a` in state `s` needs a newly made id: saving a form
/// that adds a preset.
pub open spec fn needs_fresh_id(s: PanelModel, a: SshConnectionsPanelAction) -> bool {
    &&& a is SaveConnection
    &&& !(s.mode is Edit)
}

/// `s` showing the list again, with the form emptied.
pub open spec fn back_to_list(s: PanelModel) -> PanelModel {
    PanelModel { mode: PanelModeView::List, form: cleared_form(), ..s }
}

/// `s` with the form replaced.
pub open spec fn with_form(s: PanelModel, form: FormView) -> PanelModel {
    PanelModel { form: form, ..s }
}

/// The state after an action, and the effects it asks for. `fresh_id` is
/// the id that a newly added preset gets. Saving leaves the state as it is:
/// the move back to the list with an empty form is owed through its
/// `ReturnToList` effect, which comes after the store.
pub open spec fn step(s: PanelModel, a: SshConnectionsPanelAction, fresh_id: Seq<char>) -> (
    PanelModel,
    Seq<PanelEffectView>,
) {
    match a {
        SshConnectionsPanelAction::ClosePanel => (
            s,
            seq![PanelEffectView::Emit(PanelEventView::ClosePanel)],
        ),
        SshConnectionsPanelAction::AddConnection => (
            PanelModel { mode: PanelModeView::Add, form: cleared_form(), ..s },
            seq![PanelEffectView::ClearEditors, PanelEffectView::Notify],
        ),
        SshConnectionsPanelAction::EditConnection(id) => match find_by_id(s.connections, id@) {
            Some(c) => (
                PanelModel { mode: PanelModeView::Edit(id@), form: form_of(c), ..s },
                seq![PanelEffectView::SyncEditorsFromForm, PanelEffectView::Notify],
            ),
            None => (s, Seq::empty()),
        },
        SshConnectionsPanelAction::DeleteConnection(id) => (
            s,
            seq![
                PanelEffectView::RemoveConnection(id@),
                PanelEffectView::Telemetry(TelemetryKind::SshConnectionDeleted),
            ],
        ),
        SshConnectionsPanelAction::LaunchConnection(id) => match find_by_id(s.connections, id@) {
            Some(c) => (
                s,
                seq![
                    PanelEffectView::LaunchCommand(command_text(c)),
                    PanelEffectView::Telemetry(TelemetryKind::SshConnectionLaunched),
                ],
            ),
            None => (s, Seq::empty()),
        },
        SshConnectionsPanelAction::SaveConnection => (
            s,
            seq![
                PanelEffectView::StoreConnection(
                    connection_from_form(s.form, save_id(s.mode, fresh_id)),
                ),
                PanelEffectView::Telemetry(
                    if s.mode is Edit {
                        TelemetryKind::SshConnectionEdited
                    } else {
                        TelemetryKind::SshConnectionCreated
                    },
                ),
                PanelEffectView::ReturnToList,
                PanelEffectView::ClearEditors,
                PanelEffectView::Notify,
            ],
        ),
        SshConnectionsPanelAction::CancelEdit => (
            back_to_list(s),
            seq![PanelEffectView::ClearEditors, PanelEffectView::Notify],
        ),
        SshConnectionsPanelAction::UpdateLabel(t) => (
            with_form(s, FormView { label: t@, ..s.form }),
            Seq::empty(),
        ),
        SshConnectionsPanelAction::UpdateHost(t) => (
            with_form(s, FormView { host: t@, ..s.form }),
            Seq::empty(),
        ),
        SshConnectionsPanelAction::UpdatePort(t) => (
            with_form(s, FormView { port: t@, ..s.form }),
            Seq::empty(),
        ),
        SshConnectionsPanelAction::UpdateUser(t) => (
            with_form(s, FormView { user: t@, ..s.form }),
            Seq::empty(),
        ),
        SshConnectionsPanelAction::UpdateIdentityFile(p) => (
            with_form(s, FormView { identity_file: opt_text(p), ..s.form }),
            seq![PanelEffectView::Notify],
        ),
        SshConnectionsPanelAction::OpenIdentityFilePicker => (
            s,
            seq![PanelEffectView::OpenIdentityFilePicker],
        ),
    }
}

/// The path that an answer of the identity-file picker gives: the first
/// chosen path of a successful answer, if there is one.
pub open spec fn picked_path(paths: Option<Vec<String>>) -> Option<Seq<char>> {
    match paths {
        Some(v) => if v.len() > 0 {
            Some(v@[0]@)
        } else {
            None
        },
        None => None,
    }
}

/// The action that an answer of the identity-file picker leads to:
/// `UpdateIdentityFile` with the first chosen path when the picker succeeded
/// with at least one path (`paths` is `None` when it failed), and no action
/// otherwise.
pub fn identity_file_action(paths: Option<Vec<String>>) -> (a: Option<SshConnectionsPanelAction>)
    ensures
        match a {
            Some(act) => act matches SshConnectionsPanelAction::UpdateIdentityFile(Some(p))
                && picked_path(paths) == Some(p@),
            None => picked_path(paths) is None,
        },
{
    match &paths {
        Some(v) => {
            if v.len() > 0 {
                Some(SshConnectionsPanelAction::UpdateIdentityFile(Some(v[0].clone())))
            } else {
                None
            }
        },
        None => None,
    }
}

// ---------------------------------------------------------------------------
// Runs of actions
// ---------------------------------------------------------------------------

/// The state after handling the actions `acts` in order, from `s`.
pub open spec fn run(s: PanelModel, acts: Seq<SshConnectionsPanelAction>, fresh_id: Seq<char>) -> PanelModel
    decreases acts.len(),
{
    if acts.len() == 0 {
        s
    } else {
        step(run(s, acts.drop_last(), fresh_id), acts.last(), fresh_id).0
    }
}

/// The effects that handling the actions `acts` in order, from `s`, asks
/// for, in order.
pub open spec fn run_effects(
    s: PanelModel,
    acts: Seq<SshConnectionsPanelAction>,
    fresh_id: Seq<char>,
) -> Seq<PanelEffectView>
    decreases acts.len(),
{
    if acts.len() == 0 {
        Seq::empty()
    } else {
        run_effects(s, acts.drop_last(), fresh_id) + step(
            run(s, acts.drop_last(), fresh_id),
            acts.last(),
            fresh_id,
        ).1
    }
}

/// Whether `a` only changes a text of the form.
pub open spec fn is_form_update(a: SshConnectionsPanelAction) -> bool {
    ||| a is UpdateLabel
    ||| a is UpdateHost
    ||| a is UpdatePort
    ||| a is UpdateUser
    ||| a is UpdateIdentityFile
}

/// Whether `e` changes the saved presets in the settings.
pub open spec fn writes_settings(e: PanelEffectView) -> bool {
    e is StoreConnection || e is RemoveConnection
}

// ---------------------------------------------------------------------------
// Laws of the decisions
// ---------------------------------------------------------------------------

/// No action changes the presets that the panel lists: they change only when
/// the settings do.
pub proof fn lemma_actions_keep_connections(
    s: PanelModel,
    a: SshConnectionsPanelAction,
    fresh_id: Seq<char>,
)
    ensures
        step(s, a, fresh_id).0.connections == s.connections,
{
}

proof fn lemma_run_keeps_connections(
    s: PanelModel,
    acts: Seq<SshConnectionsPanelAction>,
    fresh_id: Seq<char>,
)
    ensures
        run(s, acts, fresh_id).connections == s.connections,
    decreases acts.len(),
{
    if acts.len() > 0 {
        lemma_run_keeps_connections(s, acts.drop_last(), fresh_id);
    }
}

proof fn lemma_run_writes_nothing(
    s: PanelModel,
    acts: Seq<SshConnectionsPanelAction>,
    fresh_id: Seq<char>,
)
    requires
        forall|i: int|
            0 <= i < acts.len() ==> !(#[trigger] acts[i] is SaveConnection) && !(
            acts[i] is DeleteConnection),
    ensures
        forall|k: int|
            0 <= k < run_effects(s, acts, fresh_id).len() ==> !writes_settings(
                #[trigger] run_effects(s, acts, fresh_id)[k],
            ),
    decreases acts.len(),
{
    if acts.len() > 0 {
        let init = acts.drop_last();
        assert forall|i: int| 0 <= i < init.len() implies !(#[trigger] init[i] is SaveConnection)
            && !(init[i] is DeleteConnection) by {
            assert(init[i] == acts[i]);
        }
        lemma_run_writes_nothing(s, init, fresh_id);
        let before = run_effects(s, init, fresh_id);
        let last = step(run(s, init, fresh_id), acts.last(), fresh_id).1;
        assert(!(acts[acts.len() - 1] is SaveConnection) && !(acts[acts.len() - 1] is DeleteConnection));
        assert forall|k: int|
            0 <= k < run_effects(s, acts, fresh_id).len() implies !writes_settings(
            #[trigger] run_effects(s, acts, fresh_id)[k],
        ) by {
            if k < before.len() {
                assert(run_effects(s, acts, fresh_id)[k] == before[k]);
            } else {
                assert(run_effects(s, acts, fresh_id)[k] == last[k - before.len()]);
            }
        }
    }
}

/// Opening the form to add or edit a preset, changing its texts in any way,
/// and then cancelling leaves the saved presets as they were (no effect
/// writes the settings) and brings the panel back to the list with the form
/// as it is at the start.
pub proof fn lemma_cancel_round_trip(
    s: PanelModel,
    open: SshConnectionsPanelAction,
    updates: Seq<SshConnectionsPanelAction>,
    fresh_id: Seq<char>,
)
    requires
        open is AddConnection || open is EditConnection,
        forall|i: int| 0 <= i < updates.len() ==> is_form_update(#[trigger] updates[i]),
    ensures
        ({
            let acts = seq![open] + updates + seq![SshConnectionsPanelAction::CancelEdit];
            &&& run(s, acts, fresh_id) == back_to_list(s)
            &&& run(s, acts, fresh_id).mode == PanelModeView::List
            &&& run(s, acts, fresh_id).form == cleared_form()
            &&& run(s, acts, fresh_id).connections == s.connections
            &&& forall|k: int|
                0 <= k < run_effects(s, acts, fresh_id).len() ==> !writes_settings(
                    #[trigger] run_effects(s, acts, fresh_id)[k],
                )
        }),
{
    let acts = seq![open] + updates + seq![SshConnectionsPanelAction::CancelEdit];
    let init = acts.drop_last();
    assert(acts.last() == SshConnectionsPanelAction::CancelEdit);
    lemma_run_keeps_connections(s, init, fresh_id);
    assert forall|i: int| 0 <= i < acts.len() implies !(#[trigger] acts[i] is SaveConnection) && !(
    acts[i] is DeleteConnection) by {
        if 0 < i < acts.len() - 1 {
            assert(acts[i] == updates[i - 1]);
        }
    }
    lemma_run_writes_nothing(s, acts, fresh_id);
}

/// Launching an id runs the command line of the first listed preset with
/// that id, and sends the launched telemetry; when no listed preset has the
/// id, nothing happens. The panel's state stays as it was.
pub proof fn lemma_launch_runs_the_clicked_preset(
    s: PanelModel,
    id: String,
    i: int,
    fresh_id: Seq<char>,
)
    requires
        0 <= i < s.connections.len(),
        s.connections[i].id == id@,
        forall|j: int| 0 <= j < i ==> #[trigger] s.connections[j].id != id@,
    ensures
        ({
            let r = step(s, SshConnectionsPanelAction::LaunchConnection(id), fresh_id);
            &&& r.0 == s
            &&& r.1 == seq![
                PanelEffectView::LaunchCommand(command_text(s.connections[i])),
                PanelEffectView::Telemetry(TelemetryKind::SshConnectionLaunched),
            ]
        }),
{
    lemma_find_by_id_first(s.connections, id@, i);
}

/// Launching an id that no listed preset has asks for nothing.
pub proof fn lemma_launch_of_unknown_id(s: PanelModel, id: String, fresh_id: Seq<char>)
    requires
        forall|j: int| 0 <= j < s.connections.len() ==> #[trigger] s.connections[j].id != id@,
    ensures
        step(s, SshConnectionsPanelAction::LaunchConnection(id), fresh_id) == (s, Seq::<
            PanelEffectView,
        >::empty()),
{
    lemma_find_by_id_result(s.connections, id@);
    if find_by_id(s.connections, id@) is Some {
        let c = find_by_id(s.connections, id@)->0;
        let k = choose|k: int| 0 <= k < s.connections.len() && s.connections[k] == c;
        assert(s.connections[k].id != id@);
    }
}

/// Deleting an id asks for exactly one settings write, which, applied to
/// any saved list, removes the presets with that id and keeps every preset
/// of another id as it was; the deleted telemetry follows, and the panel's
/// state stays as it was.
pub proof fn lemma_delete_removes_the_clicked_id(
    s: PanelModel,
    id: String,
    saved: Seq<SshConnectionView>,
    other: Seq<char>,
    fresh_id: Seq<char>,
)
    requires
        other != id@,
    ensures
        ({
            let r = step(s, SshConnectionsPanelAction::DeleteConnection(id), fresh_id);
            &&& r.0 == s
            &&& r.1.len() == 2
            &&& r.1[0] is RemoveConnection
            &&& r.1[1] == PanelEffectView::Telemetry(TelemetryKind::SshConnectionDeleted)
            &&& !writes_settings(r.1[1])
            &&& {
                let removed = r.1[0]->RemoveConnection_0;
                &&& removed == id@
                &&& find_by_id(without_id(saved, removed), id@) == None::<SshConnectionView>
                &&& find_by_id(without_id(saved, removed), other) == find_by_id(saved, other)
            }
        }),
{
    lemma_delete_removes_only_id(saved, id@, other);
}

/// Adding starts from an empty form whatever the panel showed before: label,
/// host and user empty, port text `22`, no identity file; the listed presets
/// stay as they were.
pub proof fn lemma_add_starts_empty(s: PanelModel, t: PanelModel, fresh_id: Seq<char>)
    ensures
        ({
            let r = step(s, SshConnectionsPanelAction::AddConnection, fresh_id).0;
            &&& r.mode == PanelModeView::Add
            &&& r.form.label.len() == 0
            &&& r.form.host.len() == 0
            &&& r.form.user.len() == 0
            &&& r.form.port == "22"@
            &&& r.form.identity_file is None
            &&& r.connections == s.connections
            &&& step(t, SshConnectionsPanelAction::AddConnection, fresh_id).0.form == r.form
        }),
{
}

/// Adding, typing only a host, and saving stores a preset with that host
/// (trimmed), the new id, port 22, and no label, user or identity file,
/// whatever the form held before.
pub proof fn lemma_add_host_then_save(s: PanelModel, host: String, fresh_id: Seq<char>)
    ensures
        ({
            let added = step(s, SshConnectionsPanelAction::AddConnection, fresh_id).0;
            let typed = step(added, SshConnectionsPanelAction::UpdateHost(host), fresh_id).0;
            let saved = step(typed, SshConnectionsPanelAction::SaveConnection, fresh_id);
            saved.1[0] == PanelEffectView::StoreConnection(
                SshConnectionView {
                    id: fresh_id,
                    label: Seq::empty(),
                    host: trim(host@),
                    port: 22,
                    user: Seq::empty(),
                    identity_file: None,
                },
            )
        }),
{
    reveal_strlit("22");
    let e = Seq::<char>::empty();
    assert(trim_start(e) == e);
    assert(trim_end(e) == e);
    let two = "22"@;
    assert(two =~= seq!['2', '2']);
    assert(unsigned_digits(two) == two);
    assert(all_digits(two));
    assert(two.drop_last() =~= seq!['2']);
    assert(seq!['2'].drop_last() =~= Seq::<char>::empty());
    assert(digits_value(Seq::<char>::empty()) == 0);
    assert(digits_value(seq!['2']) == 2);
    assert(digits_value(two) == 22);
    assert(parse_u16(two) == Some(22u16));
}

/// Only adding, editing and cancelling move the panel between the list and
/// the form (saving asks for the move back to the list as an effect, to be
/// done once the preset is stored); every other action leaves the mode as it
/// was, and closing, deleting, launching, saving and opening the file picker
/// leave the whole state as it was.
pub proof fn lemma_mode_changes_only_by_navigation(
    s: PanelModel,
    a: SshConnectionsPanelAction,
    fresh_id: Seq<char>,
)
    requires
        !(a is AddConnection),
        !(a is EditConnection),
        !(a is CancelEdit),
    ensures
        step(s, a, fresh_id).0.mode == s.mode,
        (a is ClosePanel || a is DeleteConnection || a is LaunchConnection
            || a is SaveConnection || a is OpenIdentityFilePicker) ==> step(s, a, fresh_id).0 == s,
{
}

/// Editing a preset and saving the form unchanged stores that same preset
/// again, under its own id, provided that its label, host and user carry no
/// surrounding white space; once it is stored, the panel goes back to the
/// list with an empty form.
pub proof fn lemma_edit_then_save_stores_same(
    s: PanelModel,
    id: String,
    c: SshConnectionView,
    fresh_id: Seq<char>,
)
    requires
        find_by_id(s.connections, id@) == Some(c),
        trim(c.label) == c.label,
        trim(c.host) == c.host,
        trim(c.user) == c.user,
    ensures
        ({
            let edited = step(s, SshConnectionsPanelAction::EditConnection(id), fresh_id).0;
            let saved = step(edited, SshConnectionsPanelAction::SaveConnection, fresh_id);
            &&& edited.mode == PanelModeView::Edit(id@)
            &&& edited.form == form_of(c)
            &&& saved.1.len() == 5
            &&& saved.1[0] == PanelEffectView::StoreConnection(c)
            &&& saved.1[1] == PanelEffectView::Telemetry(TelemetryKind::SshConnectionEdited)
            &&& saved.1[2] == PanelEffectView::ReturnToList
            &&& saved.0 == edited
            &&& back_to_list(saved.0) == back_to_list(s)
        }),
{
    lemma_find_by_id_result(s.connections, id@);
    lemma_parse_decimal_round_trip(c.port);
}

/// A preset that saving the form produced is stored unchanged when it is
/// edited and saved again.
pub proof fn lemma_resave_is_stable(
    s: PanelModel,
    form: FormView,
    id: String,
    fresh_id: Seq<char>,
)
    requires
        find_by_id(s.connections, id@) == Some(connection_from_form(form, id@)),
    ensures
        ({
            let c = connection_from_form(form, id@);
            let edited = step(s, SshConnectionsPanelAction::EditConnection(id), fresh_id).0;
            let saved = step(edited, SshConnectionsPanelAction::SaveConnection, fresh_id);
            saved.1[0] == PanelEffectView::StoreConnection(c)
        }),
{
    lemma_trim_idempotent(form.label);
    lemma_trim_idempotent(form.host);
    lemma_trim_idempotent(form.user);
    lemma_edit_then_save_stores_same(s, id, connection_from_form(form, id@), fresh_id);
}

// ---------------------------------------------------------------------------
// The panel
// ---------------------------------------------------------------------------

/// The state of the SSH connections panel.
pub struct SshConnectionsPanelView {
    mode: PanelMode,
    connections: Vec<SshConnection>,
    form_label: String,
    form_host: String,
    form_port: String,
    form_user: String,
    form_identity_file: Option<String>,
}

impl View for SshConnectionsPanelView {
    type V = PanelModel;

    closed spec fn view(&self) -> PanelModel {
        PanelModel {
            mode: self.mode@,
            connections: conns_view(self.connections@),
            form: FormView {
                label: self.form_label@,
                host: self.form_host@,
                port: self.form_port@,
                user: self.form_user@,
                identity_file: opt_text(self.form_identity_file),
            },
        }
    }
}

fn copy_text(o: &Option<String>) -> (r: Option<String>)
    ensures
        opt_text(r) == opt_text(*o),
{
    match o {
        Some(s) => Some(s.clone()),
        None => None,
    }
}

fn copy_connections(v: &Vec<SshConnection>) -> (r: Vec<SshConnection>)
    ensures
        conns_view(r@) == conns_view(v@),
{
    let mut out: Vec<SshConnection> = Vec::new();
    let mut i: usize = 0;
    while i < v.len()
        invariant
            i <= v.len(),
            out@.len() == i,
            forall|j: int| 0 <= j < i ==> #[trigger] out@[j]@ == v@[j]@,
        decreases v.len() - i,
    {
        out.push(v[i].duplicate());
        i = i + 1;
    }
    assert(conns_view(out@) =~= conns_view(v@));
    out
}

fn one_effect(e: PanelEffect) -> (r: Vec<PanelEffect>)
    ensures
        effects_view(r@) == seq![e@],
{
    let mut v = Vec::new();
    v.push(e);
    assert(effects_view(v@) =~= seq![e@]);
    v
}

fn two_effects(a: PanelEffect, b: PanelEffect) -> (r: Vec<PanelEffect>)
    ensures
        effects_view(r@) == seq![a@, b@],
{
    let mut v = Vec::new();
    v.push(a);
    v.push(b);
    assert(effects_view(v@) =~= seq![a@, b@]);
    v
}

fn no_effects() -> (r: Vec<PanelEffect>)
    ensures
        effects_view(r@) == Seq::<PanelEffectView>::empty(),
{
    let v: Vec<PanelEffect> = Vec::new();
    assert(effects_view(v@) =~= Seq::<PanelEffectView>::empty());
    v
}

impl SshConnectionsPanelView {
    /// A panel that lists `connections` (the saved presets) with an empty
    /// form.
    pub fn new(connections: Vec<SshConnection>) -> (p: Self)
        ensures
            p@ == (PanelModel {
                mode: PanelModeView::List,
                connections: conns_view(connections@),
                form: cleared_form(),
            }),
    {
        SshConnectionsPanelView {
            mode: PanelMode::List,
            connections,
            form_label: String::new(),
            form_host: String::new(),
            form_port: String::from_str("22"),
            form_user: String::new(),
            form_identity_file: None,
        }
    }

    /// What the panel shows.
    pub fn mode(&self) -> (m: &PanelMode)
        ensures
            m@ == self@.mode,
    {
        &self.mode
    }

    /// The saved presets that the panel lists.
    pub fn connections(&self) -> (c: &Vec<SshConnection>)
        ensures
            conns_view(c@) == self@.connections,
    {
        &self.connections
    }

    /// The form's label text.
    pub fn form_label(&self) -> (t: &String)
        ensures
            t@ == self@.form.label,
    {
        &self.form_label
    }

    /// The form's host text.
    pub fn form_host(&self) -> (t: &String)
        ensures
            t@ == self@.form.host,
    {
        &self.form_host
    }

    /// The form's port text.
    pub fn form_port(&self) -> (t: &String)
        ensures
            t@ == self@.form.port,
    {
        &self.form_port
    }

    /// The form's user text.
    pub fn form_user(&self) -> (t: &String)
        ensures
            t@ == self@.form.user,
    {
        &self.form_user
    }

    /// The form's identity file.
    pub fn form_identity_file(&self) -> (t: &Option<String>)
        ensures
            opt_text(*t) == self@.form.identity_file,
    {
        &self.form_identity_file
    }

    /// Whether the panel shows the form (adding or editing) rather than the
    /// list.
    pub fn shows_form(&self) -> (b: bool)
        ensures
            b == !(self@.mode is List),
    {
        match &self.mode {
            PanelMode::List => false,
            _ => true,
        }
    }

    /// The text shown for the form's identity file: its path, or
    /// `None selected`.
    pub fn identity_file_text(&self) -> (t: String)
        ensures
            t@ == (match self@.form.identity_file {
                Some(f) => f,
                None => "None selected"@,
            }),
    {
        match &self.form_identity_file {
            Some(f) => f.clone(),
            None => String::from_str("None selected"),
        }
    }

    /// Takes the presets that the settings now hold.
    pub fn set_connections(&mut self, connections: Vec<SshConnection>)
        ensures
            final(self)@ == (PanelModel { connections: conns_view(connections@), ..old(self)@ }),
    {
        self.connections = connections;
    }

    fn set_form_from_connection(&mut self, conn: &SshConnection)
        ensures
            final(self)@ == with_form(old(self)@, form_of(conn@)),
    {
        self.form_label = conn.label.clone();
        self.form_host = conn.host.clone();
        self.form_port = u16_to_text(conn.port);
        self.form_user = conn.user.clone();
        self.form_identity_file = copy_text(&conn.identity_file);
    }

    fn clear_form(&mut self)
        ensures
            final(self)@ == with_form(old(self)@, cleared_form()),
    {
        self.form_label = String::new();
        self.form_host = String::new();
        self.form_port = String::from_str("22");
        self.form_user = String::new();
        self.form_identity_file = None;
    }

    /// The preset that saving the form under the id `id` gives.
    pub fn connection_from_form(&self, id: String) -> (c: SshConnection)
        ensures
            c@ == connection_from_form(self@.form, id@),
    {
        let port: u16 = match parse_u16_text(self.form_port.as_str()) {
            Some(p) => p,
            None => 22,
        };
        SshConnection {
            id,
            label: trimmed(self.form_label.as_str()),
            host: trimmed(self.form_host.as_str()),
            port,
            user: trimmed(self.form_user.as_str()),
            identity_file: copy_text(&self.form_identity_file),
        }
    }

    /// Shows the list again with an empty form: what the application does on
    /// `PanelEffect::ReturnToList`, once a saved preset is stored.
    pub fn return_to_list(&mut self)
        ensures
            final(self)@ == back_to_list(old(self)@),
    {
        self.mode = PanelMode::List;
        self.clear_form();
    }

    fn save_current_form(&mut self, fresh_id: String) -> (effects: Vec<PanelEffect>)
        ensures
            (final(self)@, effects_view(effects@)) == step(
                old(self)@,
                SshConnectionsPanelAction::SaveConnection,
                fresh_id@,
            ),
    {
        let editing = match &self.mode {
            PanelMode::Edit(_) => true,
            _ => false,
        };
        let id = match &self.mode {
            PanelMode::Edit(id) => id.clone(),
            _ => fresh_id,
        };
        let conn = self.connection_from_form(id);
        let kind = if editing {
            TelemetryKind::SshConnectionEdited
        } else {
            TelemetryKind::SshConnectionCreated
        };
        let mut effects = two_effects(PanelEffect::StoreConnection(conn), PanelEffect::Telemetry(kind));
        let ghost before = effects@;
        effects.push(PanelEffect::ReturnToList);
        effects.push(PanelEffect::ClearEditors);
        effects.push(PanelEffect::Notify);
        assert(effects_view(effects@) =~= effects_view(before).push(PanelEffectView::ReturnToList).push(
            PanelEffectView::ClearEditors,
        ).push(PanelEffectView::Notify));
        effects
    }

    fn edit_connection(&mut self, id: &String) -> (effects: Vec<PanelEffect>)
        ensures
            (final(self)@, effects_view(effects@)) == step(
                old(self)@,
                SshConnectionsPanelAction::EditConnection(*id),
                Seq::empty(),
            ),
    {
        match find_connection(&self.connections, id) {
            Some(i) => {
                let conn = self.connections[i].duplicate();
                self.set_form_from_connection(&conn);
                self.mode = PanelMode::Edit(id.clone());
                two_effects(PanelEffect::SyncEditorsFromForm, PanelEffect::Notify)
            },
            None => no_effects(),
        }
    }

    fn launch_connection(&self, id: &String) -> (effects: Vec<PanelEffect>)
        ensures
            (self@, effects_view(effects@)) == step(
                self@,
                SshConnectionsPanelAction::LaunchConnection(*id),
                Seq::empty(),
            ),
    {
        match find_connection(&self.connections, id) {
            Some(i) => {
                let command = self.connections[i].to_command_string();
                two_effects(
                    PanelEffect::LaunchCommand(command),
                    PanelEffect::Telemetry(TelemetryKind::SshConnectionLaunched),
                )
            },
            None => no_effects(),
        }
    }

    /// Handles `action`, with `fresh_id` as the id of a preset that it adds.
    pub fn handle_action_with_id(&mut self, action: &SshConnectionsPanelAction, fresh_id: String) -> (effects: Vec<PanelEffect>)
        ensures
            (final(self)@, effects_view(effects@)) == step(old(self)@, *action, fresh_id@),
    {
        match action {
            SshConnectionsPanelAction::ClosePanel => {
                one_effect(PanelEffect::Emit(SshConnectionsPanelEvent::ClosePanel))
            },
            SshConnectionsPanelAction::AddConnection => {
                self.clear_form();
                self.mode = PanelMode::Add;
                two_effects(PanelEffect::ClearEditors, PanelEffect::Notify)
            },
            SshConnectionsPanelAction::EditConnection(id) => self.edit_connection(id),
            SshConnectionsPanelAction::DeleteConnection(id) => {
                two_effects(
                    PanelEffect::RemoveConnection(id.clone()),
                    PanelEffect::Telemetry(TelemetryKind::SshConnectionDeleted),
                )
            },
            SshConnectionsPanelAction::LaunchConnection(id) => self.launch_connection(id),
            SshConnectionsPanelAction::SaveConnection => self.save_current_form(fresh_id),
            SshConnectionsPanelAction::CancelEdit => {
                self.mode = PanelMode::List;
                self.clear_form();
                two_effects(PanelEffect::ClearEditors, PanelEffect::Notify)
            },
            SshConnectionsPanelAction::UpdateLabel(text) => {
                self.form_label = text.clone();
                no_effects()
            },
            SshConnectionsPanelAction::UpdateHost(text) => {
                self.form_host = text.clone();
                no_effects()
            },
            SshConnectionsPanelAction::UpdatePort(text) => {
                self.form_port = text.clone();
                no_effects()
            },
            SshConnectionsPanelAction::UpdateUser(text) => {
                self.form_user = text.clone();
                no_effects()
            },
            SshConnectionsPanelAction::UpdateIdentityFile(path) => {
                self.form_identity_file = copy_text(path);
                one_effect(PanelEffect::Notify)
            },
            SshConnectionsPanelAction::OpenIdentityFilePicker => {
                one_effect(PanelEffect::OpenIdentityFilePicker)
            },
        }
    }

    /// Handles `action`. A preset that it adds gets a new random (version 4)
    /// UUID as its id; every other action is decided as `step` states. The
    /// effects are to be carried out in order; for a save, the return to the
    /// list is owed through `ReturnToList`, which the caller does by calling
    /// `return_to_list` once the preset is stored.
    pub fn handle_action(&mut self, action: &SshConnectionsPanelAction) -> (effects: Vec<PanelEffect>)
        ensures
            needs_fresh_id(old(self)@, *action) ==> exists|id: Seq<char>|
                #[trigger] is_uuid_v4_text(id) && (final(self)@, effects_view(effects@)) == step(
                    old(self)@,
                    *action,
                    id,
                ),
            !needs_fresh_id(old(self)@, *action) ==> (final(self)@, effects_view(effects@))
                == step(old(self)@, *action, Seq::empty()),
    {
        let fresh = match (action, &self.mode) {
            (SshConnectionsPanelAction::SaveConnection, PanelMode::Edit(_)) => String::new(),
            (SshConnectionsPanelAction::SaveConnection, _) => new_connection_id(),
            _ => String::new(),
        };
        let ghost fresh_view = fresh@;
        let effects = self.handle_action_with_id(action, fresh);
        assert(needs_fresh_id(old(self)@, *action) ==> is_uuid_v4_text(fresh_view));
        effects
    }
}

} // verus!
