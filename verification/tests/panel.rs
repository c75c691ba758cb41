use ssh_connections::panel::{
    identity_file_action, PanelEffect, PanelMode, SshConnectionsPanelAction, SshConnectionsPanelEvent,
    SshConnectionsPanelView, TelemetryKind,
};
use ssh_connections::settings::SshConnection;

fn conn(id: &str, label: &str, host: &str, port: u16, user: &str, identity: Option<&str>) -> SshConnection {
    SshConnection {
        id: id.to_string(),
        label: label.to_string(),
        host: host.to_string(),
        port,
        user: user.to_string(),
        identity_file: identity.map(|s| s.to_string()),
    }
}

fn is_uuid_v4(s: &str) -> bool {
    let b: Vec<char> = s.chars().collect();
    b.len() == 36
        && b.iter().enumerate().all(|(i, c)| {
            if [8, 13, 18, 23].contains(&i) {
                *c == '-'
            } else {
                c.is_ascii_digit() || ('a'..='f').contains(c)
            }
        })
        && b[14] == '4'
        && ['8', '9', 'a', 'b'].contains(&b[19])
}

fn stored(effects: &[PanelEffect]) -> SshConnection {
    match &effects[0] {
        PanelEffect::StoreConnection(c) => c.clone(),
        other => panic!("expected a stored preset, got {:?}", other),
    }
}

fn form_is_cleared(p: &SshConnectionsPanelView) -> bool {
    p.form_label().is_empty()
        && p.form_host().is_empty()
        && p.form_port() == "22"
        && p.form_user().is_empty()
        && p.form_identity_file().is_none()
}

#[test]
fn new_panel_lists_with_empty_form() {
    let p = SshConnectionsPanelView::new(vec![conn("a", "", "h", 22, "", None)]);
    assert!(matches!(p.mode(), PanelMode::List));
    assert!(!p.shows_form());
    assert_eq!(p.connections().len(), 1);
    assert!(form_is_cleared(&p));
    assert_eq!(p.identity_file_text(), "None selected");
}

#[test]
fn close_emits_close_event() {
    let mut p = SshConnectionsPanelView::new(vec![]);
    let e = p.handle_action(&SshConnectionsPanelAction::ClosePanel);
    assert_eq!(e.len(), 1);
    assert!(matches!(e[0], PanelEffect::Emit(SshConnectionsPanelEvent::ClosePanel)));
    assert!(matches!(p.mode(), PanelMode::List));
}

#[test]
fn add_then_save_creates_a_trimmed_preset_with_a_new_id() {
    let mut p = SshConnectionsPanelView::new(vec![]);
    let e = p.handle_action(&SshConnectionsPanelAction::AddConnection);
    assert!(matches!(e[..], [PanelEffect::ClearEditors, PanelEffect::Notify]));
    assert!(matches!(p.mode(), PanelMode::Add));
    assert!(p.shows_form());

    assert!(p.handle_action(&SshConnectionsPanelAction::UpdateLabel("  Prod ".to_string())).is_empty());
    assert!(p.handle_action(&SshConnectionsPanelAction::UpdateHost("\texample.com\n".to_string())).is_empty());
    assert!(p.handle_action(&SshConnectionsPanelAction::UpdatePort("2222".to_string())).is_empty());
    assert!(p.handle_action(&SshConnectionsPanelAction::UpdateUser(" deploy".to_string())).is_empty());
    let e = p.handle_action(&SshConnectionsPanelAction::UpdateIdentityFile(Some("/k".to_string())));
    assert!(matches!(e[..], [PanelEffect::Notify]));
    assert_eq!(p.form_label(), "  Prod ");
    assert_eq!(p.identity_file_text(), "/k");

    let e = p.handle_action(&SshConnectionsPanelAction::SaveConnection);
    assert_eq!(e.len(), 5);
    // Until the preset is stored, the form stays as it is.
    assert!(matches!(p.mode(), PanelMode::Add));
    assert_eq!(p.form_label(), "  Prod ");
    let c = stored(&e);
    assert!(is_uuid_v4(&c.id), "{}", c.id);
    assert_eq!(c.label, "Prod");
    assert_eq!(c.host, "example.com");
    assert_eq!(c.port, 2222);
    assert_eq!(c.user, "deploy");
    assert_eq!(c.identity_file.as_deref(), Some("/k"));
    assert!(matches!(e[1], PanelEffect::Telemetry(TelemetryKind::SshConnectionCreated)));
    assert!(matches!(e[2], PanelEffect::ReturnToList));
    assert!(matches!(e[3], PanelEffect::ClearEditors));
    assert!(matches!(e[4], PanelEffect::Notify));
    p.return_to_list();
    assert!(matches!(p.mode(), PanelMode::List));
    assert!(form_is_cleared(&p));
    // The panel's list changes only when the settings do.
    assert!(p.connections().is_empty());
}

#[test]
fn new_ids_differ() {
    let mut p = SshConnectionsPanelView::new(vec![]);
    p.handle_action(&SshConnectionsPanelAction::AddConnection);
    let first = stored(&p.handle_action(&SshConnectionsPanelAction::SaveConnection));
    p.handle_action(&SshConnectionsPanelAction::AddConnection);
    let second = stored(&p.handle_action(&SshConnectionsPanelAction::SaveConnection));
    assert!(is_uuid_v4(&first.id) && is_uuid_v4(&second.id));
    assert_ne!(first.id, second.id);
}

#[test]
fn unreadable_port_saves_as_22() {
    let mut p = SshConnectionsPanelView::new(vec![]);
    p.handle_action(&SshConnectionsPanelAction::AddConnection);
    p.handle_action(&SshConnectionsPanelAction::UpdateHost("h".to_string()));
    p.handle_action(&SshConnectionsPanelAction::UpdatePort("abc".to_string()));
    let c = stored(&p.handle_action_with_id(&SshConnectionsPanelAction::SaveConnection, "id-1".to_string()));
    assert_eq!(c.port, 22);
    assert_eq!(c.id, "id-1");
    p.handle_action(&SshConnectionsPanelAction::AddConnection);
    p.handle_action(&SshConnectionsPanelAction::UpdatePort(" 2222".to_string()));
    let c = stored(&p.handle_action(&SshConnectionsPanelAction::SaveConnection));
    assert_eq!(c.port, 22);
    p.handle_action(&SshConnectionsPanelAction::AddConnection);
    p.handle_action(&SshConnectionsPanelAction::UpdatePort("70000".to_string()));
    let c = stored(&p.handle_action(&SshConnectionsPanelAction::SaveConnection));
    assert_eq!(c.port, 22);
}

#[test]
fn edit_fills_the_form_and_save_keeps_the_id() {
    let original = conn("abc", "Prod", "example.com", 2200, "root", Some("/id"));
    let mut p = SshConnectionsPanelView::new(vec![conn("x", "", "other", 22, "", None), original.clone()]);
    let e = p.handle_action(&SshConnectionsPanelAction::EditConnection("abc".to_string()));
    assert!(matches!(e[..], [PanelEffect::SyncEditorsFromForm, PanelEffect::Notify]));
    assert!(matches!(p.mode(), PanelMode::Edit(id) if id == "abc"));
    assert_eq!(p.form_label(), "Prod");
    assert_eq!(p.form_host(), "example.com");
    assert_eq!(p.form_port(), "2200");
    assert_eq!(p.form_user(), "root");
    assert_eq!(p.form_identity_file().as_deref(), Some("/id"));

    // Saving unchanged stores the very same preset.
    let e = p.handle_action(&SshConnectionsPanelAction::SaveConnection);
    assert_eq!(stored(&e), original);
    assert!(matches!(e[1], PanelEffect::Telemetry(TelemetryKind::SshConnectionEdited)));
    assert!(matches!(e[2], PanelEffect::ReturnToList));
    assert!(matches!(p.mode(), PanelMode::Edit(id) if id == "abc"));
    p.return_to_list();
    assert!(matches!(p.mode(), PanelMode::List));
    assert!(form_is_cleared(&p));
}

#[test]
fn edit_then_change_then_save() {
    let mut p = SshConnectionsPanelView::new(vec![conn("abc", "Prod", "example.com", 22, "", None)]);
    p.handle_action(&SshConnectionsPanelAction::EditConnection("abc".to_string()));
    p.handle_action(&SshConnectionsPanelAction::UpdateUser("admin".to_string()));
    p.handle_action(&SshConnectionsPanelAction::UpdateIdentityFile(None));
    let c = stored(&p.handle_action(&SshConnectionsPanelAction::SaveConnection));
    assert_eq!(c, conn("abc", "Prod", "example.com", 22, "admin", None));
}

#[test]
fn resaving_a_saved_preset_is_stable() {
    let mut p = SshConnectionsPanelView::new(vec![]);
    p.handle_action(&SshConnectionsPanelAction::AddConnection);
    p.handle_action(&SshConnectionsPanelAction::UpdateLabel(" L ".to_string()));
    p.handle_action(&SshConnectionsPanelAction::UpdateHost(" h ".to_string()));
    p.handle_action(&SshConnectionsPanelAction::UpdatePort("+0022".to_string()));
    let first = stored(&p.handle_action_with_id(&SshConnectionsPanelAction::SaveConnection, "k".to_string()));
    p.set_connections(vec![first.clone()]);
    p.handle_action(&SshConnectionsPanelAction::EditConnection("k".to_string()));
    let second = stored(&p.handle_action(&SshConnectionsPanelAction::SaveConnection));
    assert_eq!(first, second);
}

#[test]
fn edit_of_unknown_id_does_nothing() {
    let mut p = SshConnectionsPanelView::new(vec![conn("a", "", "h", 22, "", None)]);
    p.handle_action(&SshConnectionsPanelAction::UpdateLabel("typed".to_string()));
    let e = p.handle_action(&SshConnectionsPanelAction::EditConnection("nope".to_string()));
    assert!(e.is_empty());
    assert!(matches!(p.mode(), PanelMode::List));
    assert_eq!(p.form_label(), "typed");
}

#[test]
fn cancel_returns_to_the_list() {
    let mut p = SshConnectionsPanelView::new(vec![conn("a", "", "h", 22, "", None)]);
    p.handle_action(&SshConnectionsPanelAction::EditConnection("a".to_string()));
    let e = p.handle_action(&SshConnectionsPanelAction::CancelEdit);
    assert!(matches!(e[..], [PanelEffect::ClearEditors, PanelEffect::Notify]));
    assert!(matches!(p.mode(), PanelMode::List));
    assert!(form_is_cleared(&p));
}

#[test]
fn delete_asks_to_remove_the_id() {
    let mut p = SshConnectionsPanelView::new(vec![conn("a", "", "h", 22, "", None)]);
    let e = p.handle_action(&SshConnectionsPanelAction::DeleteConnection("a".to_string()));
    assert_eq!(e.len(), 2);
    assert!(matches!(&e[0], PanelEffect::RemoveConnection(id) if id == "a"));
    assert!(matches!(e[1], PanelEffect::Telemetry(TelemetryKind::SshConnectionDeleted)));
    assert_eq!(p.connections().len(), 1);
}

#[test]
fn launch_runs_the_first_match() {
    let mut p = SshConnectionsPanelView::new(vec![
        conn("a", "", "first.example", 2022, "me", None),
        conn("a", "", "second.example", 22, "", None),
    ]);
    let e = p.handle_action(&SshConnectionsPanelAction::LaunchConnection("a".to_string()));
    assert_eq!(e.len(), 2);
    assert!(matches!(&e[0], PanelEffect::LaunchCommand(c) if c == "ssh -p 2022 me@first.example"));
    assert!(matches!(e[1], PanelEffect::Telemetry(TelemetryKind::SshConnectionLaunched)));
    assert!(p.handle_action(&SshConnectionsPanelAction::LaunchConnection("b".to_string())).is_empty());
}

#[test]
fn file_picker_and_identity_file() {
    let mut p = SshConnectionsPanelView::new(vec![]);
    let e = p.handle_action(&SshConnectionsPanelAction::OpenIdentityFilePicker);
    assert!(matches!(e[..], [PanelEffect::OpenIdentityFilePicker]));
    p.handle_action(&SshConnectionsPanelAction::UpdateIdentityFile(Some("~/.ssh/id_rsa".to_string())));
    assert_eq!(p.identity_file_text(), "~/.ssh/id_rsa");
    p.handle_action(&SshConnectionsPanelAction::UpdateIdentityFile(None));
    assert_eq!(p.identity_file_text(), "None selected");
}

#[test]
fn settings_change_replaces_the_list() {
    let mut p = SshConnectionsPanelView::new(vec![]);
    p.set_connections(vec![conn("a", "", "h", 22, "", None), conn("b", "", "g", 22, "", None)]);
    assert_eq!(p.connections().len(), 2);
    assert_eq!(p.connections()[1].id, "b");
}

#[test]
fn picker_answer_takes_the_first_path() {
    let a = identity_file_action(Some(vec!["/a".to_string(), "/b".to_string()]));
    assert!(matches!(a, Some(SshConnectionsPanelAction::UpdateIdentityFile(Some(ref p))) if p == "/a"));
    assert!(identity_file_action(Some(vec![])).is_none());
    assert!(identity_file_action(None).is_none());
}

#[test]
fn cancel_after_edits_writes_nothing_and_resets() {
    for open in [
        SshConnectionsPanelAction::AddConnection,
        SshConnectionsPanelAction::EditConnection("a".to_string()),
    ] {
        let mut p = SshConnectionsPanelView::new(vec![conn("a", "L", "h", 2200, "u", Some("/k"))]);
        let mut all = p.handle_action(&open);
        for a in [
            SshConnectionsPanelAction::UpdateLabel("x".to_string()),
            SshConnectionsPanelAction::UpdateHost("y".to_string()),
            SshConnectionsPanelAction::UpdatePort("1".to_string()),
            SshConnectionsPanelAction::UpdateUser("z".to_string()),
            SshConnectionsPanelAction::UpdateIdentityFile(None),
        ] {
            all.extend(p.handle_action(&a));
        }
        all.extend(p.handle_action(&SshConnectionsPanelAction::CancelEdit));
        assert!(!all.iter().any(|e| matches!(
            e,
            PanelEffect::StoreConnection(_) | PanelEffect::RemoveConnection(_)
        )));
        assert!(matches!(p.mode(), PanelMode::List));
        assert!(form_is_cleared(&p));
        assert_eq!(p.connections().len(), 1);
    }
}
