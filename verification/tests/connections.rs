use ssh_connections::settings::{
    connections_with_saved, connections_without, find_connection, SshConnection,
};

fn conn(id: &str, label: &str, host: &str, port: u16, user: &str, identity: Option<&str>) -> SshConnection {
    SshConnection {
        id: id.to_string(),
        label: label.to_string(),
        host: host.to_string(),
        port,
        user: user.to_string(),
        identity_file: identity.map(|s| s.to_string()),
    }
}

#[test]
fn default_connection_is_empty_on_port_22() {
    let c = SshConnection::default();
    assert_eq!(c.id, "");
    assert_eq!(c.label, "");
    assert_eq!(c.host, "");
    assert_eq!(c.port, 22);
    assert_eq!(c.user, "");
    assert_eq!(c.identity_file, None);
}

#[test]
fn default_connection_command() {
    assert_eq!(SshConnection::default().to_command_string(), "ssh ");
}

#[test]
fn command_with_host_only() {
    let c = conn("1", "", "example.com", 22, "", None);
    assert_eq!(c.to_command_string(), "ssh example.com");
}

#[test]
fn command_with_user_on_default_port() {
    let c = conn("1", "work", "example.com", 22, "alice", None);
    assert_eq!(c.to_command_string(), "ssh alice@example.com");
}

#[test]
fn command_with_port_identity_and_user() {
    let c = conn("1", "work", "example.com", 2222, "bob", Some("/home/bob/.ssh/id_ed25519"));
    assert_eq!(
        c.to_command_string(),
        "ssh -p 2222 -i '/home/bob/.ssh/id_ed25519' bob@example.com"
    );
}

#[test]
fn command_with_identity_and_no_user() {
    let c = conn("1", "", "10.0.0.1", 22, "", Some("key.pem"));
    assert_eq!(c.to_command_string(), "ssh -i 'key.pem' 10.0.0.1");
}

#[test]
fn command_with_smallest_and_largest_ports() {
    assert_eq!(conn("1", "", "h", 0, "", None).to_command_string(), "ssh -p 0 h");
    assert_eq!(conn("1", "", "h", 65535, "u", None).to_command_string(), "ssh -p 65535 u@h");
    assert_eq!(conn("1", "", "h", 23, "", None).to_command_string(), "ssh -p 23 h");
}

#[test]
fn list_title_falls_back_to_host() {
    assert_eq!(conn("1", "", "example.com", 22, "", None).list_title(), "example.com");
    assert_eq!(conn("1", "Prod", "example.com", 22, "", None).list_title(), "Prod");
}

#[test]
fn list_subtitle_uses_root_for_empty_user() {
    assert_eq!(conn("1", "", "example.com", 22, "", None).list_subtitle(), "root@example.com:22");
    assert_eq!(conn("1", "", "db", 5432, "pg", None).list_subtitle(), "pg@db:5432");
}

#[test]
fn equality_compares_every_field() {
    let a = conn("1", "l", "h", 22, "u", Some("k"));
    assert_eq!(a, a.clone());
    assert_ne!(a, conn("1", "l", "h", 22, "u", None));
    assert_ne!(a, conn("1", "l", "h", 23, "u", Some("k")));
    assert_ne!(a, conn("2", "l", "h", 22, "u", Some("k")));
    assert_eq!(a.duplicate(), a);
}

#[test]
fn without_removes_every_preset_with_the_id() {
    let xs = vec![
        conn("a", "1", "h1", 22, "", None),
        conn("b", "2", "h2", 22, "", None),
        conn("a", "3", "h3", 22, "", None),
        conn("c", "4", "h4", 22, "", None),
    ];
    let r = connections_without(&xs, &"a".to_string());
    assert_eq!(r, vec![xs[1].clone(), xs[3].clone()]);
    assert_eq!(connections_without(&xs, &"z".to_string()), xs);
}

#[test]
fn delete_twice_is_delete_once() {
    let xs = vec![conn("a", "", "h1", 22, "", None), conn("b", "", "h2", 22, "", None)];
    let once = connections_without(&xs, &"a".to_string());
    let twice = connections_without(&once, &"a".to_string());
    assert_eq!(once, twice);
    assert_eq!(find_connection(&once, &"a".to_string()), None);
    assert_eq!(find_connection(&once, &"b".to_string()), Some(0));
}

#[test]
fn saving_replaces_and_moves_last() {
    let xs = vec![
        conn("a", "old", "h1", 22, "", None),
        conn("b", "", "h2", 22, "", None),
    ];
    let new_a = conn("a", "new", "h9", 2200, "me", None);
    let r = connections_with_saved(&xs, new_a.clone());
    assert_eq!(r, vec![xs[1].clone(), new_a.clone()]);
    let i = find_connection(&r, &"a".to_string()).unwrap();
    assert_eq!(r[i], new_a);
}

#[test]
fn saving_a_new_id_appends() {
    let xs = vec![conn("a", "", "h1", 22, "", None)];
    let c = conn("b", "", "h2", 22, "", None);
    let r = connections_with_saved(&xs, c.clone());
    assert_eq!(r, vec![xs[0].clone(), c]);
}

#[test]
fn saving_keeps_ids_unique() {
    let xs = vec![
        conn("a", "", "h1", 22, "", None),
        conn("b", "", "h2", 22, "", None),
        conn("c", "", "h3", 22, "", None),
    ];
    let r = connections_with_saved(&xs, conn("b", "x", "h", 22, "", None));
    let mut ids: Vec<&str> = r.iter().map(|c| c.id.as_str()).collect();
    ids.sort();
    ids.dedup();
    assert_eq!(ids.len(), r.len());
    assert_eq!(r.iter().filter(|c| c.id == "b").count(), 1);
}

#[test]
fn find_gives_the_first_match() {
    let xs = vec![
        conn("x", "", "h0", 22, "", None),
        conn("a", "first", "h1", 22, "", None),
        conn("a", "second", "h2", 22, "", None),
    ];
    assert_eq!(find_connection(&xs, &"a".to_string()), Some(1));
    assert_eq!(find_connection(&xs, &"q".to_string()), None);
    assert_eq!(find_connection(&Vec::new(), &"a".to_string()), None);
}
