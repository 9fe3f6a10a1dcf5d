use jump::{format_u32, ConnectMethods, JumpError, JumpStore, Password, SSHKey, ServerProfile};

fn fresh_store() -> JumpStore {
    let conn = rusqlite::Connection::open_in_memory().unwrap();
    let mut store = JumpStore::attach(conn);
    store.initialize().unwrap();
    store
}

#[test]
fn format_u32_prints_decimal() {
    assert_eq!(format_u32(0), "0");
    assert_eq!(format_u32(22), "22");
    assert_eq!(format_u32(2222), "2222");
    assert_eq!(format_u32(65535), "65535");
    assert_eq!(format_u32(u32::MAX), "4294967295");
}

#[test]
fn key_profile_builds_plain_ssh_command() {
    let profile = ServerProfile::new(
        "web1".to_owned(),
        "alice".to_owned(),
        "10.0.0.5".to_owned(),
        None,
        ConnectMethods::SSHKey(SSHKey { path: "/home/alice/.ssh/id_rsa".to_owned() }),
    );
    let plan = profile.build_command();
    assert_eq!(plan.program, "ssh");
    assert_eq!(
        plan.args,
        vec![
            "-i".to_owned(),
            "/home/alice/.ssh/id_rsa".to_owned(),
            "-p".to_owned(),
            "22".to_owned(),
            "alice@10.0.0.5".to_owned(),
        ]
    );
}

#[test]
fn password_profile_builds_sshpass_command() {
    let profile = ServerProfile::new(
        "db1".to_owned(),
        "bob".to_owned(),
        "10.0.0.9".to_owned(),
        Some(2222),
        ConnectMethods::Password(Password { password: "p@ss:w0rd".to_owned() }),
    );
    let plan = profile.build_command();
    assert_eq!(plan.program, "sshpass");
    assert_eq!(
        plan.args,
        vec![
            "-p".to_owned(),
            "p@ss:w0rd".to_owned(),
            "ssh".to_owned(),
            "-p".to_owned(),
            "2222".to_owned(),
            "bob@10.0.0.9".to_owned(),
        ]
    );
}

#[test]
fn connect_plan_resolves_the_stored_profile() {
    let mut store = fresh_store();
    let profile = ServerProfile::new(
        "db1".to_owned(),
        "bob".to_owned(),
        "10.0.0.9".to_owned(),
        Some(2222),
        ConnectMethods::Password(Password { password: "p@ss:w0rd".to_owned() }),
    );
    store.add(&profile).unwrap();
    let plan = store.connect_plan(&"db1".to_owned()).unwrap();
    assert_eq!(plan, profile.build_command());
}

#[test]
fn connect_plan_on_absent_name_is_server_not_found() {
    let store = fresh_store();
    assert_eq!(store.connect_plan(&"nope".to_owned()), Err(JumpError::ServerNotFound));
}
