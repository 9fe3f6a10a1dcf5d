use jump::{ConnectMethods, JumpError, JumpStore, Password, SSHKey, ServerProfile, DEFAULT_PORT};

fn fresh_store() -> JumpStore {
    let conn = rusqlite::Connection::open_in_memory().unwrap();
    let mut store = JumpStore::attach(conn);
    store.initialize().unwrap();
    store
}

fn web1() -> ServerProfile {
    ServerProfile::new(
        "web1".to_owned(),
        "alice".to_owned(),
        "10.0.0.5".to_owned(),
        None,
        ConnectMethods::SSHKey(SSHKey { path: "/home/alice/.ssh/id_rsa".to_owned() }),
    )
}

fn db1() -> ServerProfile {
    ServerProfile::new(
        "db1".to_owned(),
        "bob".to_owned(),
        "10.0.0.9".to_owned(),
        Some(2222),
        ConnectMethods::Password(Password { password: "p@ss:w0rd".to_owned() }),
    )
}

#[test]
fn initialize_is_idempotent() {
    let mut store = fresh_store();
    store.add(&web1()).unwrap();
    store.initialize().unwrap();
    store.initialize().unwrap();
    let listed = store.list().unwrap();
    assert_eq!(listed.len(), 1);
    assert_eq!(listed[0], web1());
}

#[test]
fn add_then_list_yields_the_profile() {
    let mut store = fresh_store();
    store.add(&web1()).unwrap();
    let listed = store.list().unwrap();
    assert_eq!(listed.len(), 1);
    assert_eq!(listed[0].server_name, "web1");
    assert_eq!(listed[0].method.encode(), "ssh:/home/alice/.ssh/id_rsa");
}

#[test]
fn add_duplicate_name_fails_and_changes_nothing() {
    let mut store = fresh_store();
    store.add(&web1()).unwrap();
    let mut clash = db1();
    clash.server_name = "web1".to_owned();
    assert_eq!(store.add(&clash), Err(JumpError::DuplicateServerName));
    let listed = store.list().unwrap();
    assert_eq!(listed.len(), 1);
    assert_eq!(listed[0], web1());
}

#[test]
fn remove_absent_name_succeeds_silently() {
    let mut store = fresh_store();
    store.add(&web1()).unwrap();
    store.remove(&"ghost".to_owned()).unwrap();
    assert_eq!(store.list().unwrap(), vec![web1()]);
}

#[test]
fn remove_twice_succeeds_both_times() {
    let mut store = fresh_store();
    store.add(&web1()).unwrap();
    store.remove(&"web1".to_owned()).unwrap();
    store.remove(&"web1".to_owned()).unwrap();
    assert_eq!(store.list().unwrap(), vec![]);
}

#[test]
fn get_absent_name_is_server_not_found() {
    let store = fresh_store();
    assert_eq!(store.get(&"nope".to_owned()), Err(JumpError::ServerNotFound));
}

#[test]
fn get_returns_the_stored_profile() {
    let mut store = fresh_store();
    store.add(&db1()).unwrap();
    let got = store.get(&"db1".to_owned()).unwrap();
    assert_eq!(got, db1());
    assert_eq!(got.method, ConnectMethods::Password(Password { password: "p@ss:w0rd".to_owned() }));
}

#[test]
fn add_without_port_stores_port_22() {
    let mut store = fresh_store();
    let profile = web1();
    assert_eq!(profile.port, DEFAULT_PORT);
    assert_eq!(profile.port, 22);
    store.add(&profile).unwrap();
    assert_eq!(store.get(&"web1".to_owned()).unwrap().port, 22);
}

#[test]
fn stored_row_keeps_the_encoded_token() {
    let row = db1().to_row();
    assert_eq!(row.method, "pass:p@ss:w0rd");
    let back = ServerProfile::from_row(&row).unwrap();
    assert_eq!(back, db1());
}

#[test]
fn two_profiles_are_both_listed() {
    let mut store = fresh_store();
    store.add(&web1()).unwrap();
    store.add(&db1()).unwrap();
    let mut names: Vec<String> = store.list().unwrap().into_iter().map(|p| p.server_name).collect();
    names.sort();
    assert_eq!(names, vec!["db1".to_owned(), "web1".to_owned()]);
}

#[test]
fn operations_before_initialize_report_storage_unavailable() {
    let conn = rusqlite::Connection::open_in_memory().unwrap();
    let mut store = JumpStore::attach(conn);
    assert_eq!(store.add(&web1()), Err(JumpError::StorageUnavailable));
    assert_eq!(store.list(), Err(JumpError::StorageUnavailable));
}

#[test]
fn error_descriptions_are_not_empty() {
    let errors = [
        JumpError::DuplicateServerName,
        JumpError::ServerNotFound,
        JumpError::MalformedCredentialToken,
        JumpError::InvalidKeyPath,
        JumpError::StorageUnavailable,
        JumpError::ChildProcessLaunchFailed,
    ];
    for e in errors {
        assert!(!e.describe().is_empty());
    }
}
