use jump::{decode, parse_ssh_path, ConnectMethods, JumpError, Password, SSHKey};

fn key(path: &str) -> ConnectMethods {
    ConnectMethods::SSHKey(SSHKey { path: path.to_owned() })
}

fn password(secret: &str) -> ConnectMethods {
    ConnectMethods::Password(Password { password: secret.to_owned() })
}

#[test]
fn encode_key_method() {
    assert_eq!(key("/home/alice/.ssh/id_rsa").encode(), "ssh:/home/alice/.ssh/id_rsa");
}

#[test]
fn encode_password_method() {
    assert_eq!(password("p@ss:w0rd").encode(), "pass:p@ss:w0rd");
}

#[test]
fn decode_key_token() {
    let m = decode("ssh:/home/alice/.ssh/id_rsa").unwrap();
    assert_eq!(m, key("/home/alice/.ssh/id_rsa"));
}

#[test]
fn decode_password_token_splits_first_colon_only() {
    let m = decode("pass:p@ss:w0rd").unwrap();
    assert_eq!(m, password("p@ss:w0rd"));
}

#[test]
fn decode_unknown_tag_is_password() {
    let m = decode("token:abc").unwrap();
    assert_eq!(m, password("abc"));
}

#[test]
fn decode_without_colon_is_malformed() {
    assert_eq!(decode("nocolonhere"), Err(JumpError::MalformedCredentialToken));
    assert_eq!(decode(""), Err(JumpError::MalformedCredentialToken));
}

#[test]
fn round_trip_key_with_colons_and_spaces() {
    let m = key("/tmp/odd:dir/my key:file");
    assert_eq!(decode(&m.encode()).unwrap(), m);
}

#[test]
fn round_trip_password_with_colons_and_newlines() {
    let m = password("a:b:c\nd e:");
    assert_eq!(decode(&m.encode()).unwrap(), m);
}

#[test]
fn round_trip_empty_payloads() {
    let k = key("");
    assert_eq!(decode(&k.encode()).unwrap(), k);
    let p = password("");
    assert_eq!(decode(&p.encode()).unwrap(), p);
}

#[test]
fn parse_ssh_path_accepts_everything() {
    assert_eq!(parse_ssh_path("~/.ssh/id_rsa"), Ok("~/.ssh/id_rsa".to_owned()));
    assert_eq!(parse_ssh_path(""), Ok(String::new()));
}
