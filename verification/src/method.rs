//! The connection-method codec.
//!
//! A `ConnectMethods` value is persisted as one text token: `"ssh:<path>"`
//! for key authentication, `"pass:<password>"` for password authentication.
//! Encoding is total. Decoding splits at the *first* colon only, because a
//! key path or password may itself contain colons; a token with no colon at
//! all is malformed.

use vstd::prelude::*;

use crate::errors::JumpError;

verus! {

/// Key-based authentication: the path handed to the SSH client's `-i` flag.
#[derive(Debug, Clone, PartialEq, Eq)]
pub struct SSHKey {
    pub path: String,
}

/// Password-based authentication. The password is persisted in clear text;
/// encrypting it at rest is an explicit non-goal.
#[derive(Debug, Clone, PartialEq, Eq)]
pub struct Password {
    pub password: String,
}

/// How a stored server is authenticated to: exactly one of a key file or a
/// password.
#[derive(Debug, Clone, PartialEq, Eq)]
pub enum ConnectMethods {
    SSHKey(SSHKey),
    Password(Password),
}

/// The mathematical model of a `ConnectMethods` value: the same tagged union
/// over sequences of characters.
pub enum MethodModel {
    Key { path: Seq<char> },
    Pass { password: Seq<char> },
}

impl View for ConnectMethods {
    type V = MethodModel;

    open spec fn view(&self) -> MethodModel {
        match self {
            ConnectMethods::SSHKey(k) => MethodModel::Key { path: k.path@ },
            ConnectMethods::Password(p) => MethodModel::Pass { password: p.password@ },
        }
    }
}

/// The tag that marks a key-authentication token.
pub open spec fn ssh_tag() -> Seq<char> {
    seq!['s', 's', 'h']
}

/// The prefix of an encoded key-authentication token.
pub open spec fn key_prefix() -> Seq<char> {
    seq!['s', 's', 'h', ':']
}

/// The prefix of an encoded password-authentication token.
pub open spec fn pass_prefix() -> Seq<char> {
    seq!['p', 'a', 's', 's', ':']
}

/// What `encode` returns: the tag, a colon, then the payload unchanged.
pub open spec fn encode_spec(m: MethodModel) -> Seq<char> {
    match m {
        MethodModel::Key { path } => key_prefix() + path,
        MethodModel::Pass { password } => pass_prefix() + password,
    }
}

/// Whether the token contains a colon at all.
pub open spec fn has_colon(t: Seq<char>) -> bool {
    exists|i: int| 0 <= i < t.len() && t[i] == ':'
}

/// The index of the first colon of `t` (meaningful only when `has_colon(t)`).
pub open spec fn first_colon(t: Seq<char>) -> int
    decreases t.len(),
{
    if t.len() == 0 {
        0
    } else if t[0] == ':' {
        0
    } else {
        1 + first_colon(t.drop_first())
    }
}

/// What `decode` returns: split at the first colon; the tag `ssh` means key
/// authentication, any other tag means password authentication, and a token
/// with no colon is malformed.
pub open spec fn decode_spec(t: Seq<char>) -> Option<MethodModel> {
    if !has_colon(t) {
        None
    } else {
        let i = first_colon(t);
        let tag = t.take(i);
        let payload = t.skip(i + 1);
        if tag == ssh_tag() {
            Some(MethodModel::Key { path: payload })
        } else {
            Some(MethodModel::Pass { password: payload })
        }
    }
}

/// `first_colon` is exactly the one colon index with no colon before it.
pub proof fn lemma_first_colon_is(t: Seq<char>, i: int)
    requires
        0 <= i < t.len(),
        t[i] == ':',
        forall|j: int| 0 <= j < i ==> t[j] != ':',
    ensures
        has_colon(t),
        first_colon(t) == i,
    decreases t.len(),
{
    assert(has_colon(t));
    if t[0] == ':' {
        assert(i == 0);
    } else {
        assert(i > 0);
        let rest = t.drop_first();
        assert(rest[i - 1] == t[i]);
        assert(forall|j: int| 0 <= j < i - 1 ==> rest[j] == t[j + 1] && t[j + 1] != ':');
        lemma_first_colon_is(rest, i - 1);
    }
}

impl ConnectMethods {
    /// The persisted text token for this method. Total: every method has one.
    pub fn encode(&self) -> (r: String)
        ensures
            r@ == encode_spec(self@),
    {
        match self {
            ConnectMethods::SSHKey(k) => {
                let mut s = String::from_str("ssh:");
                s.append(k.path.as_str());
                proof {
                    reveal_strlit("ssh:");
                    assert("ssh:"@ =~= key_prefix());
                }
                s
            },
            ConnectMethods::Password(p) => {
                let mut s = String::from_str("pass:");
                s.append(p.password.as_str());
                proof {
                    reveal_strlit("pass:");
                    assert("pass:"@ =~= pass_prefix());
                }
                s
            },
        }
    }
}

/// The index of the first colon of `s`, or `None` when `s` has no colon.
fn find_first_colon(s: &str) -> (r: Option<usize>)
    ensures
        match r {
            Some(i) => has_colon(s@) && i == first_colon(s@) && i < s@.len() && s@[i as int]
                == ':',
            None => !has_colon(s@),
        },
{
    let n = s.unicode_len();
    let mut i: usize = 0;
    while i < n
        invariant
            n == s@.len(),
            0 <= i <= n,
            forall|j: int| 0 <= j < i ==> s@[j] != ':',
        decreases n - i,
    {
        if s.get_char(i) == ':' {
            proof {
                lemma_first_colon_is(s@, i as int);
            }
            return Some(i);
        }
        i = i + 1;
    }
    None
}

/// Decodes a persisted token back into a structured method. Fails with
/// `MalformedCredentialToken` exactly when the token has no colon.
pub fn decode(token: &str) -> (r: Result<ConnectMethods, JumpError>)
    ensures
        match r {
            Ok(m) => decode_spec(token@) == Some(m@),
            Err(e) => e == JumpError::MalformedCredentialToken && decode_spec(token@) is None,
        },
{
    match find_first_colon(token) {
        None => Err(JumpError::MalformedCredentialToken),
        Some(i) => {
            let n = token.unicode_len();
            let tag = token.substring_char(0, i);
            let payload = token.substring_char(i + 1, n);
            proof {
                assert(tag@ =~= token@.take(i as int));
                assert(payload@ =~= token@.skip(i + 1));
            }
            let tag_owned = tag.to_owned();
            let ssh_owned = String::from_str("ssh");
            proof {
                reveal_strlit("ssh");
                assert("ssh"@ =~= ssh_tag());
            }
            if tag_owned == ssh_owned {
                Ok(ConnectMethods::SSHKey(SSHKey { path: payload.to_owned() }))
            } else {
                Ok(ConnectMethods::Password(Password { password: payload.to_owned() }))
            }
        },
    }
}

/// Parses a key-path argument. Every string is a representable path, so this
/// never fails.
pub fn parse_ssh_path(s: &str) -> (r: Result<String, JumpError>)
    ensures
        r matches Ok(p) && p@ == s@,
{
    Ok(s.to_owned())
}

/// The codec round-trip law: decoding an encoded method gives the method
/// back, for every method, including key paths and passwords that contain
/// colons, spaces or newlines.
pub proof fn lemma_codec_round_trip(m: MethodModel)
    ensures
        decode_spec(encode_spec(m)) == Some(m),
{
    match m {
        MethodModel::Key { path } => {
            let t = key_prefix() + path;
            lemma_first_colon_is(t, 3);
            assert(t.take(3) =~= ssh_tag());
            assert(t.skip(4) =~= path);
        },
        MethodModel::Pass { password } => {
            let t = pass_prefix() + password;
            lemma_first_colon_is(t, 4);
            assert(t.take(4).len() == 4);
            assert(t.take(4) != ssh_tag());
            assert(t.skip(5) =~= password);
        },
    }
}

} // verus!
