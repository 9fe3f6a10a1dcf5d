//! The connection dispatcher.
//!
//! A resolved profile is turned into the exact external command that opens
//! the interactive session: `sshpass -p <password> ssh -p <port>
//! <user>@<host>` for password authentication, `ssh -i <path> -p <port>
//! <user>@<host>` for key authentication. Spawning the process and wiring the
//! standard streams through is left to the surrounding program; this module
//! pins down, and proves, the program name and the argument list.

use vstd::prelude::*;

use crate::errors::JumpError;
use crate::method::{decode_spec, MethodModel};
use crate::profile::ServerProfile;
use crate::store::JumpStore;

verus! {

/// An external command, ready to be spawned: a program name and its
/// arguments, in order.
#[derive(Debug, Clone, PartialEq, Eq)]
pub struct CommandPlan {
    pub program: String,
    pub args: Vec<String>,
}

/// The mathematical model of a command: the program name and the argument
/// list as sequences of characters.
pub struct PlanModel {
    pub program: Seq<char>,
    pub args: Seq<Seq<char>>,
}

impl View for CommandPlan {
    type V = PlanModel;

    open spec fn view(&self) -> PlanModel {
        PlanModel { program: self.program@, args: self.args.deep_view() }
    }
}

/// The `user@host` destination argument.
pub open spec fn destination(username: Seq<char>, address: Seq<char>) -> Seq<char> {
    username + ("@")@ + address
}

/// The decimal digits of `n`, most significant first.
pub open spec fn dec_str(n: nat) -> Seq<char>
    decreases n,
{
    if n < 10 {
        seq![digit_char(n)]
    } else {
        dec_str(n / 10) + seq![digit_char(n % 10)]
    }
}

/// The character for one decimal digit.
pub open spec fn digit_char(d: nat) -> char {
    if d == 0 {
        '0'
    } else if d == 1 {
        '1'
    } else if d == 2 {
        '2'
    } else if d == 3 {
        '3'
    } else if d == 4 {
        '4'
    } else if d == 5 {
        '5'
    } else if d == 6 {
        '6'
    } else if d == 7 {
        '7'
    } else if d == 8 {
        '8'
    } else {
        '9'
    }
}

/// The command a profile's connection runs, as a function of the profile's
/// parts.
pub open spec fn plan_spec(
    username: Seq<char>,
    address: Seq<char>,
    port: u32,
    method: MethodModel,
) -> PlanModel {
    match method {
        MethodModel::Pass { password } => PlanModel {
            program: ("sshpass")@,
            args: seq![
                ("-p")@,
                password,
                ("ssh")@,
                ("-p")@,
                dec_str(port as nat),
                destination(username, address),
            ],
        },
        MethodModel::Key { path } => PlanModel {
            program: ("ssh")@,
            args: seq![
                ("-i")@,
                path,
                ("-p")@,
                dec_str(port as nat),
                destination(username, address),
            ],
        },
    }
}

/// The one-character string for one decimal digit.
fn digit_literal(d: u32) -> (r: &'static str)
    requires
        d < 10,
    ensures
        r@ == seq![digit_char(d as nat)],
{
    proof {
        reveal_strlit("0");
        reveal_strlit("1");
        reveal_strlit("2");
        reveal_strlit("3");
        reveal_strlit("4");
        reveal_strlit("5");
        reveal_strlit("6");
        reveal_strlit("7");
        reveal_strlit("8");
        reveal_strlit("9");
    }
    let r = if d == 0 {
        "0"
    } else if d == 1 {
        "1"
    } else if d == 2 {
        "2"
    } else if d == 3 {
        "3"
    } else if d == 4 {
        "4"
    } else if d == 5 {
        "5"
    } else if d == 6 {
        "6"
    } else if d == 7 {
        "7"
    } else if d == 8 {
        "8"
    } else {
        "9"
    };
    proof {
        assert(r@ =~= seq![digit_char(d as nat)]);
    }
    r
}

/// Formats a port (or any 32-bit number) in decimal.
pub fn format_u32(n: u32) -> (r: String)
    ensures
        r@ == dec_str(n as nat),
    decreases n,
{
    let d = n % 10;
    let digit = digit_literal(d);
    if n < 10 {
        String::from_str(digit)
    } else {
        let mut s = format_u32(n / 10);
        s.append(digit);
        s
    }
}

impl ServerProfile {
    /// The exact command that connecting to this profile runs.
    pub fn build_command(&self) -> (r: CommandPlan)
        ensures
            r@ == plan_spec(self.username@, self.server_address@, self.port, self.method@),
    {
        let mut dest = self.username.clone();
        dest.append("@");
        dest.append(self.server_address.as_str());
        let port_text = format_u32(self.port);
        match &self.method {
            crate::method::ConnectMethods::Password(p) => {
                let mut args: Vec<String> = Vec::new();
                args.push(String::from_str("-p"));
                args.push(p.password.clone());
                args.push(String::from_str("ssh"));
                args.push(String::from_str("-p"));
                args.push(port_text);
                args.push(dest);
                let plan = CommandPlan { program: String::from_str("sshpass"), args };
                proof {
                    assert(plan@.args =~= plan_spec(
                        self.username@,
                        self.server_address@,
                        self.port,
                        self.method@,
                    ).args);
                }
                plan
            },
            crate::method::ConnectMethods::SSHKey(k) => {
                let mut args: Vec<String> = Vec::new();
                args.push(String::from_str("-i"));
                args.push(k.path.clone());
                args.push(String::from_str("-p"));
                args.push(port_text);
                args.push(dest);
                let plan = CommandPlan { program: String::from_str("ssh"), args };
                proof {
                    assert(plan@.args =~= plan_spec(
                        self.username@,
                        self.server_address@,
                        self.port,
                        self.method@,
                    ).args);
                }
                plan
            },
        }
    }
}

impl JumpStore {
    /// Resolves the named profile and builds the command its connection runs.
    /// A lookup miss is reported as `ServerNotFound`, unchanged, exactly as
    /// `get` reports it.
    pub fn connect_plan(&self, server_name: &String) -> (r: Result<CommandPlan, JumpError>)
        ensures
            r matches Ok(plan) ==> self.rows().contains_key(server_name@) && (decode_spec(
                self.rows()[server_name@].3,
            ) matches Some(method) && plan@ == plan_spec(
                self.rows()[server_name@].0,
                self.rows()[server_name@].1,
                self.rows()[server_name@].2,
                method,
            )),
            r matches Err(JumpError::ServerNotFound) ==> self.ready() && !self.rows().contains_key(
                server_name@,
            ),
            !self.rows().contains_key(server_name@) ==> r matches Err(JumpError::ServerNotFound)
                || r matches Err(JumpError::StorageUnavailable),
            r matches Err(JumpError::MalformedCredentialToken) ==> self.rows().contains_key(
                server_name@,
            ) && decode_spec(self.rows()[server_name@].3) is None,
            r is Err ==> r matches Err(JumpError::ServerNotFound) || r matches Err(
                JumpError::MalformedCredentialToken,
            ) || r matches Err(JumpError::StorageUnavailable),
    {
        match self.get(server_name) {
            Ok(profile) => Ok(profile.build_command()),
            Err(e) => Err(e),
        }
    }
}

} // verus!
