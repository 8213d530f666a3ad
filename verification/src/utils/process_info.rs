//! The control API's credentials, read from the arguments that its process was started with.

use crate::error::ProcessInfoError;
use crate::text::{
    chars_of, has_prefix, number_up_to, parse_decimal, spells, starts_with, string_of,
};
use base64::Engine;
use vstd::prelude::*;
use vstd::string::StringExecFns;

verus! {

/// The standard base64 encoding, with padding, of the UTF-8 bytes of a text.
pub uninterp spec fn base64_standard(text: Seq<char>) -> Seq<char>;

/// `base64::engine::general_purpose::STANDARD.encode`: the standard alphabet, with padding.
#[verifier::external_body]
fn encode_standard(text: &str) -> (r: String)
    ensures
        r@ == base64_standard(text@),
{
    base64::engine::general_purpose::STANDARD.encode(text)
}

/// A running process: its name and the arguments of its command line.
#[derive(Debug, Clone, PartialEq, Eq)]
pub struct ProcessEntry {
    pub name: String,
    pub command: Vec<String>,
}

/// What a client needs to talk to the control API.
#[derive(Debug, Clone, PartialEq, Eq)]
pub struct Credentials {
    /// The port on which the API listens.
    pub port: u16,
    /// The user `riot` and the API's token, as basic authentication wants them: joined by a
    /// colon and encoded in base64.
    pub auth: String,
}

/// The argument that names the port.
pub open spec fn port_flag() -> Seq<char> {
    "--app-port="@
}

/// The argument that names the token.
pub open spec fn token_flag() -> Seq<char> {
    "--remoting-auth-token="@
}

/// The place of the first process called `target`; `processes.len()` where there is none.
pub open spec fn first_named(processes: Seq<ProcessEntry>, target: Seq<char>) -> int
    decreases processes.len(),
{
    if processes.len() == 0 {
        0
    } else if processes[0].name@ == target {
        0
    } else {
        1 + first_named(processes.drop_first(), target)
    }
}

/// The place of the first argument that begins with `flag`; `command.len()` where there is
/// none.
pub open spec fn first_flagged(command: Seq<String>, flag: Seq<char>) -> int
    decreases command.len(),
{
    if command.len() == 0 {
        0
    } else if has_prefix(command[0]@, flag) {
        0
    } else {
        1 + first_flagged(command.drop_first(), flag)
    }
}

/// What the first argument that begins with `flag` says behind the flag; `None` where no
/// argument begins with it.
pub open spec fn flag_value(command: Seq<String>, flag: Seq<char>) -> Option<Seq<char>> {
    let at = first_flagged(command, flag);
    if at < command.len() {
        Some(command[at]@.subrange(flag.len() as int, command[at]@.len() as int))
    } else {
        None
    }
}

/// The port that the first argument with the port's flag names: a number in decimal notation
/// from 0 to 65535. `None` where no argument has the flag or that argument names no such
/// number.
pub open spec fn port_value(command: Seq<String>) -> Option<u16> {
    match flag_value(command, port_flag()) {
        Some(text) => match number_up_to(text, 65535) {
            Some(port) => Some(port as u16),
            None => None,
        },
        None => None,
    }
}

/// The credentials that a list of processes gives for the process called `target`.
///
/// The first process of that name counts. Its port is looked for first, then its token; the
/// first argument with the flag counts.
pub open spec fn auth_info(processes: Seq<ProcessEntry>, target: Seq<char>) -> Result<
    (u16, Seq<char>),
    ProcessInfoError,
> {
    let at = first_named(processes, target);
    if at >= processes.len() {
        Err(ProcessInfoError::ProcessNotAvailable)
    } else {
        let command = processes[at].command@;
        match port_value(command) {
            None => Err(ProcessInfoError::PortNotFound),
            Some(port) => match flag_value(command, token_flag()) {
                None => Err(ProcessInfoError::AuthTokenNotFound),
                Some(token) => Ok((port, base64_standard("riot:"@ + token))),
            },
        }
    }
}

/// What the first argument that begins with `flag` says behind the flag.
pub fn find_flag(command: &Vec<String>, flag: &str) -> (r: Option<String>)
    ensures
        r is Some <==> flag_value(command@, flag@) is Some,
        r matches Some(value) ==> flag_value(command@, flag@) == Some(value@),
{
    let flag_len = chars_of(flag).len();
    let mut i: usize = 0;
    assert(command@.subrange(0, command@.len() as int) == command@);
    while i < command.len()
        invariant
            i <= command.len(),
            flag_len == flag@.len(),
            first_flagged(command@, flag@) == i + first_flagged(
                command@.subrange(i as int, command@.len() as int),
                flag@,
            ),
        decreases command.len() - i,
    {
        let ghost tail = command@.subrange(i as int, command@.len() as int);
        proof {
            assert(tail[0] == command@[i as int]);
            assert(tail.drop_first() == command@.subrange(i + 1, command@.len() as int));
        }
        let chars = chars_of(command[i].as_str());
        if starts_with(&chars, flag) {
            return Some(string_of(&chars, flag_len, chars.len()));
        }
        i += 1;
    }
    None
}

/// The credentials of the process called `target`, out of a list of the running processes.
pub fn get_auth_info(processes: &Vec<ProcessEntry>, target: &str) -> (r: Result<
    Credentials,
    ProcessInfoError,
>)
    ensures
        match auth_info(processes@, target@) {
            Ok((port, auth)) => r matches Ok(found) && found.port == port && found.auth@ == auth,
            Err(error) => r == Err::<Credentials, ProcessInfoError>(error),
        },
{
    let wanted = chars_of(target);
    let mut i: usize = 0;
    assert(processes@.subrange(0, processes@.len() as int) == processes@);
    while i < processes.len()
        invariant
            i <= processes.len(),
            wanted@ == target@,
            first_named(processes@, target@) == i + first_named(
                processes@.subrange(i as int, processes@.len() as int),
                target@,
            ),
        decreases processes.len() - i,
    {
        let ghost tail = processes@.subrange(i as int, processes@.len() as int);
        proof {
            assert(tail[0] == processes@[i as int]);
            assert(tail.drop_first() == processes@.subrange(i + 1, processes@.len() as int));
        }
        if spells(&wanted, processes[i].name.as_str()) {
            let port = match find_flag(&processes[i].command, "--app-port=") {
                Some(text) => match parse_decimal(&chars_of(text.as_str()), 65535) {
                    Some(port) => port as u16,
                    None => {
                        return Err(ProcessInfoError::PortNotFound);
                    },
                },
                None => {
                    return Err(ProcessInfoError::PortNotFound);
                },
            };
            let token = match find_flag(&processes[i].command, "--remoting-auth-token=") {
                Some(token) => token,
                None => {
                    return Err(ProcessInfoError::AuthTokenNotFound);
                },
            };
            let user = String::from_str("riot:").concat(token.as_str());
            return Ok(Credentials { port, auth: encode_standard(user.as_str()) });
        }
        i += 1;
    }
    Err(ProcessInfoError::ProcessNotAvailable)
}

impl Credentials {
    /// The value of the `Authorization` header: `Basic`, a space, and the encoded user and
    /// token.
    pub fn basic_auth(&self) -> (r: String)
        ensures
            r@ == "Basic "@ + self.auth@,
    {
        String::from_str("Basic ").concat(self.auth.as_str())
    }
}

} // verus!
