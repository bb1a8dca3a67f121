//! Request and response shapes of the HTTP surface, and the request
//! validation the handlers perform before any queue or runtime work.

use vstd::prelude::*;

use crate::codec::dec_u16;
use crate::text::push_char;

verus! {

/// Login request: username and password.
pub struct TokenRequest {
    pub username: String,
    pub password: String,
}

/// Login response: the token pair.
pub struct TokenResponse {
    pub access_token: String,
    pub refresh_token: String,
}

/// Refresh request.
pub struct RefreshRequest {
    pub refresh_token: String,
}

/// Refresh response: a fresh access token.
pub struct RefreshResponse {
    pub access_token: String,
}

/// Verify request: the token to check, if one was sent.
pub struct VerifyRequest {
    pub token: Option<String>,
}

/// The list of desktop containers.
pub struct ContainersResponse {
    pub containers: Vec<crate::containers::ContainerInfo>,
}

/// Request to create and run a desktop container.
pub struct RunContainerBody {
    pub container_name: String,
    pub ssh: String,
    pub user: String,
    pub password: String,
    pub vnc_password: String,
    pub root_password: String,
    pub privileged: bool,
    pub nvdocker: bool,
}

/// Response to a creation request: the accepted name and the task handle.
pub struct RunContainerResponse {
    pub container_name: String,
    pub task_id: String,
}

/// Request to start, stop, remove or restart a container.
pub struct ContainersControlBody {
    pub cmd: String,
    pub id: String,
}

/// Response to a control request: the task handle, if the command was
/// accepted.
pub struct ContainersControlResponse {
    pub task_id: Option<String>,
}

/// The free ports found.
pub struct FreePortsResponse {
    pub free_ports: Vec<u16>,
}

/// Whether one port is in use.
pub struct PortCheckResponse {
    pub port: u16,
    pub is_used: bool,
}

/// Whether the GPU runtime is available.
pub struct NvidiaDockerResponse {
    pub nvidia_docker_available: bool,
}

/// Whether the host runs Linux.
pub struct LinuxCheckResponse {
    pub is_linux: bool,
}

/// Query of the free-ports endpoint; the count falls back to thirty.
pub struct FreePortsQuery {
    pub count: Option<u32>,
}

/// The default number of free ports to look for.
pub fn default_count() -> (r: Option<u32>)
    ensures
        r == Some(30u32),
{
    Some(30)
}

/// Query of the port-check endpoint.
pub struct PortCheckQuery {
    pub port: Option<u16>,
}

/// Query of the console socket: the target container.
pub struct ConsoleQuery {
    pub container: Option<String>,
}

// ---------------------------------------------------------------------------
// Validation of a creation request.
// ---------------------------------------------------------------------------

/// The requested name with every '/' replaced by '-'.
pub open spec fn sanitized(s: Seq<char>) -> Seq<char> {
    Seq::new(
        s.len(),
        |i: int|
            if s[i] == '/' {
                '-'
            } else {
                s[i]
            },
    )
}

/// Whether `c` is an ASCII letter.
pub open spec fn is_ascii_letter(c: char) -> bool {
    (97 <= c as u32 && c as u32 <= 122) || (65 <= c as u32 && c as u32 <= 90)
}

/// A decimal port number: digits only, fitting a `u16`, nothing after.
pub open spec fn parse_port(s: Seq<char>) -> Option<u16> {
    match dec_u16(s) {
        Some(pr) => if pr.1.len() == 0 {
            Some(pr.0)
        } else {
            None
        },
        None => None,
    }
}

/// How a creation request fares before any queue or runtime work.
pub enum RunValidation {
    /// The request is well-formed: the sanitized name and the SSH port.
    Accepted { name: String, ssh_port: u16 },
    /// The sanitized name has fewer than two characters.
    NameTooShort,
    /// The sanitized name does not start with an ASCII letter.
    NameBadStart,
    /// The SSH port is not a decimal `u16`.
    PortInvalid,
}

/// Validates a creation request: sanitizes the name, requires at least
/// two characters starting with an ASCII letter, and reads the SSH port.
/// The checks are made in that order, and exactly one verdict comes back.
pub fn validate_run_request(container_name: &str, ssh: &str) -> (r: RunValidation)
    ensures
        ({
            let s = sanitized(container_name@);
            &&& s.len() < 2 ==> (r is NameTooShort)
            &&& (s.len() >= 2 && !is_ascii_letter(s[0])) ==> (r is NameBadStart)
            &&& (s.len() >= 2 && is_ascii_letter(s[0])) ==> (match parse_port(ssh@) {
                Some(p) => r matches RunValidation::Accepted {
                    name,
                    ssh_port,
                } && name@ == s && ssh_port == p,
                None => r is PortInvalid,
            })
        }),
{
    let n = container_name.unicode_len();
    let mut name = String::new();
    let mut i: usize = 0;
    while i < n
        invariant
            n == container_name@.len(),
            i <= n,
            name@ == sanitized(container_name@).subrange(0, i as int),
        decreases n - i,
    {
        let c = container_name.get_char(i);
        if c == '/' {
            push_char(&mut name, '-');
        } else {
            push_char(&mut name, c);
        }
        i = i + 1;
        proof {
            assert(name@ =~= sanitized(container_name@).subrange(0, i as int));
        }
    }
    proof {
        assert(name@ =~= sanitized(container_name@));
    }
    if name.as_str().unicode_len() < 2 {
        return RunValidation::NameTooShort;
    }
    let c0 = name.as_str().get_char(0);
    let code = c0 as u32;
    if !((97 <= code && code <= 122) || (65 <= code && code <= 90)) {
        return RunValidation::NameBadStart;
    }
    match crate::codec::parse_u16_str(ssh) {
        Some(p) => RunValidation::Accepted { name, ssh_port: p },
        None => RunValidation::PortInvalid,
    }
}

} // verus!
