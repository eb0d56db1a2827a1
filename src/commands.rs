//! The addresses of the service and the command lines of the two cleanup
//! utilities, as text.

use vstd::prelude::*;
use vstd::string::*;

verus! {

/// The local TCP port that the service binds, shared with the service itself.
pub const SERVICE_PORT: u16 = 8000;

/// Logical name under which the service executable is bundled.
pub const SIDECAR_NAME: &'static str = "doctorfill-server";

/// The ten decimal digits, by value.
pub const DIGITS: &'static str = "0123456789";

pub const LOCAL_ORIGIN: &'static str = "http://localhost:";

pub const HEALTH_PATH: &'static str = "/health";

pub const ROOT_PATH: &'static str = "/";

pub const PORT_KILL_HEAD: &'static str = "lsof -ti :";

pub const PORT_KILL_TAIL: &'static str = " | xargs kill -9 2>/dev/null";

/// Seconds between two checks of the parent's liveness by the sentinel.
pub const SENTINEL_POLL_SECS: u32 = 1;

/// Seconds the sentinel waits, once the parent is gone, before it reclaims
/// the port: an orderly shutdown under way finishes first.
pub const SENTINEL_GRACE_SECS: u32 = 2;

pub const SENTINEL_HEAD: &'static str = "while kill -0 ";

pub const SENTINEL_POLL: &'static str = " 2>/dev/null; do sleep ";

pub const SENTINEL_GRACE: &'static str = "; done; sleep ";

pub const SENTINEL_THEN: &'static str = "; ";

/// The decimal digits of `n`, most significant first, without leading zeros.
pub open spec fn decimal_of(n: nat) -> Seq<char>
    decreases n,
{
    if n < 10 {
        seq![DIGITS@[n as int]]
    } else {
        decimal_of(n / 10).push(DIGITS@[(n % 10) as int])
    }
}

/// Address of the service's health endpoint on `port`.
pub open spec fn health_url_of(port: nat) -> Seq<char> {
    LOCAL_ORIGIN@ + decimal_of(port) + HEALTH_PATH@
}

/// Address of the service's root page on `port`.
pub open spec fn service_url_of(port: nat) -> Seq<char> {
    LOCAL_ORIGIN@ + decimal_of(port) + ROOT_PATH@
}

/// Shell line that kills, by force, every process listening on `port`; it
/// does nothing where none listens.
pub open spec fn port_kill_script_of(port: nat) -> Seq<char> {
    PORT_KILL_HEAD@ + decimal_of(port) + PORT_KILL_TAIL@
}

/// Shell line of the liveness sentinel for the parent `parent` and the
/// service port `port`: while the parent lives, check again every
/// [`SENTINEL_POLL_SECS`]; once it is gone, wait [`SENTINEL_GRACE_SECS`], then
/// reclaim the port.
pub open spec fn sentinel_script_of(parent: nat, port: nat) -> Seq<char> {
    SENTINEL_HEAD@ + decimal_of(parent) + SENTINEL_POLL@ + decimal_of(SENTINEL_POLL_SECS as nat)
        + SENTINEL_GRACE@ + decimal_of(SENTINEL_GRACE_SECS as nat) + SENTINEL_THEN@
        + port_kill_script_of(port)
}

/// Decimal text of `n`.
pub fn decimal(n: u32) -> (r: String)
    ensures
        r@ == decimal_of(n as nat),
    decreases n,
{
    proof {
        reveal_strlit("0123456789");
    }
    if n < 10 {
        let d = n as usize;
        let s = DIGITS.substring_ascii(d, d + 1);
        assert(s@ =~= seq![DIGITS@[n as int]]);
        String::from_str(s)
    } else {
        let mut r = decimal(n / 10);
        let d = (n % 10) as usize;
        let s = DIGITS.substring_ascii(d, d + 1);
        r.append(s);
        assert(s@ =~= seq![DIGITS@[(n % 10) as int]]);
        assert(r@ =~= decimal_of(n as nat));
        r
    }
}

/// Address of the health endpoint of a service on `port`.
pub fn health_url(port: u16) -> (r: String)
    ensures
        r@ == health_url_of(port as nat),
{
    let mut r = String::from_str(LOCAL_ORIGIN);
    let digits = decimal(port as u32);
    r.append(digits.as_str());
    r.append(HEALTH_PATH);
    r
}

/// Address of the root page of a service on `port`, where the window goes
/// once the service is ready.
pub fn service_url(port: u16) -> (r: String)
    ensures
        r@ == service_url_of(port as nat),
{
    let mut r = String::from_str(LOCAL_ORIGIN);
    let digits = decimal(port as u32);
    r.append(digits.as_str());
    r.append(ROOT_PATH);
    r
}

/// Arguments of the Windows `taskkill` utility that end, by force, the
/// process `pid` and all its descendants: by identifier, never by name.
pub fn tree_kill_args(pid: u32) -> (r: Vec<String>)
    ensures
        r@.len() == 4,
        r@[0]@ == "/F"@,
        r@[1]@ == "/PID"@,
        r@[2]@ == decimal_of(pid as nat),
        r@[3]@ == "/T"@,
{
    let mut r: Vec<String> = Vec::new();
    r.push(String::from_str("/F"));
    r.push(String::from_str("/PID"));
    r.push(decimal(pid));
    r.push(String::from_str("/T"));
    r
}

/// Shell line (for `sh -c`) that reclaims `port` from whatever process holds it.
pub fn port_kill_script(port: u16) -> (r: String)
    ensures
        r@ == port_kill_script_of(port as nat),
{
    let mut r = String::from_str(PORT_KILL_HEAD);
    let digits = decimal(port as u32);
    r.append(digits.as_str());
    r.append(PORT_KILL_TAIL);
    r
}

/// Shell line (for `sh -c`, in a detached process) of the liveness sentinel
/// that reclaims `port` once the process `parent_pid` has gone, however it
/// ended.
pub fn sentinel_script(parent_pid: u32, port: u16) -> (r: String)
    ensures
        r@ == sentinel_script_of(parent_pid as nat, port as nat),
{
    let mut r = String::from_str(SENTINEL_HEAD);
    let parent = decimal(parent_pid);
    r.append(parent.as_str());
    r.append(SENTINEL_POLL);
    let poll = decimal(SENTINEL_POLL_SECS);
    r.append(poll.as_str());
    r.append(SENTINEL_GRACE);
    let grace = decimal(SENTINEL_GRACE_SECS);
    r.append(grace.as_str());
    r.append(SENTINEL_THEN);
    let reclaim = port_kill_script(port);
    r.append(reclaim.as_str());
    r
}

} // verus!
