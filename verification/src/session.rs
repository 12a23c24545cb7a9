//! The session manager: the decision core of the gateway's two bus
//! operations. It builds the bus requests (login, session validation,
//! system info) and decides from each bus reply what the operation
//! returns. Issuing a request to the bus is outside work; the caller
//! runs each returned [`BusCall`] and hands the [`BusReply`] back.

use vstd::prelude::*;
use crate::jsonfmt::{escape_json, json_escaped};
use crate::busjson::{json_str_field, json_u64_field, str_field_of, u64_field_of};
use crate::strutil::{dec_str, str_eq, u64_to_string};

verus! {

/// The fixed session timeout, in seconds, carried by every login request.
pub const DEFAULT_TIMEOUT: u32 = 300;

/// One request to the bus: an object, a method, and an optional JSON
/// argument text.
pub struct BusCall {
    pub object: String,
    pub method: String,
    pub args: Option<String>,
}

/// The mathematical model of a bus request.
pub struct CallModel {
    pub object: Seq<char>,
    pub method: Seq<char>,
    pub args: Option<Seq<char>>,
}

impl View for BusCall {
    type V = CallModel;

    open spec fn view(&self) -> CallModel {
        CallModel { object: self.object@, method: self.method@, args: self.args.deep_view() }
    }
}

/// What came back from one bus invocation: whether it exited
/// successfully, and the text it printed.
pub struct BusReply {
    pub exit_ok: bool,
    pub stdout: String,
}

/// One object the bus enumerates: its path and numeric identifier.
pub struct BusObject {
    pub path: String,
    pub id: u32,
}

/// A JSON string literal holding the text `s`.
pub open spec fn quoted(s: Seq<char>) -> Seq<char> {
    seq!['"'] + json_escaped(s) + seq!['"']
}

/// The argument text of a login request: the two credentials as JSON
/// string literals, and the fixed session timeout in decimal.
pub open spec fn login_args_model(u: Seq<char>, p: Seq<char>) -> Seq<char> {
    "{\"username\":"@ + quoted(u) + ",\"password\":"@ + quoted(p) + ",\"timeout\":"@ + dec_str(
        DEFAULT_TIMEOUT as nat,
    ) + "}"@
}

/// The argument text of a session-validation request.
pub open spec fn session_get_args_model(sid: Seq<char>) -> Seq<char> {
    "{\"ubus_rpc_session\":"@ + quoted(sid) + "}"@
}

/// The login request sent for the given credentials.
pub open spec fn login_call_model(u: Seq<char>, p: Seq<char>) -> CallModel {
    CallModel { object: "session"@, method: "login"@, args: Some(login_args_model(u, p)) }
}

/// The session-validation request sent for the given token.
pub open spec fn session_get_call_model(sid: Seq<char>) -> CallModel {
    CallModel { object: "session"@, method: "get"@, args: Some(session_get_args_model(sid)) }
}

/// The system-info request; it carries no arguments.
pub open spec fn system_info_call_model() -> CallModel {
    CallModel { object: "system"@, method: "info"@, args: None }
}

/// What a login returns for a given bus reply: the session token the
/// reply carries, or the fixed failure reason.
pub open spec fn login_outcome_model(exit_ok: bool, stdout: Seq<char>) -> Result<
    Seq<char>,
    Seq<char>,
> {
    if exit_ok && str_field_of(stdout, "ubus_rpc_session"@) is Some {
        Ok(str_field_of(stdout, "ubus_rpc_session"@)->0)
    } else {
        Err("Failed executing session login command"@)
    }
}

/// What the authentication gate decides for a given validation reply:
/// the system-info request to issue next, or the fixed failure reason
/// and no request at all.
pub open spec fn uptime_gate_model(exit_ok: bool) -> Result<CallModel, Seq<char>> {
    if exit_ok {
        Ok(system_info_call_model())
    } else {
        Err("Authentication failed"@)
    }
}

/// What an uptime query returns for a given system-info reply: the
/// seconds the reply carries, or the fixed failure reason.
pub open spec fn uptime_outcome_model(exit_ok: bool, stdout: Seq<char>) -> Result<
    u64,
    Seq<char>,
> {
    if exit_ok && u64_field_of(stdout, "uptime"@) is Some {
        Ok(u64_field_of(stdout, "uptime"@)->0)
    } else {
        Err("Failed getting uptime"@)
    }
}

/// The identifier of the last enumerated object whose path is `name`,
/// if any object's path is.
pub open spec fn last_match_model(objs: Seq<BusObject>, name: Seq<char>) -> Option<u32>
    decreases objs.len(),
{
    if objs.len() == 0 {
        None
    } else if objs.last().path@ == name {
        Some(objs.last().id)
    } else {
        last_match_model(objs.drop_last(), name)
    }
}

fn append_quoted(r: &mut String, s: &str)
    ensures
        final(r)@ == old(r)@ + quoted(s@),
{
    r.push('"');
    let e = escape_json(s);
    r.append(e.as_str());
    r.push('"');
    proof {
        assert(r@ =~= old(r)@ + quoted(s@));
    }
}

/// The session manager. It owns no connection itself: it decides what
/// to ask the bus and what each reply means, and the surrounding
/// process performs the invocations, one at a time.
pub struct UbusManager {}

impl UbusManager {
    /// A fresh session manager.
    pub fn new() -> UbusManager {
        UbusManager {  }
    }

    /// The bus request that logs in with the given credentials. Its
    /// argument text is exactly `login_args_model`, with the session
    /// timeout fixed at 300 seconds.
    pub fn session_login_call(&self, username: &str, password: &str) -> (c: BusCall)
        ensures
            c@ == login_call_model(username@, password@),
    {
        let mut args = String::from_str("{\"username\":");
        append_quoted(&mut args, username);
        args.append(",\"password\":");
        append_quoted(&mut args, password);
        args.append(",\"timeout\":");
        let timeout = u64_to_string(DEFAULT_TIMEOUT as u64);
        args.append(timeout.as_str());
        args.append("}");
        proof {
            assert(args@ =~= login_args_model(username@, password@));
        }
        BusCall {
            object: String::from_str("session"),
            method: String::from_str("login"),
            args: Some(args),
        }
    }

    /// What the login returns for the bus reply: the session token the
    /// reply carries when the call succeeded, and the fixed failure
    /// reason otherwise.
    pub fn session_login(&self, reply: &BusReply) -> (r: Result<String, &'static str>)
        ensures
            r matches Ok(t) ==> (login_outcome_model(reply.exit_ok, reply.stdout@) matches Ok(m)
                && m == t@),
            r matches Err(e) ==> (login_outcome_model(reply.exit_ok, reply.stdout@) matches Err(m)
                && m == e@),
    {
        if reply.exit_ok {
            match json_str_field(reply.stdout.as_str(), "ubus_rpc_session") {
                Some(token) => {
                    return Ok(token);
                },
                None => {},
            }
        }
        Err("Failed executing session login command")
    }

    /// The bus request that validates the given session token.
    pub fn authenticate_call(&self, session_id: &str) -> (c: BusCall)
        ensures
            c@ == session_get_call_model(session_id@),
    {
        let mut args = String::from_str("{\"ubus_rpc_session\":");
        append_quoted(&mut args, session_id);
        args.append("}");
        proof {
            assert(args@ =~= session_get_args_model(session_id@));
        }
        BusCall {
            object: String::from_str("session"),
            method: String::from_str("get"),
            args: Some(args),
        }
    }

    /// Whether the session-validation reply authenticates the token:
    /// success exactly when the bus call exited successfully.
    pub fn authenticate(&self, reply: &BusReply) -> (r: Result<(), ()>)
        ensures
            r is Ok <==> reply.exit_ok,
    {
        if reply.exit_ok {
            Ok(())
        } else {
            Err(())
        }
    }

    /// The authentication gate of an uptime query: the system-info
    /// request to issue when the validation reply authenticates the
    /// token, and the fixed failure — with no request — otherwise.
    pub fn uptime_call(&self, auth_reply: &BusReply) -> (r: Result<BusCall, &'static str>)
        ensures
            r matches Ok(c) ==> (uptime_gate_model(auth_reply.exit_ok) matches Ok(m) && m == c@),
            r matches Err(e) ==> (uptime_gate_model(auth_reply.exit_ok) matches Err(m) && m
                == e@),
    {
        match self.authenticate(auth_reply) {
            Err(_) => Err("Authentication failed"),
            Ok(_) => Ok(
                BusCall {
                    object: String::from_str("system"),
                    method: String::from_str("info"),
                    args: None,
                },
            ),
        }
    }

    /// What the uptime query returns for the system-info reply: the
    /// uptime seconds the reply carries when the call succeeded, and
    /// the fixed failure reason otherwise.
    pub fn get_uptime(&self, reply: &BusReply) -> (r: Result<u64, &'static str>)
        ensures
            r matches Ok(n) ==> (uptime_outcome_model(reply.exit_ok, reply.stdout@) matches Ok(m)
                && m == n),
            r matches Err(e) ==> (uptime_outcome_model(reply.exit_ok, reply.stdout@) matches Err(
                m,
            ) && m == e@),
    {
        if reply.exit_ok {
            match json_u64_field(reply.stdout.as_str(), "uptime") {
                Some(uptime) => {
                    return Ok(uptime);
                },
                None => {},
            }
        }
        Err("Failed getting uptime")
    }

    /// The identifier of the last object in the enumeration whose path
    /// equals `name`, if any does.
    pub fn get_ubus_obj_id(&self, name: &str, objects: &Vec<BusObject>) -> (r: Option<u32>)
        ensures
            r == last_match_model(objects@, name@),
    {
        let mut result: Option<u32> = None;
        let mut k: usize = 0;
        while k < objects.len()
            invariant
                k <= objects@.len(),
                result == last_match_model(objects@.take(k as int), name@),
            decreases objects@.len() - k,
        {
            if str_eq(objects[k].path.as_str(), name) {
                result = Some(objects[k].id);
            }
            proof {
                assert(objects@.take(k + 1).drop_last() =~= objects@.take(k as int));
                assert(objects@.take(k + 1).last() == objects@[k as int]);
            }
            k += 1;
        }
        proof {
            assert(objects@.take(objects@.len() as int) =~= objects@);
        }
        result
    }
}

/// Every login request body fixes the session timeout: whatever the
/// credentials, the argument text ends in the same `timeout` field set
/// to 300.
pub proof fn lemma_login_args_fixed_timeout(u: Seq<char>, p: Seq<char>)
    ensures
        login_args_model(u, p).len() >= 15,
        login_args_model(u, p).subrange(
            login_args_model(u, p).len() - 15,
            login_args_model(u, p).len() as int,
        ) == ",\"timeout\":300}"@,
{
    reveal_strlit(",\"timeout\":300}");
    reveal_strlit(",\"timeout\":");
    reveal_strlit("}");
    assert(dec_str(3) =~= seq!['3']);
    assert(dec_str(30) =~= seq!['3', '0']);
    assert(dec_str(DEFAULT_TIMEOUT as nat) =~= seq!['3', '0', '0']);
    assert(login_args_model(u, p).subrange(
        login_args_model(u, p).len() - 15,
        login_args_model(u, p).len() as int,
    ) =~= ",\"timeout\":300}"@);
}

/// A failed session validation short-circuits the uptime query: the
/// outcome is the fixed authentication failure, and no system-info
/// request is produced.
pub proof fn lemma_auth_failure_short_circuits(exit_ok: bool)
    requires
        !exit_ok,
    ensures
        uptime_gate_model(exit_ok) == Err::<CallModel, Seq<char>>("Authentication failed"@),
{
}

/// An uptime query repeated against a still-valid token keeps its
/// status class: any two successful system-info replies that carry an
/// uptime field both yield a success, though the two values may differ.
pub proof fn lemma_uptime_repeat_same_class(r1: BusReply, r2: BusReply)
    requires
        r1.exit_ok,
        r2.exit_ok,
        u64_field_of(r1.stdout@, "uptime"@) is Some,
        u64_field_of(r2.stdout@, "uptime"@) is Some,
    ensures
        uptime_outcome_model(r1.exit_ok, r1.stdout@) is Ok,
        uptime_outcome_model(r2.exit_ok, r2.stdout@) is Ok,
{
}

} // verus!
