//! Mapping results to HTTP responses: every routed request ends in
//! exactly one status code and plain-text body, built here.

use vstd::prelude::*;
use crate::router::{StatusCode, Intent, route_model};
use crate::strutil::{dec_str, u64_to_string};

verus! {

/// One HTTP response: a status code and a plain-text body.
pub struct HttpOutcome {
    pub status_code: u16,
    pub body: String,
}

/// The mathematical model of an HTTP response.
pub struct HttpModel {
    pub status: u16,
    pub body: Seq<char>,
}

impl View for HttpOutcome {
    type V = HttpModel;

    open spec fn view(&self) -> HttpModel {
        HttpModel { status: self.status_code, body: self.body@ }
    }
}

/// A message in the server's newline-framed plain-text shape.
pub open spec fn framed(msg: Seq<char>) -> Seq<char> {
    "\nRouille server: "@ + msg + "\n"@
}

/// The response to a login result: the token on success, the failure
/// reason as a bad request otherwise.
pub open spec fn login_response_model(r: Result<Seq<char>, Seq<char>>) -> HttpModel {
    match r {
        Ok(token) => HttpModel {
            status: 200,
            body: "\nRouille server: Logged in successfully (session id: "@ + token + ")\n"@,
        },
        Err(msg) => HttpModel { status: 400, body: framed(msg) },
    }
}

/// The response to an uptime result: the seconds in decimal on
/// success, the failure reason as a bad request otherwise.
pub open spec fn uptime_response_model(r: Result<u64, Seq<char>>) -> HttpModel {
    match r {
        Ok(n) => HttpModel {
            status: 200,
            body: "\nRouille server: uptime = "@ + dec_str(n as nat) + "\n"@,
        },
        Err(msg) => HttpModel { status: 400, body: framed(msg) },
    }
}

/// The response to a rejected request: its status class and message.
pub open spec fn error_response_model(status: StatusCode, msg: Seq<char>) -> HttpModel {
    HttpModel { status: status.spec_value(), body: framed(msg) }
}

/// The response to a rejected request.
pub fn respond_error(status: StatusCode, msg: &str) -> (r: HttpOutcome)
    ensures
        r@ == error_response_model(status, msg@),
{
    let mut body = String::from_str("\nRouille server: ");
    body.append(msg);
    body.append("\n");
    proof {
        assert(body@ =~= framed(msg@));
    }
    HttpOutcome { status_code: status.value(), body }
}

/// The response to a login result.
pub fn respond_login(result: Result<String, &'static str>) -> (r: HttpOutcome)
    ensures
        result matches Ok(t) ==> r@ == login_response_model(Ok(t@)),
        result matches Err(m) ==> r@ == login_response_model(Err(m@)),
{
    match result {
        Ok(token) => {
            let mut body = String::from_str(
                "\nRouille server: Logged in successfully (session id: ",
            );
            body.append(token.as_str());
            body.append(")\n");
            proof {
                assert(body@ =~= login_response_model(Ok(token@)).body);
            }
            HttpOutcome { status_code: StatusCode::OK.value(), body }
        },
        Err(msg) => respond_error(StatusCode::BAD_REQUEST, msg),
    }
}

/// The response to an uptime result.
pub fn respond_uptime(result: Result<u64, &'static str>) -> (r: HttpOutcome)
    ensures
        result matches Ok(n) ==> r@ == uptime_response_model(Ok(n)),
        result matches Err(m) ==> r@ == uptime_response_model(Err(m@)),
{
    match result {
        Ok(n) => {
            let mut body = String::from_str("\nRouille server: uptime = ");
            let digits = u64_to_string(n);
            body.append(digits.as_str());
            body.append("\n");
            proof {
                assert(body@ =~= uptime_response_model(Ok(n)).body);
            }
            HttpOutcome { status_code: StatusCode::OK.value(), body }
        },
        Err(msg) => respond_error(StatusCode::BAD_REQUEST, msg),
    }
}

/// Every request to an unknown path is rejected with status 400 and a
/// body that carries "Unknown route" between the fixed frame.
pub proof fn lemma_unknown_route_rejected(
    path: Seq<char>,
    username: Option<Seq<char>>,
    password: Option<Seq<char>>,
    session_id: Option<Seq<char>>,
)
    requires
        path != "/login"@,
        path != "/uptime"@,
    ensures
        route_model(path, username, password, session_id) == (Intent::Invalid {
            status: StatusCode::BAD_REQUEST,
            msg: "Unknown route"@,
        }),
        error_response_model(StatusCode::BAD_REQUEST, "Unknown route"@).status == 400,
        error_response_model(StatusCode::BAD_REQUEST, "Unknown route"@).body
            == "\nRouille server: "@ + "Unknown route"@ + "\n"@,
{
}

/// A login request missing either credential is rejected as
/// unauthorized, with status 401, whatever the other parameter holds.
pub proof fn lemma_login_missing_credential_unauthorized(
    username: Option<Seq<char>>,
    password: Option<Seq<char>>,
    session_id: Option<Seq<char>>,
)
    requires
        username is None || password is None,
    ensures
        route_model("/login"@, username, password, session_id) matches Intent::Invalid {
            status,
            msg,
        } && status == StatusCode::UNAUTHORIZED && error_response_model(status, msg).status
            == 401,
{
}

/// An uptime request missing the session id is rejected as
/// unauthorized, with status 401. The rejected intent carries no bus
/// request, so no bus call follows from it.
pub proof fn lemma_uptime_missing_session_unauthorized(
    username: Option<Seq<char>>,
    password: Option<Seq<char>>,
)
    ensures
        route_model("/uptime"@, username, password, None) == (Intent::Invalid {
            status: StatusCode::UNAUTHORIZED,
            msg: "Failed getting uptime. Authorization is required"@,
        }),
        error_response_model(
            StatusCode::UNAUTHORIZED,
            "Failed getting uptime. Authorization is required"@,
        ).status == 401,
{
    reveal_strlit("/uptime");
    reveal_strlit("/login");
    assert("/uptime"@.len() != "/login"@.len());
}

} // verus!
