//! Routing of an incoming HTTP request (path and parameters) into a
//! typed intent: a login attempt, an uptime query, or a rejection with
//! a status code and a message.

use vstd::prelude::*;
use crate::strutil::str_eq;

verus! {

/// The HTTP status classes the gateway answers with.
#[allow(non_camel_case_types)]
#[derive(Clone, Copy, PartialEq, Eq, Structural, Debug)]
pub enum StatusCode {
    OK,
    BAD_REQUEST,
    UNAUTHORIZED,
}

impl StatusCode {
    /// The numeric HTTP status code of this class.
    pub open spec fn spec_value(self) -> u16 {
        match self {
            StatusCode::OK => 200,
            StatusCode::BAD_REQUEST => 400,
            StatusCode::UNAUTHORIZED => 401,
        }
    }

    /// The numeric HTTP status code of this class.
    pub fn value(&self) -> (v: u16)
        ensures
            v == self.spec_value(),
    {
        match self {
            StatusCode::OK => 200,
            StatusCode::BAD_REQUEST => 400,
            StatusCode::UNAUTHORIZED => 401,
        }
    }
}

/// The request parameters the two routes read, each present or absent.
pub struct Params {
    pub username: Option<String>,
    pub password: Option<String>,
    pub session_id: Option<String>,
}

/// What a request asks the gateway to do, as routing decided it.
pub enum HandleResult {
    LoginRoute { username: String, password: String },
    UptimeRoute { session_id: String },
    Error { status_code: StatusCode, msg: String },
}

/// The mathematical model of a routed request.
pub enum Intent {
    Login { username: Seq<char>, password: Seq<char> },
    Uptime { session_id: Seq<char> },
    Invalid { status: StatusCode, msg: Seq<char> },
}

impl View for HandleResult {
    type V = Intent;

    open spec fn view(&self) -> Intent {
        match self {
            HandleResult::LoginRoute { username, password } => Intent::Login {
                username: username@,
                password: password@,
            },
            HandleResult::UptimeRoute { session_id } => Intent::Uptime { session_id: session_id@ },
            HandleResult::Error { status_code, msg } => Intent::Invalid {
                status: *status_code,
                msg: msg@,
            },
        }
    }
}

/// How the login route reads its parameters: both credentials are
/// required, and a missing one is rejected as unauthorized.
pub open spec fn login_route_model(
    username: Option<Seq<char>>,
    password: Option<Seq<char>>,
) -> Intent {
    match username {
        None => Intent::Invalid {
            status: StatusCode::UNAUTHORIZED,
            msg: "Login failed. Username is not provided"@,
        },
        Some(u) => match password {
            None => Intent::Invalid {
                status: StatusCode::UNAUTHORIZED,
                msg: "Login failed. Password is not provided"@,
            },
            Some(p) => Intent::Login { username: u, password: p },
        },
    }
}

/// How the uptime route reads its parameters: the session id is
/// required, and its absence is rejected as unauthorized.
pub open spec fn uptime_route_model(session_id: Option<Seq<char>>) -> Intent {
    match session_id {
        None => Intent::Invalid {
            status: StatusCode::UNAUTHORIZED,
            msg: "Failed getting uptime. Authorization is required"@,
        },
        Some(s) => Intent::Uptime { session_id: s },
    }
}

/// How a request is routed: the two fixed paths go to their route's
/// parameter check, and every other path is a bad request.
pub open spec fn route_model(
    path: Seq<char>,
    username: Option<Seq<char>>,
    password: Option<Seq<char>>,
    session_id: Option<Seq<char>>,
) -> Intent {
    if path == "/login"@ {
        login_route_model(username, password)
    } else if path == "/uptime"@ {
        uptime_route_model(session_id)
    } else {
        Intent::Invalid { status: StatusCode::BAD_REQUEST, msg: "Unknown route"@ }
    }
}

/// Routes a request to one of the two endpoints, or rejects it.
pub fn hadle_route(path: &str, params: Params) -> (r: HandleResult)
    ensures
        r@ == route_model(
            path@,
            params.username.deep_view(),
            params.password.deep_view(),
            params.session_id.deep_view(),
        ),
{
    if str_eq(path, "/login") {
        handle_login_route(params.username, params.password)
    } else if str_eq(path, "/uptime") {
        handle_uptime_route(params.session_id)
    } else {
        HandleResult::Error {
            status_code: StatusCode::BAD_REQUEST,
            msg: String::from_str("Unknown route"),
        }
    }
}

/// Validates the login route's parameters.
pub fn handle_login_route(username: Option<String>, password: Option<String>) -> (r: HandleResult)
    ensures
        r@ == login_route_model(username.deep_view(), password.deep_view()),
{
    let username = match username {
        Some(value) => value,
        None => {
            return HandleResult::Error {
                status_code: StatusCode::UNAUTHORIZED,
                msg: String::from_str("Login failed. Username is not provided"),
            };
        },
    };
    let password = match password {
        Some(value) => value,
        None => {
            return HandleResult::Error {
                status_code: StatusCode::UNAUTHORIZED,
                msg: String::from_str("Login failed. Password is not provided"),
            };
        },
    };
    HandleResult::LoginRoute { username, password }
}

/// Validates the uptime route's parameter.
pub fn handle_uptime_route(session_id: Option<String>) -> (r: HandleResult)
    ensures
        r@ == uptime_route_model(session_id.deep_view()),
{
    let session_id = match session_id {
        Some(value) => value,
        None => {
            return HandleResult::Error {
                status_code: StatusCode::UNAUTHORIZED,
                msg: String::from_str("Failed getting uptime. Authorization is required"),
            };
        },
    };
    HandleResult::UptimeRoute { session_id }
}

} // verus!
