use ubus_gateway::router::{hadle_route, handle_login_route, handle_uptime_route, HandleResult,
    Params, StatusCode};
use ubus_gateway::response::{respond_error, respond_login, respond_uptime};
use ubus_gateway::session::{BusObject, BusReply, UbusManager};
use ubus_gateway::jsonfmt::escape_json;
use ubus_gateway::strutil::{str_eq, u64_to_string};

fn no_params() -> Params {
    Params { username: None, password: None, session_id: None }
}

#[test]
fn status_code_values() {
    assert_eq!(StatusCode::OK.value(), 200);
    assert_eq!(StatusCode::BAD_REQUEST.value(), 400);
    assert_eq!(StatusCode::UNAUTHORIZED.value(), 401);
}

#[test]
fn unknown_route_is_bad_request() {
    match hadle_route("/nowhere", no_params()) {
        HandleResult::Error { status_code, msg } => {
            assert_eq!(status_code, StatusCode::BAD_REQUEST);
            assert_eq!(msg, "Unknown route");
            let outcome = respond_error(status_code, msg.as_str());
            assert_eq!(outcome.status_code, 400);
            assert!(outcome.body.contains("Unknown route"));
            assert_eq!(outcome.body, "\nRouille server: Unknown route\n");
        },
        _ => panic!("expected a rejection"),
    }
}

#[test]
fn login_missing_username_is_unauthorized() {
    let params = Params {
        username: None,
        password: Some(String::from("secret")),
        session_id: None,
    };
    match hadle_route("/login", params) {
        HandleResult::Error { status_code, msg } => {
            assert_eq!(status_code, StatusCode::UNAUTHORIZED);
            assert_eq!(msg, "Login failed. Username is not provided");
            assert_eq!(respond_error(status_code, msg.as_str()).status_code, 401);
        },
        _ => panic!("expected a rejection"),
    }
}

#[test]
fn login_missing_password_is_unauthorized() {
    let params = Params {
        username: Some(String::from("admin")),
        password: None,
        session_id: None,
    };
    match hadle_route("/login", params) {
        HandleResult::Error { status_code, msg } => {
            assert_eq!(status_code, StatusCode::UNAUTHORIZED);
            let outcome = respond_error(status_code, msg.as_str());
            assert_eq!(outcome.status_code, 401);
            assert!(outcome.body.contains("Password is not provided"));
        },
        _ => panic!("expected a rejection"),
    }
}

#[test]
fn login_with_both_parameters_routes() {
    let params = Params {
        username: Some(String::from("admin")),
        password: Some(String::from("secret")),
        session_id: None,
    };
    match hadle_route("/login", params) {
        HandleResult::LoginRoute { username, password } => {
            assert_eq!(username, "admin");
            assert_eq!(password, "secret");
        },
        _ => panic!("expected the login route"),
    }
}

#[test]
fn login_route_checks_username_first() {
    match handle_login_route(None, None) {
        HandleResult::Error { status_code, msg } => {
            assert_eq!(status_code, StatusCode::UNAUTHORIZED);
            assert_eq!(msg, "Login failed. Username is not provided");
        },
        _ => panic!("expected a rejection"),
    }
}

#[test]
fn uptime_missing_session_is_unauthorized() {
    match hadle_route("/uptime", no_params()) {
        HandleResult::Error { status_code, msg } => {
            assert_eq!(status_code, StatusCode::UNAUTHORIZED);
            assert_eq!(msg, "Failed getting uptime. Authorization is required");
            assert_eq!(respond_error(status_code, msg.as_str()).status_code, 401);
        },
        _ => panic!("expected a rejection"),
    }
}

#[test]
fn uptime_with_session_routes() {
    match handle_uptime_route(Some(String::from("abc123"))) {
        HandleResult::UptimeRoute { session_id } => {
            assert_eq!(session_id, "abc123");
        },
        _ => panic!("expected the uptime route"),
    }
}

#[test]
fn login_call_fixes_timeout_at_300() {
    let manager = UbusManager::new();
    let call = manager.session_login_call("admin", "secret");
    assert_eq!(call.object, "session");
    assert_eq!(call.method, "login");
    let args = call.args.expect("login carries arguments");
    assert_eq!(args, "{\"username\":\"admin\",\"password\":\"secret\",\"timeout\":300}");
    assert!(args.ends_with(",\"timeout\":300}"));
}

#[test]
fn login_call_escapes_credentials() {
    let manager = UbusManager::new();
    let call = manager.session_login_call("ad\"min", "se\\cret\n");
    let args = call.args.expect("login carries arguments");
    assert_eq!(
        args,
        "{\"username\":\"ad\\\"min\",\"password\":\"se\\\\cret\\u000a\",\"timeout\":300}"
    );
}

#[test]
fn escape_json_handles_quotes_backslashes_and_controls() {
    assert_eq!(escape_json("plain"), "plain");
    assert_eq!(escape_json("a\"b"), "a\\\"b");
    assert_eq!(escape_json("a\\b"), "a\\\\b");
    assert_eq!(escape_json("a\nb\tc"), "a\\u000ab\\u0009c");
    assert_eq!(escape_json(""), "");
}

#[test]
fn authenticate_call_carries_the_token() {
    let manager = UbusManager::new();
    let call = manager.authenticate_call("abc123");
    assert_eq!(call.object, "session");
    assert_eq!(call.method, "get");
    assert_eq!(call.args.expect("validation carries arguments"),
        "{\"ubus_rpc_session\":\"abc123\"}");
}

#[test]
fn session_login_extracts_the_token() {
    let manager = UbusManager::new();
    let reply = BusReply {
        exit_ok: true,
        stdout: String::from("{\"ubus_rpc_session\":\"abc123\",\"timeout\":300}"),
    };
    let result = manager.session_login(&reply);
    assert_eq!(result, Ok(String::from("abc123")));
    let outcome = respond_login(result);
    assert_eq!(outcome.status_code, 200);
    assert!(outcome.body.contains("abc123"));
    assert_eq!(
        outcome.body,
        "\nRouille server: Logged in successfully (session id: abc123)\n"
    );
}

#[test]
fn session_login_fails_on_nonzero_exit() {
    let manager = UbusManager::new();
    let reply = BusReply {
        exit_ok: false,
        stdout: String::from("{\"ubus_rpc_session\":\"abc123\"}"),
    };
    let result = manager.session_login(&reply);
    assert_eq!(result, Err("Failed executing session login command"));
    let outcome = respond_login(result);
    assert_eq!(outcome.status_code, 400);
    assert_eq!(outcome.body, "\nRouille server: Failed executing session login command\n");
}

#[test]
fn session_login_fails_without_the_field() {
    let manager = UbusManager::new();
    let reply = BusReply { exit_ok: true, stdout: String::from("{\"other\":1}") };
    assert_eq!(manager.session_login(&reply), Err("Failed executing session login command"));
}

#[test]
fn session_login_fails_on_malformed_output() {
    let manager = UbusManager::new();
    let reply = BusReply { exit_ok: true, stdout: String::from("not json at all") };
    assert_eq!(manager.session_login(&reply), Err("Failed executing session login command"));
}

#[test]
fn authenticate_follows_the_exit_status() {
    let manager = UbusManager::new();
    let ok = BusReply { exit_ok: true, stdout: String::from("{}") };
    let bad = BusReply { exit_ok: false, stdout: String::new() };
    assert_eq!(manager.authenticate(&ok), Ok(()));
    assert_eq!(manager.authenticate(&bad), Err(()));
}

#[test]
fn failed_authentication_short_circuits_uptime() {
    let manager = UbusManager::new();
    let auth = BusReply { exit_ok: false, stdout: String::new() };
    match manager.uptime_call(&auth) {
        Err(msg) => {
            assert_eq!(msg, "Authentication failed");
            let outcome = respond_uptime(Err(msg));
            assert_eq!(outcome.status_code, 400);
            assert!(outcome.body.contains("Authentication failed"));
            assert_eq!(outcome.body, "\nRouille server: Authentication failed\n");
        },
        Ok(_) => panic!("no system-info call may follow a failed validation"),
    }
}

#[test]
fn uptime_end_to_end_success() {
    let manager = UbusManager::new();
    let auth = BusReply { exit_ok: true, stdout: String::from("{}") };
    let info_call = manager.uptime_call(&auth).expect("authenticated");
    assert_eq!(info_call.object, "system");
    assert_eq!(info_call.method, "info");
    assert!(info_call.args.is_none());
    let info = BusReply { exit_ok: true, stdout: String::from("{\"uptime\":54321,\"load\":[0,0,0]}") };
    let result = manager.get_uptime(&info);
    assert_eq!(result, Ok(54321));
    let outcome = respond_uptime(result);
    assert_eq!(outcome.status_code, 200);
    assert!(outcome.body.contains("54321"));
    assert_eq!(outcome.body, "\nRouille server: uptime = 54321\n");
}

#[test]
fn uptime_fails_without_the_field() {
    let manager = UbusManager::new();
    let info = BusReply { exit_ok: true, stdout: String::from("{\"load\":[0,0,0]}") };
    assert_eq!(manager.get_uptime(&info), Err("Failed getting uptime"));
}

#[test]
fn uptime_fails_on_nonzero_exit() {
    let manager = UbusManager::new();
    let info = BusReply { exit_ok: false, stdout: String::from("{\"uptime\":54321}") };
    let result = manager.get_uptime(&info);
    assert_eq!(result, Err("Failed getting uptime"));
    assert_eq!(respond_uptime(result).status_code, 400);
}

#[test]
fn repeated_uptime_keeps_the_status_class() {
    let manager = UbusManager::new();
    let first = BusReply { exit_ok: true, stdout: String::from("{\"uptime\":100}") };
    let second = BusReply { exit_ok: true, stdout: String::from("{\"uptime\":105}") };
    let a = respond_uptime(manager.get_uptime(&first));
    let b = respond_uptime(manager.get_uptime(&second));
    assert_eq!(a.status_code, 200);
    assert_eq!(b.status_code, 200);
}

#[test]
fn u64_to_string_exact_values() {
    assert_eq!(u64_to_string(0), "0");
    assert_eq!(u64_to_string(7), "7");
    assert_eq!(u64_to_string(54321), "54321");
    assert_eq!(u64_to_string(18446744073709551615), "18446744073709551615");
}

#[test]
fn str_eq_compares_contents() {
    assert!(str_eq("abc", "abc"));
    assert!(!str_eq("abc", "abd"));
    assert!(!str_eq("abc", "abcd"));
    assert!(str_eq("", ""));
}

#[test]
fn obj_id_lookup_takes_the_last_match() {
    let manager = UbusManager::new();
    let objects = vec![
        BusObject { path: String::from("session"), id: 10 },
        BusObject { path: String::from("system"), id: 20 },
        BusObject { path: String::from("session"), id: 30 },
    ];
    assert_eq!(manager.get_ubus_obj_id("session", &objects), Some(30));
    assert_eq!(manager.get_ubus_obj_id("system", &objects), Some(20));
    assert_eq!(manager.get_ubus_obj_id("network", &objects), None);
    assert_eq!(manager.get_ubus_obj_id("session", &Vec::new()), None);
}
