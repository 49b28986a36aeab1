use ibctl::agent_client::{get_request, post_request, response_body, AgentClient, AgentError, AgentResponse};
use ibctl::command_server::{
    delivery_text, handle_connection, is_allowed, parse_command, CommandServer, CommandServerError, Delivery,
    ParsedCommand, QueryType, Verdict,
};
use ibctl::config::CommandServerConfig;
use ibctl::totp::{create_provider, OathtoolProvider, ToolOutput, TotpCodeGenerator, TotpError, TotpProvider};
use ibctl::types::{Command, WindowId};

fn list(entries: &[&str]) -> Vec<String> {
    entries.iter().map(|e| e.to_string()).collect()
}

fn action(line: &str) -> Option<Command> {
    match parse_command(line) {
        Some(ParsedCommand::Action(c)) => Some(c),
        _ => None,
    }
}

fn query(line: &str) -> Option<QueryType> {
    match parse_command(line) {
        Some(ParsedCommand::Query(q)) => Some(q),
        _ => None,
    }
}

#[test]
fn commands_are_read_in_any_case() {
    assert_eq!(action("stop\n"), Some(Command::Stop));
    assert_eq!(action("  Restart "), Some(Command::Restart));
    assert_eq!(action("RECONNECTDATA"), Some(Command::ReconnectData));
    assert_eq!(action("reconnectaccount"), Some(Command::ReconnectAccount));
    assert_eq!(action("ENABLEAPI"), Some(Command::EnableApi));
    assert_eq!(action("EXIT now"), Some(Command::Exit));
    assert_eq!(action("start"), Some(Command::Start));
    assert_eq!(action("pause"), Some(Command::Pause));
    assert_eq!(action("pause Connected"), Some(Command::PauseAt("Connected".into())));
    assert_eq!(action("resume"), Some(Command::Resume));
    assert_eq!(action("setstate WaitingForLogin"), Some(Command::SetState("WaitingForLogin".into())));
    assert_eq!(action("hitl_resume"), Some(Command::HitlResume));
    assert!(parse_command("SETSTATE").is_none());
    assert!(parse_command("").is_none());
    assert!(parse_command("STOPPED").is_none());
}

#[test]
fn case_and_space_do_not_matter() {
    for (x, y) in [("stop", "  STOP  now "), ("Status", "STATUS\t\tx"), ("logs 7 x", " LOGS  7")] {
        assert_eq!(format!("{:?}", parse_command(x)), format!("{:?}", parse_command(y)));
        assert!(parse_command(x).is_some());
    }
    assert!(parse_command("\u{df}top").is_none());
}

#[test]
fn queries_are_read() {
    assert_eq!(query("status"), Some(QueryType::Status));
    assert_eq!(query("STATE"), Some(QueryType::State));
    assert_eq!(query("Config"), Some(QueryType::Config));
    assert_eq!(query("WINDOWS"), Some(QueryType::Windows));
    assert_eq!(query("LOGS"), Some(QueryType::Logs(100)));
    assert_eq!(query("LOGS 7"), Some(QueryType::Logs(7)));
    assert_eq!(query("logs many"), Some(QueryType::Logs(100)));
}

#[test]
fn the_allow_list() {
    assert!(!is_allowed("127.0.0.1", &list(&[])));
    assert!(is_allowed("10.1.2.3", &list(&["*"])));
    assert!(is_allowed("10.1.2.3", &list(&["192.168.0.1", " 10.1.2.3 "])));
    assert!(!is_allowed("10.1.2.4", &list(&["10.1.2.3"])));
    assert!(is_allowed("::1", &list(&["127.0.0.1"])));
    assert!(is_allowed("127.0.0.1", &list(&["::1"])));
    assert!(!is_allowed("::2", &list(&["127.0.0.1"])));
}

#[test]
fn networks_are_admitted() {
    assert!(is_allowed("172.17.0.5", &list(&["172.0.0.0/8"])));
    assert!(!is_allowed("173.17.0.5", &list(&["172.0.0.0/8"])));
    assert!(is_allowed("192.168.1.127", &list(&["192.168.1.0/25"])));
    assert!(!is_allowed("192.168.1.128", &list(&["192.168.1.0/25"])));
    assert!(is_allowed("9.9.9.9", &list(&["0.0.0.0/0"])));
    assert!(is_allowed("1.2.3.4", &list(&["1.2.3.4/32"])));
    assert!(!is_allowed("1.2.3.5", &list(&["1.2.3.4/32"])));
    for bad in ["172.0.0.0/33", "172.0.0/8", "172.0.0.256/8", "172.0.0.0/", "172.0.0.0/8/8", "+172.0.0.0/8"] {
        assert!(!is_allowed("172.17.0.5", &list(&[bad])), "{}", bad);
    }
    assert!(!is_allowed("::1", &list(&["0.0.0.0/0"])));
}

#[test]
fn networks_of_version_six_are_admitted() {
    assert!(is_allowed("fd12:3456::1", &list(&["fd00::/8"])));
    assert!(!is_allowed("fe80::1", &list(&["fd00::/8"])));
    assert!(is_allowed("2001:db8::8:800:200c:417a", &list(&["2001:DB8:0:0:8:800:200C:417A/128"])));
    assert!(!is_allowed("2001:db8::8:800:200c:417b", &list(&["2001:db8::8:800:200c:417a/128"])));
    assert!(is_allowed("2001:db8::8:800:200c:417b", &list(&["2001:db8::8:800:200c:417a/127"])));
    assert!(is_allowed("::", &list(&["::/0"])) && is_allowed("ffff::", &list(&["::/0"])));
    assert!(is_allowed("1:2:3:4:5:6:7:8", &list(&["1:2:3:4::/64"])));
    assert!(!is_allowed("1:2:3:5:5:6:7:8", &list(&["1:2:3:4::/64"])));
    for bad in ["::/129", "1::2::3/8", "1:2:3:4:5:6:7/8", "12345::/8", "g::/8", ":::/8", "1:2:3:4:5:6:7:8:9/8"] {
        assert!(!is_allowed("1::", &list(&[bad])), "{}", bad);
    }
    assert!(!is_allowed("10.0.0.1", &list(&["::/0"])));
    assert!(is_allowed("::ffff:10.0.0.1", &list(&["::ffff:0:0/96"])));
    assert!(is_allowed("::ffff:a00:1", &list(&["::ffff:10.0.0.0/104"])));
    assert!(!is_allowed("::ffff:11.0.0.1", &list(&["::ffff:10.0.0.0/104"])));
    assert!(is_allowed("1:2:3:4:5:6:1.2.3.4", &list(&["1:2:3:4:5:6:102:304/128"])));
    for bad in ["1.2.3.4::/8", "1:2:3:4:5:6:7:1.2.3.4/8", "::1.2.3/8", "1:2:3:4:5:1.2.3.4/8"] {
        assert!(!is_allowed("1::", &list(&[bad])), "{}", bad);
    }
}

#[test]
fn connections_are_answered() {
    let local = list(&["127.0.0.1", "10.0.0.0/8"]);
    match handle_connection("127.0.0.1", &local, " stop \n") {
        Verdict::Execute(Command::Stop, t) => assert_eq!(t, "OK STOP\n"),
        other => panic!("{:?}", other),
    }
    match handle_connection("127.0.0.1", &local, "foo bar\n") {
        Verdict::Refuse(t) => assert_eq!(t, "ERROR unknown command: foo bar\n"),
        other => panic!("{:?}", other),
    }
    match handle_connection("192.168.0.9", &local, "STATUS\n") {
        Verdict::Refuse(t) => assert_eq!(t, "ERROR not authorized\n"),
        other => panic!("{:?}", other),
    }
    assert!(matches!(handle_connection("10.2.2.2", &local, "STATUS"), Verdict::Answer(QueryType::Status)));
}

#[test]
fn privileged_commands_come_from_this_host() {
    let all = list(&["*"]);
    for line in ["SETSTATE Connected", "HITL_RESUME"] {
        assert!(matches!(handle_connection("10.2.2.2", &all, line), Verdict::Refuse(t) if t == "ERROR not authorized\n"));
        assert!(matches!(handle_connection("::1", &all, line), Verdict::Execute(_, _)));
        assert!(matches!(handle_connection("127.0.0.1", &all, line), Verdict::Execute(_, _)));
    }
    match handle_connection("127.0.0.1", &all, "setstate Connected") {
        Verdict::Execute(Command::SetState(n), t) => {
            assert_eq!(n, "Connected");
            assert_eq!(t, "OK SETSTATE CONNECTED\n");
        }
        other => panic!("{:?}", other),
    }
}

#[test]
fn deliveries_in_words() {
    assert_eq!(delivery_text(&Delivery::Answered("{}".into())), "OK {}\n");
    assert_eq!(delivery_text(&Delivery::Dropped), "ERROR query response channel dropped\n");
    assert_eq!(delivery_text(&Delivery::TimedOut), "ERROR query timeout\n");
    assert_eq!(delivery_text(&Delivery::QueriesClosed), "ERROR query channel closed\n");
    assert_eq!(delivery_text(&Delivery::CommandsClosed), "ERROR command channel closed\n");
}

#[test]
fn the_server_uses_its_configuration() {
    let server = CommandServer::new(CommandServerConfig::default());
    assert_eq!(server.address(), "0.0.0.0:7462");
    assert!(server.admits("::1") && !server.admits("10.0.0.1"));
    assert!(matches!(server.respond("127.0.0.1", "STATE"), Verdict::Answer(QueryType::State)));
    let e = CommandServerError::BindFailed { addr: "a:1".into(), source: "in use".into() };
    assert_eq!(e.message(), "failed to bind TCP listener on a:1: in use");
    assert_eq!(CommandServerError::ConnectionError("gone".into()).message(), "connection error: gone");
}

#[test]
fn requests_are_framed() {
    assert_eq!(
        get_request("/health"),
        "GET /health HTTP/1.1\r\nHost: localhost\r\nConnection: close\r\n\r\n"
    );
    assert_eq!(
        post_request("/x", "\u{e4}"),
        "POST /x HTTP/1.1\r\nHost: localhost\r\nContent-Type: application/json\r\nContent-Length: 2\r\nConnection: close\r\n\r\n\u{e4}"
    );
}

#[test]
fn client_requests() {
    let c = AgentClient::new("/tmp/a.sock");
    let w = WindowId(7);
    assert_eq!(c.socket_path(), "/tmp/a.sock");
    assert!(c.health().starts_with("GET /health HTTP/1.1\r\n"));
    assert!(c.list_windows().starts_with("GET /windows HTTP/1.1\r\n"));
    assert!(c.dump_components(w).starts_with("GET /windows/7/dump HTTP/1.1\r\n"));
    let body = |r: Result<String, AgentError>| {
        let text = r.unwrap();
        let (head, body) = text.split_once("\r\n\r\n").map(|(h, b)| (h.to_string(), b.to_string())).unwrap();
        assert!(head.contains(&format!("Content-Length: {}\r\n", body.len())));
        (head.lines().next().unwrap().to_string(), body)
    };
    assert_eq!(
        body(c.click_button(w, "O\"K")),
        ("POST /windows/7/click HTTP/1.1".to_string(), "{\"label\":\"O\\\"K\"}".to_string())
    );
    assert_eq!(body(c.type_text(w, 1, "x")).1, "{\"fieldIndex\":1,\"text\":\"x\"}");
    assert_eq!(body(c.click_menu(w, "A/B")).1, "{\"path\":\"A/B\"}");
    assert_eq!(body(c.set_checkbox(w, "L", Some(true))).1, "{\"label\":\"L\",\"state\":\"true\"}");
    assert_eq!(body(c.set_checkbox(w, "L", Some(false))).1, "{\"label\":\"L\",\"state\":\"false\"}");
    assert_eq!(body(c.set_checkbox(w, "L", None)).1, "{\"label\":\"L\"}");
    assert_eq!(body(c.select_list_item(w, "d")).1, "{\"item\":\"d\"}");
    assert_eq!(body(c.click_at(w, -3, 40)).1, "{\"x\":\"-3\",\"y\":\"40\"}");
    assert_eq!(body(c.select_tree_node(w, "API")).1, "{\"node\":\"API\"}");
    assert_eq!(
        body(c.send_key(w, "escape")),
        ("POST /windows/7/key HTTP/1.1".to_string(), "{\"key\":\"escape\"}".to_string())
    );
}

#[test]
fn bodies_are_cut_out() {
    assert_eq!(response_body("HTTP/1.1 200 OK\r\nA: b\r\n\r\n{}\r\n\r\nx").unwrap(), "{}\r\n\r\nx");
    assert_eq!(response_body("{\"ok\":true}").unwrap(), "{\"ok\":true}");
    match response_body("HTTP/1.1 200 OK\r\n\r\n") {
        Err(AgentError::RequestFailed(m)) => assert_eq!(m, "empty response body"),
        other => panic!("{:?}", other),
    }
    assert!(response_body("").is_err());
}

#[test]
fn envelopes_are_opened() {
    let c = AgentClient::new("s");
    assert_eq!(c.unwrap_response(AgentResponse { ok: true, data: Some(5), error: None }).unwrap(), 5);
    let text = |r: Result<i32, AgentError>| match r {
        Err(AgentError::Agent(m)) => m,
        other => panic!("{:?}", other),
    };
    assert_eq!(
        text(c.unwrap_response(AgentResponse { ok: true, data: None, error: None })),
        "response ok but no data"
    );
    assert_eq!(
        text(c.unwrap_response(AgentResponse { ok: false, data: Some(1), error: Some("no".into()) })),
        "no"
    );
    assert_eq!(
        text(c.unwrap_response(AgentResponse { ok: false, data: None, error: None })),
        "unknown agent error"
    );
}

#[test]
fn oathtool_output_becomes_a_code() {
    let p = create_provider(TotpProvider::Oathtool).unwrap();
    assert_eq!(p, OathtoolProvider);
    assert_eq!(p.arguments(), vec!["--totp", "--base32", "-"]);
    let good = ToolOutput { success: true, stdout: "123456\n".into(), stderr: "".into() };
    assert_eq!(p.generate(&good).map(|c| c.into_inner()).ok().unwrap(), "123456");
    let bad = ToolOutput { success: false, stdout: "1".into(), stderr: "bad base32".into() };
    match p.generate(&bad) {
        Err(e) => assert_eq!(e.message(), "oathtool returned non-zero exit code: bad base32"),
        Ok(_) => panic!("no code was expected"),
    }
}

#[test]
fn the_builtin_provider_does_not_exist() {
    match create_provider(TotpProvider::Builtin) {
        Err(TotpError::BuiltinNotImplemented) => {}
        other => panic!("{:?}", other),
    }
    assert_eq!(
        TotpError::BuiltinNotImplemented.message(),
        "builtin TOTP provider not yet implemented \u{2014} use provider = \"oathtool\""
    );
    assert_eq!(TotpError::ExecutionFailed("x".into()).message(), "failed to execute oathtool: x");
}
