use ibctl::clock::Moment;
use ibctl::config::{
    env_or_file, file_variable, BackoffEnvironment, Config, ConfigError, CounterReset, Environment, FileLayer, OnTimeout, PreflightIssue,
    ReloginFailureAction, Strategy, TimingConfig,
};
use ibctl::state_machine::machine::StateMachine;
use ibctl::state_machine::outcome::Stage;
use ibctl::state_machine::types::State;
use ibctl::supervisor::{
    is_jar, join_path, main_class, module_access_flags, no_jars_directory, sorted, version_candidates, JavaSearch,
    Supervisor, SupervisorError,
};

fn no_backoff() -> BackoffEnvironment {
    BackoffEnvironment {
        max_immediate_attempts: None,
        on_timeout: None,
        strategy: None,
        intervals_minutes: None,
        callback_valid_hours: None,
        counter_reset: None,
        stable_secs: None,
        cold_restart_preempts_hitl: None,
        ntfy_send_retries: None,
        api_port_probe_interval_secs: None,
        api_port_probe_fails_before_revoke: None,
    }
}

fn no_environment() -> Environment {
    Environment {
        tws_userid: None,
        tws_password: None,
        trading_mode: None,
        tws_userid_paper: None,
        tws_password_paper: None,
        totp_provider: None,
        twofa_timeout_action: None,
        twofa_exit_interval: None,
        tws_path: None,
        tws_settings_path: None,
        tws_major_vrsn: None,
        java_heap_size: None,
        gateway_or_tws: None,
        session_action: None,
        accept_incoming: None,
        command_server_enabled: None,
        command_port: None,
        control_from: None,
        agent_socket: None,
        log_level: None,
        backoff: no_backoff(),
    }
}

fn defaults_under(env: &Environment) -> Config {
    Config::load(None, None, FileLayer::Absent, env).unwrap()
}

#[test]
fn test_login_timeout_default_is_120() {
    let config = Config::default();
    assert_eq!(config.timing.login_dialog_timeout_secs, 120);
}

#[test]
fn test_login_timeout_zero_means_indefinite() {
    let toml_str = r#"
[timing]
login_dialog_timeout_secs = 0
"#;
    let file: toml::Value = toml::from_str(toml_str).unwrap();
    let secs = file["timing"]["login_dialog_timeout_secs"].as_integer().unwrap();
    let mut config = Config::default();
    config.timing.login_dialog_timeout_secs = secs as u64;
    assert_eq!(config.timing.login_dialog_timeout_secs, 0);

    let mut m = StateMachine::new(config, false, Moment { nanos: 0, epoch_secs: 0 });
    m.state = State::WaitingForLogin;
    let later = Moment { nanos: 1_000_000_000_000_000, epoch_secs: 1_000_000 };
    match m.do_wait_for_login(true, &None, &None, later) {
        Stage::Done(o) => assert_eq!(o.next, State::WaitingForLogin),
        other => panic!("{:?}", other),
    }
}

#[test]
fn defaults() {
    let c = Config::default();
    assert_eq!(c.auth.trading_mode, "live");
    assert_eq!(c.twofa.secret_env, "TWOFACTOR_CODE");
    assert_eq!(c.twofa.timeout_seconds, 180);
    assert_eq!(c.twofa.backoff.max_immediate_attempts, 3);
    assert_eq!(c.twofa.backoff.intervals_minutes, vec![60]);
    assert_eq!(c.twofa.backoff.on_timeout, OnTimeout::RestartThenHitl);
    assert_eq!(c.twofa.backoff.strategy, Strategy::Periodic);
    assert_eq!(c.gateway.tws_path, "/home/ibgateway/Jts");
    assert_eq!(c.gateway.java_heap_mb, 768);
    assert_eq!((c.gateway.live_api_port, c.gateway.live_socat_port), (4001, 4003));
    assert_eq!((c.gateway.paper_api_port, c.gateway.paper_socat_port), (4002, 4004));
    assert_eq!(c.command_server.port, 7462);
    assert_eq!(c.command_server.control_from, vec!["127.0.0.1"]);
    assert_eq!(c.agent.socket_path, "/tmp/ibctl.sock");
    assert_eq!(c.logging.level, "info");
    assert_eq!(c.session.action, "primary");
    assert_eq!(c.timing, TimingConfig::default());
    assert_eq!(c.timing.relogin_failure_action, ReloginFailureAction::Restart);
    assert!(!c.ib_status.kick_active_session);
    assert!(c.site.auto_launch);
}

#[test]
fn the_environment_takes_precedence() {
    let mut env = no_environment();
    env.tws_userid = Some("user".into());
    env.tws_password = Some("SECRET-REDACTED".into());
    env.trading_mode = Some("paper".into());
    env.twofa_exit_interval = Some("60".into());
    env.java_heap_size = Some("many".into());
    env.command_port = Some("70000".into());
    env.control_from = Some(" 10.0.0.1 ,*".into());
    env.command_server_enabled = Some("FALSE".into());
    env.backoff.intervals_minutes = Some("30, 60,120".into());
    env.backoff.strategy = Some("both".into());
    env.backoff.on_timeout = Some("nonsense".into());
    env.backoff.counter_reset = Some("stable".into());
    env.backoff.cold_restart_preempts_hitl = Some("no".into());
    env.backoff.api_port_probe_interval_secs = Some("0".into());
    let c = defaults_under(&env);
    assert_eq!(c.auth.username, "user");
    assert_eq!(c.auth.password, "SECRET-REDACTED");
    assert_eq!(c.auth.trading_mode, "paper");
    assert_eq!(c.twofa.timeout_seconds, 60);
    assert_eq!(c.gateway.java_heap_mb, 768);
    assert_eq!(c.command_server.port, 7462);
    assert_eq!(c.command_server.control_from, vec!["10.0.0.1", "*"]);
    assert!(!c.command_server.enabled);
    assert_eq!(c.twofa.backoff.intervals_minutes, vec![30, 60, 120]);
    assert_eq!(c.twofa.backoff.strategy, Strategy::Both);
    assert_eq!(c.twofa.backoff.on_timeout, OnTimeout::RestartThenHitl);
    assert_eq!(c.twofa.backoff.counter_reset, CounterReset::Stable);
    assert!(!c.twofa.backoff.cold_restart_preempts_hitl);
    assert_eq!(c.timing.api_port_probe_interval_secs, 0);
}

#[test]
fn switches_and_lists_at_the_edges() {
    for (text, on) in [("0", false), ("No", false), ("false", false), ("1", true), ("", true), ("off", true)] {
        let mut env = no_environment();
        env.command_server_enabled = Some(text.into());
        assert_eq!(defaults_under(&env).command_server.enabled, on, "{:?}", text);
    }
    let mut env = no_environment();
    env.control_from = Some("".into());
    env.backoff.intervals_minutes = Some("1,x".into());
    let c = defaults_under(&env);
    assert_eq!(c.command_server.control_from, vec![""]);
    assert_eq!(c.twofa.backoff.intervals_minutes, vec![60]);
}

#[test]
fn the_file_stands_without_variables() {
    let mut file = Config::default();
    file.auth.username = "from-file".into();
    file.gateway.settings_path = "/s".into();
    file.auth.password = "leaked".into();
    file.auth.paper.password = "leaked".into();
    let c = Config::load(None, None, FileLayer::Read(file), &no_environment()).unwrap();
    assert_eq!(c.auth.username, "from-file");
    assert_eq!((c.auth.password.as_str(), c.auth.paper.password.as_str()), ("", ""));
    assert_eq!(c.effective_settings_path(), "/s");
    assert_eq!(Config::default().effective_settings_path(), "/home/ibgateway/Jts");
}

#[test]
fn required_settings() {
    let mut c = Config::default();
    match c.validate() {
        Err(ConfigError::Missing(m)) => assert_eq!(m, "auth.username (or TWS_USERID env var)"),
        other => panic!("{:?}", other),
    }
    c.auth.username = "u".into();
    match c.validate() {
        Err(e) => assert_eq!(
            e.message(),
            "missing required configuration: TWS_PASSWORD or TWS_PASSWORD_FILE env var"
        ),
        other => panic!("{:?}", other),
    }
    c.auth.password = "p".into();
    assert!(c.validate().is_ok());
    c.auth.trading_mode = "both".into();
    assert!(c.validate().is_ok());
    assert!(c.shares_credentials());
    c.auth.paper.username = "x".into();
    assert!(!c.shares_credentials());
}

#[test]
fn error_messages() {
    let e = ConfigError::ReadFile { path: "a".into(), source: "b".into() };
    assert_eq!(e.message(), "failed to read config file 'a': b");
    assert_eq!(ConfigError::Parse("x".into()).message(), "failed to parse config file: x");
}

#[test]
fn which_file_is_read() {
    assert_eq!(Config::file_path(Some("a"), Some("b")), "a");
    assert_eq!(Config::file_path(None, Some("b")), "b");
    assert_eq!(Config::file_path(None, None), "ibctl.toml");
    let env = no_environment();
    let words = |r: Result<Config, ConfigError>| r.err().unwrap().message();
    assert_eq!(
        words(Config::load(Some("a"), Some("b"), FileLayer::Absent, &env)),
        "failed to read config file 'a': config file not found"
    );
    assert!(Config::load(None, Some("b"), FileLayer::Absent, &env).is_ok());
    assert_eq!(
        words(Config::load(None, Some("b"), FileLayer::Unreadable("denied".into()), &env)),
        "failed to read config file 'b': denied"
    );
    assert_eq!(
        words(Config::load(None, None, FileLayer::Malformed("line 1".into()), &env)),
        "failed to parse config file: line 1"
    );
}

#[test]
fn preflight_warnings() {
    let mut c = Config::default();
    assert!(c.preflight(false, false).is_empty());
    c.twofa.backoff.strategy = Strategy::Both;
    assert_eq!(
        c.preflight(false, false),
        vec![PreflightIssue::SigningKeyMissing, PreflightIssue::ExternalUrlMissing]
    );
    assert!(c.preflight(true, true).is_empty());
    c.twofa.backoff.strategy = Strategy::Disabled;
    assert_eq!(c.preflight(true, true), vec![PreflightIssue::HitlDeadEnd]);
    c.twofa.backoff.on_timeout = OnTimeout::HitlImmediately;
    c.twofa.backoff.callback_valid_hours = 169;
    c.timing.api_port_probe_fails_before_revoke = 0;
    assert_eq!(
        c.preflight(true, true),
        vec![PreflightIssue::CallbackHours, PreflightIssue::ProbeFailures, PreflightIssue::HitlNeedsStrategy]
    );
}

#[test]
fn secrets_from_files_go_first() {
    assert_eq!(file_variable("TWS_PASSWORD"), "TWS_PASSWORD_FILE");
    assert_eq!(env_or_file(Some(" s\n"), Some("d".into())), Some("s".to_string()));
    assert_eq!(env_or_file(None, Some(" d ".into())), Some(" d ".to_string()));
    assert_eq!(env_or_file(None, None), None);
}

fn supervisor(program: &str, settings: &str) -> Supervisor {
    let mut g = Config::default().gateway;
    g.program = program.into();
    g.settings_path = settings.into();
    Supervisor::new(g, "/agent.jar", "/run/a.sock".into(), 5)
}

#[test]
fn the_command_line() {
    let s = supervisor("gateway", "");
    let args = s.launch("a.jar:b.jar", &vec!["-Xss1m".to_string()], None);
    let flags = module_access_flags().len();
    assert_eq!(flags, 14);
    assert_eq!(args[0], "--add-opens=java.base/java.util=ALL-UNNAMED");
    assert_eq!(
        args[flags..].to_vec(),
        vec![
            "-cp",
            "a.jar:b.jar",
            "-javaagent:/agent.jar=/run/a.sock",
            "-Xss1m",
            "-Xmx768m",
            "-DjtsConfigDir=/home/ibgateway/Jts",
            "-Dtwslaunch.autoupdate.serviceImpl=com.ib.tws.twslaunch.install4j.Install4jAutoUpdateService",
            "-Dchannel=latest",
            "-Dexe4j.isInstall4j=true",
            "-DinstallType=standalone",
            "ibgateway.GWClient",
        ]
    );
    let warm = supervisor("tws", "/set").launch("cp", &vec![], Some("abc"));
    assert_eq!(warm[warm.len() - 2..].to_vec(), vec!["-Drestart=abc", "jclient.LoginFrame"]);
    assert!(warm.contains(&"-DjtsConfigDir=/set".to_string()));
    assert_eq!(main_class("anything"), "ibgateway.GWClient");
    assert_eq!(s.shutdown_polls(), 50);
}

#[test]
fn class_paths_are_in_order() {
    let jars = vec!["/j/b.jar".to_string(), "/j/a.jar".to_string(), "/j/B.jar".to_string()];
    let cp = Supervisor::build_classpath("/j", jars, Some("/j/aa.jar".into())).unwrap();
    assert_eq!(cp, "/j/B.jar:/j/a.jar:/j/aa.jar:/j/b.jar");
    match Supervisor::build_classpath("/j", vec![], Some("/j/aa.jar".into())) {
        Err(SupervisorError::NoJars(d)) => assert_eq!(d, "/j"),
        other => panic!("{:?}", other),
    }
    let mut expected = vec!["\u{e4}".to_string(), "z".to_string(), "".to_string(), "z".to_string(), "za".to_string()];
    let ours = sorted(expected.clone());
    expected.sort();
    assert_eq!(ours, expected);
    assert!(is_jar("x.jar") && !is_jar(".jar") && !is_jar("x.jar.bak") && is_jar("..jar"));
}

#[test]
fn vm_options_are_filtered() {
    let opts = Supervisor::read_vmoptions("# comment\r\n-Xmx1g\r\n\n  -XX:+UseG1GC  \n-Dfoo=bar\n");
    assert_eq!(opts, vec!["-Xmx1g", "-XX:+UseG1GC"]);
    assert!(Supervisor::read_vmoptions("").is_empty());
}

#[test]
fn versions_are_detected() {
    let s = supervisor("gateway", "");
    let gw = vec!["10.37".to_string()];
    let tws = vec!["ibgateway".to_string(), "1030".to_string()];
    assert_eq!(s.detect_version(&gw, &tws).unwrap(), "ibgateway/10.37");
    assert_eq!(s.detect_version(&vec![], &tws).unwrap(), "1030");
    match s.detect_version(&vec![], &vec!["ibgateway".to_string()]) {
        Err(e) => assert_eq!(e.message(), "failed to detect gateway version from /home/ibgateway/Jts"),
        Ok(v) => panic!("{}", v),
    }
    let mut g = Config::default().gateway;
    g.version = "9".into();
    assert_eq!(Supervisor::new(g, "", "".into(), 0).detect_version(&gw, &tws).unwrap(), "9");
}

#[test]
fn files_are_looked_for() {
    assert_eq!(version_candidates("/t", "1", "jars"), vec!["/t/1/jars", "/t/ibgateway/1/jars"]);
    assert_eq!(join_path("/a/", "b"), "/a/b");
    assert_eq!(join_path("/a", "/b"), "/b");
    assert_eq!(join_path("", "b"), "b");
    assert_eq!(no_jars_directory("/t", "1").message(), "no jars found in /t/1/jars, /t/ibgateway/1/jars");
}

#[test]
fn java_is_found() {
    let search = |path: Option<&str>, bin, file, bundled: Option<&str>, usr, local| {
        Supervisor::find_java(&JavaSearch {
            java_path: path.map(|p| p.to_string()),
            bin_exists: bin,
            is_file: file,
            bundled: bundled.map(|p| p.to_string()),
            in_usr: usr,
            in_usr_local: local,
        })
    };
    assert_eq!(search(Some("/jre"), true, true, Some("/i"), true, true).unwrap(), "/jre/bin/java");
    assert_eq!(search(Some("/jre/java"), false, true, Some("/i"), true, true).unwrap(), "/jre/java");
    assert_eq!(search(Some("/no"), false, false, Some("/i"), true, true).unwrap(), "/i");
    assert_eq!(search(None, true, true, None, true, true).unwrap(), "/usr/bin/java");
    assert_eq!(search(None, false, false, None, false, true).unwrap(), "/usr/local/bin/java");
    match search(None, false, false, None, false, false) {
        Err(e) => assert_eq!(
            e.message(),
            "Java not found at no java binary found in JAVA_PATH, i4j_jres, or PATH"
        ),
        Ok(j) => panic!("{}", j),
    }
}

#[test]
fn supervisor_errors_in_words() {
    assert_eq!(SupervisorError::NotRunning.message(), "JVM process not running");
    assert_eq!(SupervisorError::SpawnFailed("x".into()).message(), "failed to spawn JVM process: x");
    let e = SupervisorError::VmOptionsFailed { path: "p".into(), source: "s".into() };
    assert_eq!(e.message(), "failed to read vmoptions file 'p': s");
}
