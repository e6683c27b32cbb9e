use freyja::{Binding, Config, ConfigReader, Exec, Executor, Freyja, LaunchOutcome, Reply, Request, Router, Step};

fn binding(alias: &str, command: &str, args: &[&str]) -> Binding {
    Binding::new(
        alias.to_string(),
        command.to_string(),
        args.iter().map(|a| a.to_string()).collect(),
    )
}

fn loaded(entries: Vec<Binding>) -> Config {
    let mut config = Config::new();
    let n = entries.len();
    assert_eq!(config.setup(Ok(entries)), Ok(n));
    config
}

fn launch_of(step: Step) -> (String, Vec<String>) {
    match step {
        Step::Launch(l) => (l.program, l.args),
        _ => panic!("expected a launch"),
    }
}

#[test]
fn new_config_is_empty() {
    let config = Config::new();
    assert_eq!(config.len(), 0);
    assert!(config.get_command_for_alias(&"browser".to_string()).is_none());
}

#[test]
fn every_binding_resolves_to_itself() {
    let config = loaded(vec![
        binding("browser", "firefox", &[]),
        binding("term", "xterm", &["-e", "top"]),
        binding("edit", "/usr/bin/vim", &["notes.txt"]),
    ]);
    for (alias, command, args) in [
        ("browser", "firefox", vec![]),
        ("term", "xterm", vec!["-e", "top"]),
        ("edit", "/usr/bin/vim", vec!["notes.txt"]),
    ] {
        let b = config.get_command_for_alias(&alias.to_string()).unwrap();
        assert_eq!(b.alias, alias);
        assert_eq!(b.command, command);
        assert_eq!(b.args, args.iter().map(|a| a.to_string()).collect::<Vec<_>>());
    }
}

#[test]
fn unknown_alias_is_unbound() {
    let config = loaded(vec![binding("browser", "firefox", &[])]);
    assert!(config.get_command_for_alias(&"browse".to_string()).is_none());
    assert!(config.get_command_for_alias(&"".to_string()).is_none());
    assert!(config.get_command_for_alias(&"Browser".to_string()).is_none());
}

#[test]
fn later_entry_shadows_earlier_one_of_same_alias() {
    let config = loaded(vec![binding("x", "first", &[]), binding("x", "second", &["a"])]);
    assert_eq!(config.len(), 2);
    let b = config.get_command_for_alias(&"x".to_string()).unwrap();
    assert_eq!(b.command, "second");
    assert_eq!(b.args, vec!["a".to_string()]);
}

#[test]
fn setup_counts_all_bindings_loaded_so_far() {
    let mut config = loaded(vec![binding("a", "one", &[])]);
    assert_eq!(config.setup(Ok(vec![binding("b", "two", &[]), binding("a", "three", &[])])), Ok(3));
    assert_eq!(config.get_command_for_alias(&"a".to_string()).unwrap().command, "three");
    assert_eq!(config.get_command_for_alias(&"b".to_string()).unwrap().command, "two");
}

#[test]
fn setup_reports_decode_failure_and_keeps_table() {
    let mut config = loaded(vec![binding("a", "one", &[])]);
    let r = config.setup(Err("EOF While parsing".to_string()));
    assert_eq!(r, Err("Failed to parse configuration file: EOF While parsing".to_string()));
    assert_eq!(config.len(), 1);
    assert_eq!(config.get_command_for_alias(&"a".to_string()).unwrap().command, "one");
}

#[test]
fn binding_clone_is_equal() {
    let b = binding("term", "xterm", &["-e", "top"]);
    let c = b.clone();
    assert_eq!(c.alias, "term");
    assert_eq!(c.command, "xterm");
    assert_eq!(c.args, vec!["-e".to_string(), "top".to_string()]);
}

#[test]
fn executor_plans_the_bound_command() {
    let config = loaded(vec![binding("term", "xterm", &["-e", "top"])]);
    let executor = Executor::new();
    let l = executor.exec(&"term".to_string(), &config).unwrap();
    assert_eq!(l.program, "xterm");
    assert_eq!(l.args, vec!["-e".to_string(), "top".to_string()]);
    assert!(executor.exec(&"other".to_string(), &config).is_none());
}

#[test]
fn executor_success_follows_spawn() {
    let executor = Executor::new();
    assert!(executor.succeeded(&LaunchOutcome::Spawned));
    assert!(!executor.succeeded(&LaunchOutcome::SpawnFailed("No such file or directory".to_string())));
}

#[test]
fn requests_are_told_apart_by_method() {
    assert!(matches!(Request::from_call(&"exec".to_string(), Some("a".to_string())), Request::Exec(Some(a)) if a == "a"));
    assert!(matches!(Request::from_call(&"exec".to_string(), None), Request::Exec(None)));
    assert!(matches!(Request::from_call(&"ping".to_string(), None), Request::Ping));
    assert!(matches!(Request::from_call(&"quit".to_string(), None), Request::Quit));
    assert!(matches!(Request::from_call(&"reload".to_string(), None), Request::Unknown(m) if m == "reload"));
    assert!(matches!(Request::from_call(&"Ping".to_string(), None), Request::Unknown(m) if m == "Ping"));
}

#[test]
fn exec_known_alias_launches_and_spawn_gives_true() {
    let config = loaded(vec![binding("term", "xterm", &["-e", "top"])]);
    let executor = Executor::new();
    let mut router = Router::new();
    let step = router.dispatch(Request::Exec(Some("term".to_string())), &executor, &config);
    let (program, args) = launch_of(step);
    assert_eq!(program, "xterm");
    assert_eq!(args, vec!["-e".to_string(), "top".to_string()]);
    assert!(matches!(router.complete(&executor, &LaunchOutcome::Spawned), Reply::Flag(true)));
    assert!(router.is_running());
}

#[test]
fn exec_unknown_alias_answers_false_without_launch() {
    let config = loaded(vec![binding("term", "xterm", &[])]);
    let executor = Executor::new();
    let mut router = Router::new();
    let step = router.dispatch(Request::Exec(Some("browser".to_string())), &executor, &config);
    assert!(matches!(step, Step::Respond(Reply::Flag(false))));
    assert!(router.is_running());
}

#[test]
fn exec_without_alias_answers_false() {
    let config = loaded(vec![binding("term", "xterm", &[])]);
    let mut router = Router::new();
    let step = router.dispatch(Request::Exec(None), &Executor::new(), &config);
    assert!(matches!(step, Step::Respond(Reply::Flag(false))));
}

#[test]
fn exec_failed_spawn_answers_false() {
    let config = loaded(vec![binding("bad", "/nonexistent/program", &[])]);
    let executor = Executor::new();
    let mut router = Router::new();
    let step = router.dispatch(Request::Exec(Some("bad".to_string())), &executor, &config);
    assert_eq!(launch_of(step).0, "/nonexistent/program");
    let reply = router.complete(&executor, &LaunchOutcome::SpawnFailed("No such file or directory".to_string()));
    assert!(matches!(reply, Reply::Flag(false)));
}

#[test]
fn ping_answers_pong_and_keeps_running() {
    let config = Config::new();
    let mut router = Router::new();
    for _ in 0..3 {
        let step = router.dispatch(Request::Ping, &Executor::new(), &config);
        assert!(matches!(step, Step::Respond(Reply::Text(t)) if t == "pong"));
        assert!(router.is_running());
    }
}

#[test]
fn quit_stops_once_and_stays_stopped() {
    let config = Config::new();
    let mut router = Router::new();
    assert!(router.is_running());
    let step = router.dispatch(Request::Quit, &Executor::new(), &config);
    assert!(matches!(step, Step::Respond(Reply::Text(t)) if t == "quiting..."));
    assert!(!router.is_running());
    let step = router.dispatch(Request::Quit, &Executor::new(), &config);
    assert!(matches!(step, Step::Respond(Reply::Text(t)) if t == "quiting..."));
    assert!(!router.is_running());
    router.dispatch(Request::Ping, &Executor::new(), &config);
    assert!(!router.is_running());
}

#[test]
fn unknown_method_is_left_to_the_channel() {
    let config = Config::new();
    let mut router = Router::new();
    let step = router.dispatch(Request::Unknown("reload".to_string()), &Executor::new(), &config);
    assert!(matches!(step, Step::Unrecognized(m) if m == "reload"));
    assert!(router.is_running());
}

#[test]
fn scenario_browser_launches_firefox() {
    let mut service = Freyja::new();
    assert_eq!(service.setup(Ok(vec![binding("browser", "firefox", &[])])), Ok(1));
    let step = service.dispatch(Request::from_call(&"exec".to_string(), Some("browser".to_string())));
    let (program, args) = launch_of(step);
    assert_eq!(program, "firefox");
    assert!(args.is_empty());
    assert!(matches!(service.complete(&LaunchOutcome::Spawned), Reply::Flag(true)));
}

#[test]
fn scenario_empty_table_exec_fails_without_launch() {
    let mut service = Freyja::new();
    assert_eq!(service.setup(Ok(vec![])), Ok(0));
    let step = service.dispatch(Request::from_call(&"exec".to_string(), Some("anything".to_string())));
    assert!(matches!(step, Step::Respond(Reply::Flag(false))));
}

#[test]
fn scenario_ping_pong() {
    let mut service = Freyja::new();
    let step = service.dispatch(Request::from_call(&"ping".to_string(), None));
    assert!(matches!(step, Step::Respond(Reply::Text(t)) if t == "pong"));
    assert!(service.is_running());
}

#[test]
fn scenario_quit_ends_the_loop() {
    let mut service = Freyja::new();
    let requests = vec![
        Request::from_call(&"ping".to_string(), None),
        Request::from_call(&"quit".to_string(), None),
        Request::from_call(&"ping".to_string(), None),
    ];
    let mut replies = Vec::new();
    for request in requests {
        match service.dispatch(request) {
            Step::Respond(Reply::Text(t)) => replies.push(t),
            _ => panic!("expected a text reply"),
        }
        if !service.is_running() {
            break;
        }
    }
    assert_eq!(replies, vec!["pong".to_string(), "quiting...".to_string()]);
    assert!(!service.is_running());
}

#[test]
fn service_load_failure_then_load() {
    let mut service = Freyja::new();
    assert_eq!(
        service.setup(Err("bad".to_string())),
        Err("Failed to parse configuration file: bad".to_string())
    );
    assert_eq!(service.setup(Ok(vec![binding("a", "one", &["1"])])), Ok(1));
    let step = service.dispatch(Request::Exec(Some("a".to_string())));
    let (program, args) = launch_of(step);
    assert_eq!(program, "one");
    assert_eq!(args, vec!["1".to_string()]);
    assert!(service.is_running());
}
