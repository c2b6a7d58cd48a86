use demo_up::{
    CliArgs, CliCommand, Command, Config, DemoUpError, RequiredField, Session, TourConfig,
    UpCommand,
};

fn named(name: &str) -> Session {
    let mut s = Session::default();
    s.name = Some(name.to_string());
    s
}

fn command(order: Option<u32>, resource_group: Option<&str>, location: Option<&str>) -> Command {
    let mut c = Command::default();
    c.order = order;
    c.resource_group = resource_group.map(|r| r.to_string());
    c.location = location.map(|l| l.to_string());
    c
}

fn run(event: &str) -> UpCommand {
    let mut up = UpCommand::default();
    up.event = Some(event.to_string());
    up
}

#[test]
fn session_filter_returns_correct_sessions() {
    let mut session_a = Session::default();
    session_a.name = Some("SRE10".to_string());
    let mut session_b = Session::default();
    session_b.name = Some("SRE20".to_string());
    let mut session_c = Session::default();
    session_c.name = Some("SRE30".to_string());

    let mut tour_config = TourConfig::default();
    tour_config.sessions = Some(vec![session_a, session_b, session_c]);

    let filter_list = vec!["SRE20".to_string()];

    let result = tour_config.filter_sessions(&filter_list);
    let mut session_d = Session::default();
    session_d.name = Some("SRE20".to_string());
    let expected = vec![session_d];

    assert_eq!(result, expected);
}

#[test]
fn filter_skips_sessions_without_a_name() {
    let mut tour_config = TourConfig::default();
    tour_config.sessions = Some(vec![Session::default(), named("SRE20")]);
    let result = tour_config.filter_sessions(&["SRE20".to_string()]);
    assert_eq!(result, vec![named("SRE20")]);
}

#[test]
fn runtime_subscription_fills_an_empty_one() {
    let config = TourConfig::default();
    let mut up = run("evt");
    up.subscription = "runtime-sub".to_string();
    let resolved = config.update(&up);
    assert_eq!(resolved.subscription, Some("runtime-sub".to_string()));
}

#[test]
fn runtime_subscription_overrides_the_stored_one() {
    let mut config = TourConfig::default();
    config.subscription = Some("stored".to_string());
    let mut up = run("evt");
    up.subscription = "runtime-sub".to_string();
    assert_eq!(config.update(&up).subscription, Some("runtime-sub".to_string()));
}

#[test]
fn empty_runtime_subscription_keeps_the_stored_one() {
    let mut config = TourConfig::default();
    config.subscription = Some("stored".to_string());
    let up = run("evt");
    assert_eq!(config.update(&up).subscription, Some("stored".to_string()));
}

#[test]
fn missing_resource_group_becomes_session_and_event() {
    let mut session = named("SRE30");
    session.commands = Some(vec![
        command(Some(1), None, None),
        command(Some(2), Some("explicit-rg"), Some("westus")),
    ]);
    let mut config = TourConfig::default();
    config.sessions = Some(vec![session]);
    let mut up = run("evt");
    up.location = Some("eastus".to_string());
    let resolved = config.update(&up);
    let commands = resolved.sessions()[0].commands();
    assert_eq!(commands[0].resource_group, Some("SRE30-evt".to_string()));
    assert_eq!(commands[0].location, Some("eastus".to_string()));
    assert_eq!(commands[1].resource_group, Some("explicit-rg".to_string()));
    assert_eq!(commands[1].location, Some("westus".to_string()));
}

#[test]
fn missing_location_stays_unset_without_a_runtime_location() {
    let mut session = named("SRE30");
    session.commands = Some(vec![command(None, None, None)]);
    let mut config = TourConfig::default();
    config.sessions = Some(vec![session]);
    let resolved = config.update(&run("evt"));
    let commands = resolved.sessions()[0].commands();
    assert_eq!(commands[0].location, None);
    assert_eq!(commands[0].resource_group, Some("SRE30-evt".to_string()));
}

#[test]
fn no_event_leaves_resource_group_unset() {
    let mut session = named("SRE30");
    session.commands = Some(vec![command(None, None, None)]);
    let mut config = TourConfig::default();
    config.sessions = Some(vec![session]);
    let resolved = config.update(&UpCommand::default());
    assert_eq!(resolved.sessions()[0].commands()[0].resource_group, None);
}

#[test]
fn resolve_keeps_only_named_sessions() {
    let mut config = TourConfig::default();
    config.sessions = Some(vec![named("SRE10"), named("SRE20"), named("SRE30")]);
    let mut up = run("evt");
    up.session_names = Some(vec!["SRE30".to_string(), "SRE10".to_string()]);
    let names: Vec<Option<String>> = config.update(&up).sessions().into_iter().map(|s| s.name).collect();
    assert_eq!(names, vec![Some("SRE10".to_string()), Some("SRE30".to_string())]);
}

#[test]
fn resolve_without_filter_keeps_every_session() {
    let mut config = TourConfig::default();
    config.sessions = Some(vec![named("SRE10"), named("SRE20")]);
    let resolved = config.update(&run("evt"));
    assert_eq!(resolved.sessions().len(), 2);
    assert_eq!(resolved.sessions()[1].commands, Some(vec![]));
}

#[test]
fn resolve_twice_equals_resolve_once() {
    let mut s1 = named("SRE10");
    s1.commands = Some(vec![command(Some(3), None, None), command(None, Some("rg"), None)]);
    let mut s2 = named("SRE20");
    s2.commands = None;
    let mut config = TourConfig::default();
    config.sessions = Some(vec![s1, s2, Session::default()]);
    let mut up = run("evt");
    up.subscription = "sub".to_string();
    up.location = Some("eastus".to_string());
    up.session_names = Some(vec!["SRE10".to_string(), "SRE20".to_string()]);
    let once = config.update(&up);
    let twice = once.update(&up);
    assert_eq!(once, twice);
}

#[test]
fn subscription_is_required() {
    assert_eq!(
        TourConfig::default().subscription(),
        Err(DemoUpError::MissingRequiredField(RequiredField::Subscription))
    );
}

#[test]
fn unfiltered_config_resolves_every_session_with_a_location() {
    let mut session = named("DEV10");
    session.commands = Some(vec![command(None, None, None)]);
    let mut config = Config::default();
    config.sessions = Some(vec![session]);
    let args = CliArgs {
        subscription: "sub".to_string(),
        event: "evt".to_string(),
        location: "eastus".to_string(),
    };
    let resolved = config.update(&args);
    assert_eq!(resolved.subscription(), Ok("sub".to_string()));
    let c = &resolved.sessions()[0].commands()[0];
    assert_eq!(c.resource_group, Some("DEV10-evt".to_string()));
    assert_eq!(c.location, Some("eastus".to_string()));
}

#[test]
fn session_update_fills_commands() {
    let mut session = named("SRE30");
    let mut c = command(None, None, None);
    c.cli = Some(CliCommand::default());
    session.commands = Some(vec![c]);
    session.update(&Some("evt".to_string()), &Some("eastus".to_string()));
    let commands = session.commands();
    assert_eq!(commands[0].resource_group, Some("SRE30-evt".to_string()));
    assert_eq!(commands[0].location, Some("eastus".to_string()));
}

#[test]
fn session_name_is_required() {
    assert_eq!(
        Session::default().name(),
        Err(DemoUpError::MissingRequiredField(RequiredField::SessionName))
    );
    assert_eq!(named("SRE30").name(), Ok("SRE30".to_string()));
}

#[test]
fn a_copy_of_a_configuration_equals_it() {
    let mut session = named("SRE30");
    session.commands = Some(vec![command(Some(1), Some("rg"), None)]);
    session.git_repos = Some(vec!["https://github.com/org/demo".to_string()]);
    let mut config = TourConfig::default();
    config.subscription = Some("sub".to_string());
    config.sessions = Some(vec![session]);
    assert_eq!(config.clone(), config);
    let mut unfiltered = Config::default();
    unfiltered.sessions = config.sessions.clone();
    assert_eq!(unfiltered.clone(), unfiltered);
}
