use demo_up::{ArmTemplate, Command, Session, TourConfig};

fn load_single_session_config() -> TourConfig {
    let mut template = ArmTemplate::default();
    template.path = Some("./test/artifacts/demo_template.json".to_string());
    let mut command = Command::default();
    command.template = Some(template);
    let mut session = Session::default();
    session.name = Some("SRE30".to_string());
    session.commands = Some(vec![command]);
    let mut config = TourConfig::default();
    config.subscription = Some("00000000-0000-0000-0000-000000000000".to_string());
    config.sessions = Some(vec![session]);
    config
}

fn get_single_session() -> Session {
    let config_result = load_single_session_config();

    let mut session_result = Session::default();

    for session in config_result.sessions() {
        session_result = session;
    }
    session_result
}

#[test]
fn single_session_is_valid() {
    let session_result = get_single_session();

    assert!(session_result.name.is_some());
}

#[test]
fn single_session_has_name() {
    let session_result = get_single_session();

    assert_eq!(session_result.name.unwrap(), "SRE30")
}

#[test]
fn single_session_has_command() {
    let session_result = get_single_session();

    assert!(session_result.commands.is_some());
}

#[test]
fn single_session_has_command_without_order() {
    let session_result = get_single_session();
    let commands = session_result.commands.unwrap().to_vec();
    let command = &commands[0];
    let order = command.order;

    assert!(order.is_none());
}

#[test]
fn single_session_command_has_template_no_parameters() {
    let session_result = get_single_session();
    let commands = session_result.commands.unwrap().to_vec();

    if let Some(template) = &commands[0].template {
        assert!(template.path.is_some());
        let template_path = template.clone().path.unwrap();
        assert_eq!(template_path, "./test/artifacts/demo_template.json");
        assert!(template.parameters.is_none());
    }
}

#[test]
fn empty_config_has_no_subscription_and_no_sessions() {
    let config = TourConfig::default();
    assert!(config.subscription.is_none());
    assert!(config.sessions.is_none());
    assert!(config.sessions().is_empty());
}
