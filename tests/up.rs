use demo_up::{
    sort_commands, Action, ArmTemplate, CliCommand, Command, DemoUpError, FileDownload,
    RequiredField, Session, TourConfig, UpCommand,
};

fn ordered(order: Option<u32>, tag: &str) -> Command {
    let mut c = Command::default();
    c.order = order;
    c.resource_group = Some(tag.to_string());
    c
}

fn tags(commands: &[Command]) -> Vec<String> {
    commands.iter().map(|c| c.resource_group.clone().unwrap()).collect()
}

fn download(url: &str) -> FileDownload {
    FileDownload { file_name: None, url: Some(url.to_string()) }
}

fn full_session() -> Session {
    let mut cli = CliCommand::default();
    cli.subcommand = Some("group create".to_string());
    let mut c = Command::default();
    c.cli = Some(cli);
    Session {
        name: Some("SRE30".to_string()),
        slides: Some(FileDownload {
            file_name: Some("deck.pptx".to_string()),
            url: Some("https://x.test/slides/s.pptx".to_string()),
        }),
        videos: Some(vec![download("https://x.test/v/intro.mp4")]),
        git_repos: Some(vec!["https://github.com/org/demo".to_string()]),
        commands: Some(vec![c]),
    }
}

fn config_of(session: Session) -> TourConfig {
    let mut config = TourConfig::default();
    config.subscription = Some("sub1".to_string());
    config.sessions = Some(vec![session]);
    config
}

fn up_with(exclude: &[&str]) -> UpCommand {
    let mut up = UpCommand::default();
    up.event = Some("evt".to_string());
    if !exclude.is_empty() {
        up.exclude = Some(exclude.iter().map(|e| e.to_string()).collect());
    }
    up
}

fn create(path: &str) -> Action {
    Action::CreateDirectory { path: path.to_string() }
}

#[test]
fn skips_correct_section() {
    let mut config = UpCommand::default();
    config.exclude = Some(vec!["Slides".to_string()]);

    assert!(config.skip_section("Slides"));
}

#[test]
fn does_not_skip_correct_section() {
    let mut config = UpCommand::default();
    config.exclude = Some(vec!["Video".to_string()]);

    assert!(!config.skip_section("Slides"));
}

#[test]
fn nothing_is_skipped_without_exclusions() {
    assert!(!UpCommand::default().skip_section("Commands"));
}

#[test]
fn commands_sort_by_order_with_unordered_last() {
    let commands = vec![
        ordered(None, "a"),
        ordered(Some(2), "b"),
        ordered(Some(1), "c"),
        ordered(None, "d"),
        ordered(Some(2), "e"),
    ];
    assert_eq!(tags(&sort_commands(&commands)), vec!["c", "b", "e", "a", "d"]);
}

#[test]
fn sorting_no_commands_gives_none() {
    assert!(sort_commands(&vec![]).is_empty());
}

#[test]
fn session_names_and_event() {
    let mut up = UpCommand::default();
    assert!(up.session_names().is_empty());
    assert_eq!(up.event(), Err(DemoUpError::MissingRequiredField(RequiredField::Event)));
    up.session_names = Some(vec!["SRE10".to_string()]);
    up.event = Some("evt".to_string());
    assert_eq!(up.session_names(), vec!["SRE10".to_string()]);
    assert_eq!(up.event(), Ok("evt".to_string()));
}

#[test]
fn excluding_videos_skips_only_videos() {
    let actions = up_with(&["Videos"]).plan(&config_of(full_session()), "/work").unwrap();
    let mut cli = CliCommand::default();
    cli.subcommand = Some("group create".to_string());
    let expected = vec![
        Action::SetSubscription { subscription: "sub1".to_string() },
        create("/work/SRE30"),
        create("/work/SRE30/slides"),
        Action::Download {
            url: "https://x.test/slides/s.pptx".to_string(),
            directory: "/work/SRE30/slides".to_string(),
            file_name: "deck.pptx".to_string(),
        },
        create("/work/SRE30/src"),
        Action::CloneRepository {
            url: "https://github.com/org/demo".to_string(),
            target: "/work/SRE30/src/demo".to_string(),
        },
        Action::RunCli {
            cli,
            resource_group: Some("SRE30-evt".to_string()),
            location: None,
        },
    ];
    assert_eq!(actions, expected);
}

#[test]
fn full_plan_fetches_videos_under_their_names() {
    let actions = up_with(&[]).plan(&config_of(full_session()), "/work").unwrap();
    assert_eq!(actions.len(), 9);
    assert_eq!(actions[4], create("/work/SRE30/videos"));
    assert_eq!(
        actions[5],
        Action::Download {
            url: "https://x.test/v/intro.mp4".to_string(),
            directory: "/work/SRE30/videos".to_string(),
            file_name: "intro.mp4".to_string(),
        }
    );
}

#[test]
fn excluding_commands_skips_the_subscription_too() {
    let mut config = config_of(full_session());
    config.subscription = None;
    let actions = up_with(&["Commands", "Slides", "GitRepos"]).plan(&config, "/w").unwrap();
    assert_eq!(
        actions,
        vec![
            create("/w/SRE30"),
            create("/w/SRE30/videos"),
            Action::Download {
                url: "https://x.test/v/intro.mp4".to_string(),
                directory: "/w/SRE30/videos".to_string(),
                file_name: "intro.mp4".to_string(),
            },
        ]
    );
}

#[test]
fn end_to_end_runs_commands_in_order() {
    let mut cli = CliCommand::default();
    cli.subcommand = Some("group create".to_string());
    cli.parameters = Some(vec![]);
    let mut second = Command::default();
    second.order = Some(2);
    second.cli = Some(cli.clone());
    let mut template = ArmTemplate::default();
    template.path = Some("t.json".to_string());
    let mut first = Command::default();
    first.order = Some(1);
    first.template = Some(template.clone());
    let mut session = Session::default();
    session.name = Some("SRE30".to_string());
    session.commands = Some(vec![second, first]);
    let mut up = UpCommand::default();
    up.event = Some("evt".to_string());
    let actions = up.plan(&config_of(session), "/w").unwrap();
    assert_eq!(
        actions,
        vec![
            Action::SetSubscription { subscription: "sub1".to_string() },
            create("/w/SRE30"),
            Action::DeployTemplate {
                template,
                resource_group: Some("SRE30-evt".to_string()),
                location: None,
            },
            Action::RunCli { cli, resource_group: Some("SRE30-evt".to_string()), location: None },
        ]
    );
}

#[test]
fn command_with_both_deploys_then_runs() {
    let mut c = Command::default();
    c.template = Some(ArmTemplate::default());
    c.cli = Some(CliCommand::default());
    let mut session = Session::default();
    session.name = Some("S".to_string());
    session.commands = Some(vec![c]);
    let actions = up_with(&[]).plan(&config_of(session), "/w").unwrap();
    assert_eq!(actions.len(), 4);
    assert!(matches!(actions[2], Action::DeployTemplate { .. }));
    assert!(matches!(actions[3], Action::RunCli { .. }));
}

#[test]
fn missing_subscription_is_an_error() {
    let mut config = config_of(full_session());
    config.subscription = None;
    assert_eq!(
        up_with(&[]).plan(&config, "/w"),
        Err(DemoUpError::MissingRequiredField(RequiredField::Subscription))
    );
}

#[test]
fn nameless_session_is_an_error() {
    let mut session = full_session();
    session.name = None;
    assert_eq!(
        up_with(&[]).plan(&config_of(session), "/w"),
        Err(DemoUpError::MissingRequiredField(RequiredField::SessionName))
    );
}

#[test]
fn download_without_url_is_an_error() {
    let mut session = full_session();
    session.slides = Some(FileDownload::default());
    assert_eq!(
        up_with(&[]).plan(&config_of(session.clone()), "/w"),
        Err(DemoUpError::MissingRequiredField(RequiredField::DownloadUrl))
    );
    assert!(up_with(&["Slides"]).plan(&config_of(session), "/w").is_ok());
}

#[test]
fn invalid_repository_url_is_an_error() {
    let mut session = full_session();
    session.git_repos = Some(vec!["not a url".to_string()]);
    assert_eq!(up_with(&[]).plan(&config_of(session), "/w"), Err(DemoUpError::InvalidUrl));
}
