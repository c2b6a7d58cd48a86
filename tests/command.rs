use demo_up::{ArmTemplate, CliArgs, CliCommand, Command, DemoUpError, RequiredField};

fn args() -> CliArgs {
    CliArgs {
        subscription: "sub".to_string(),
        event: "evt".to_string(),
        location: "eastus".to_string(),
    }
}

#[test]
fn order_defaults_to_the_largest_value() {
    let mut c = Command::default();
    assert_eq!(c.order(), u32::MAX);
    c.order = Some(7);
    assert_eq!(c.order(), 7);
}

#[test]
fn cli_parameters_alternate_flags_and_values() {
    let cli = CliCommand {
        subcommand: Some("group create".to_string()),
        parameters: Some(vec![
            ("name".to_string(), "rg1".to_string()),
            ("location".to_string(), "eastus".to_string()),
        ]),
    };
    assert_eq!(cli.parameters(), vec!["--name", "rg1", "--location", "eastus"]);
    assert_eq!(cli.subcommand(), Ok("group create".to_string()));
    assert!(CliCommand::default().parameters().is_empty());
}

#[test]
fn cli_subcommand_is_required() {
    assert_eq!(
        CliCommand::default().subcommand(),
        Err(DemoUpError::MissingRequiredField(RequiredField::Subcommand))
    );
}

#[test]
fn template_parameters_are_assignments() {
    let template = ArmTemplate {
        path: Some("t.json".to_string()),
        url: None,
        parameters: Some(vec![
            ("sku".to_string(), "basic".to_string()),
            ("size".to_string(), "2".to_string()),
        ]),
    };
    assert_eq!(template.parameters(), vec!["sku=basic", "size=2"]);
    assert_eq!(template.path(), Ok("t.json".to_string()));
    assert_eq!(
        template.url(),
        Err(DemoUpError::MissingRequiredField(RequiredField::TemplateUrl))
    );
    assert_eq!(
        ArmTemplate::default().path(),
        Err(DemoUpError::MissingRequiredField(RequiredField::TemplatePath))
    );
}

#[test]
fn cli_and_template_default_to_empty() {
    let c = Command::default();
    assert_eq!(c.cli(), CliCommand::default());
    assert_eq!(c.template(), ArmTemplate::default());
}

#[test]
fn resource_group_defaults_to_session_and_event() {
    let c = Command::default();
    assert_eq!(c.resource_group("SRE30", &args()), Ok("SRE30-evt".to_string()));
}

#[test]
fn explicit_resource_group_is_rendered_as_a_template() {
    let mut c = Command::default();
    c.resource_group = Some("{{event}}-{{location}}-rg".to_string());
    assert_eq!(c.resource_group("SRE30", &args()), Ok("evt-eastus-rg".to_string()));
    c.resource_group = Some("plain-rg".to_string());
    assert_eq!(c.resource_group("SRE30", &args()), Ok("plain-rg".to_string()));
}

#[test]
fn unrenderable_resource_group_is_an_error() {
    let mut c = Command::default();
    c.resource_group = Some("{{#if}}".to_string());
    assert_eq!(c.resource_group("SRE30", &args()), Err(DemoUpError::ResourceGroupTemplate));
}

#[test]
fn update_keeps_set_fields_and_fills_unset_ones() {
    let mut c = Command::default();
    c.location = Some("westus".to_string());
    c.update(&Some("SRE30".to_string()), &Some("evt".to_string()), &Some("eastus".to_string()));
    assert_eq!(c.resource_group, Some("SRE30-evt".to_string()));
    assert_eq!(c.location, Some("westus".to_string()));
    let mut nameless = Command::default();
    nameless.update(&None, &Some("evt".to_string()), &Some("eastus".to_string()));
    assert_eq!(nameless.resource_group, None);
    assert_eq!(nameless.location, Some("eastus".to_string()));
}

#[test]
fn self_including_partial_is_refused() {
    let mut c = Command::default();
    c.resource_group = Some("{{#*inline \"a\"}}{{> a}}{{/inline}}{{> a}}".to_string());
    assert_eq!(c.resource_group("SRE30", &args()), Err(DemoUpError::ResourceGroupTemplate));
}

#[test]
fn partial_and_decorator_tags_are_refused_in_any_spacing() {
    for template in ["{{> a}}", "{{~ > a}}", "{{#> a}}{{/a}}", "{{ * d}}", "{{~#*inline \"a\"}}{{/inline}}"] {
        let mut c = Command::default();
        c.resource_group = Some(template.to_string());
        assert_eq!(c.resource_group("SRE30", &args()), Err(DemoUpError::ResourceGroupTemplate));
    }
}

#[test]
fn angle_and_star_outside_tags_are_rendered() {
    let mut c = Command::default();
    c.resource_group = Some("a*b>{{event}}".to_string());
    assert_eq!(c.resource_group("SRE30", &args()), Ok("a*b>evt".to_string()));
}
