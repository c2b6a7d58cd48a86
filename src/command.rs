use crate::arm_template::{ArmTemplate, ArmTemplateView};
use crate::cli_args::CliArgs;
use crate::cli_command::{CliCommand, CliCommandView};
use crate::error::DemoUpError;
use crate::template_tags::{has_partial_or_decorator_tag, holds_partial_or_decorator_tag};
use vstd::prelude::*;
use vstd::string::*;

verus! {

/// One provisioning step: a template deployment, a CLI invocation, or both,
/// placed by `order` and aimed at a resource group and a location.
#[derive(Debug, PartialEq, Eq)]
pub struct Command {
    pub order: Option<u32>,
    pub resource_group: Option<String>,
    pub location: Option<String>,
    pub cli: Option<CliCommand>,
    pub template: Option<ArmTemplate>,
}

/// The mathematical model of a [`Command`].
pub struct CommandView {
    pub order: Option<u32>,
    pub resource_group: Option<Seq<char>>,
    pub location: Option<Seq<char>>,
    pub cli: Option<CliCommandView>,
    pub template: Option<ArmTemplateView>,
}

impl View for Command {
    type V = CommandView;

    open spec fn view(&self) -> CommandView {
        CommandView {
            order: self.order,
            resource_group: self.resource_group.deep_view(),
            location: self.location.deep_view(),
            cli: self.cli.deep_view(),
            template: self.template.deep_view(),
        }
    }
}

impl DeepView for Command {
    type V = CommandView;

    open spec fn deep_view(&self) -> CommandView {
        self.view()
    }
}

impl CommandView {
    /// The command's CLI invocation and template give each name once.
    pub open spec fn well_formed(self) -> bool {
        &&& self.cli matches Some(c) ==> c.well_formed()
        &&& self.template matches Some(t) ==> t.well_formed()
    }
}

/// The place of a command in execution order: its `order`, or the largest
/// value when it has none.
pub open spec fn order_key(c: CommandView) -> u32 {
    match c.order {
        Some(o) => o,
        None => u32::MAX,
    }
}

/// The resource group of a command that names none: `{session}-{event}`.
pub open spec fn default_resource_group(session_name: Seq<char>, event: Seq<char>) -> Seq<char> {
    session_name + seq!['-'] + event
}

/// A command with its unset resource group and location filled in, where a
/// default exists; fields already set are kept.
pub open spec fn resolve_command(
    c: CommandView,
    session_name: Option<Seq<char>>,
    event: Option<Seq<char>>,
    location: Option<Seq<char>>,
) -> CommandView {
    CommandView {
        resource_group: match (c.resource_group, session_name, event) {
            (Some(rg), _, _) => Some(rg),
            (None, Some(name), Some(event)) => Some(default_resource_group(name, event)),
            _ => None,
        },
        location: match c.location {
            Some(l) => Some(l),
            None => location,
        },
        ..c
    }
}

/// What rendering `template` as a handlebars template yields, with the data
/// `{subscription, event, location}`; `None` where rendering fails.
pub uninterp spec fn rendered_template(
    template: Seq<char>,
    subscription: Seq<char>,
    event: Seq<char>,
    location: Seq<char>,
) -> Option<Seq<char>>;

/// Relies on `handlebars::Handlebars::render_template`, on a fresh registry,
/// with the three runtime values as the template's data: the outcome depends
/// on the template and those values alone. A template without partial or
/// decorator tags cannot include itself, so rendering it returns.
#[verifier::external_body]
fn render_template(template: &str, cli_args: &CliArgs) -> (r: Option<String>)
    requires
        !has_partial_or_decorator_tag(template@),
    ensures
        r.deep_view() == rendered_template(
            template@,
            cli_args.subscription@,
            cli_args.event@,
            cli_args.location@,
        ),
{
    let data: std::collections::BTreeMap<&str, &str> = [
        ("subscription", cli_args.subscription.as_str()),
        ("event", cli_args.event.as_str()),
        ("location", cli_args.location.as_str()),
    ].into_iter().collect();
    handlebars::Handlebars::new().render_template(template, &data).ok()
}

/// `{session}-{event}`.
fn default_resource_group_name(session_name: &str, event: &str) -> (r: String)
    ensures
        r@ == default_resource_group(session_name@, event@),
{
    let mut name = String::from_str(session_name);
    name.append("-");
    name.append(event);
    proof {
        reveal_strlit("-");
        assert("-"@ =~= seq!['-']);
    }
    name
}

impl Command {
    /// The CLI invocation, or an empty one where the command has none.
    pub fn cli(&self) -> (r: CliCommand)
        ensures
            match self.cli {
                Some(c) => r@ == c@,
                None => r.subcommand is None && r.parameters is None,
            },
    {
        match &self.cli {
            Some(c) => c.clone(),
            None => CliCommand::default(),
        }
    }

    /// The template deployment, or an empty one where the command has none.
    pub fn template(&self) -> (r: ArmTemplate)
        ensures
            match self.template {
                Some(t) => r@ == t@,
                None => r.path is None && r.url is None && r.parameters is None,
            },
    {
        match &self.template {
            Some(t) => t.clone(),
            None => ArmTemplate::default(),
        }
    }

    /// The command's place in execution order; commands without one go last.
    pub fn order(&self) -> (r: u32)
        ensures
            r == order_key(self@),
    {
        match self.order {
            Some(o) => o,
            None => u32::MAX,
        }
    }

    /// The resource group to deploy into: an explicit one rendered as a
    /// handlebars template over the runtime values, else `{session}-{event}`.
    /// An explicit one that holds a partial or decorator tag is refused.
    pub fn resource_group(&self, session_name: &str, cli_args: &CliArgs) -> (r: Result<
        String,
        DemoUpError,
    >)
        ensures
            match self.resource_group {
                Some(t) => if has_partial_or_decorator_tag(t@) {
                    r == Err::<String, DemoUpError>(DemoUpError::ResourceGroupTemplate)
                } else {
                    match rendered_template(
                        t@,
                        cli_args.subscription@,
                        cli_args.event@,
                        cli_args.location@,
                    ) {
                        Some(text) => r is Ok && r->Ok_0@ == text,
                        None => r == Err::<String, DemoUpError>(DemoUpError::ResourceGroupTemplate),
                    }
                },
                None => r is Ok && r->Ok_0@ == default_resource_group(
                    session_name@,
                    cli_args.event@,
                ),
            },
    {
        match &self.resource_group {
            Some(t) => {
                if holds_partial_or_decorator_tag(t.as_str()) {
                    return Err(DemoUpError::ResourceGroupTemplate);
                }
                match render_template(t.as_str(), cli_args) {
                    Some(text) => Ok(text),
                    None => Err(DemoUpError::ResourceGroupTemplate),
                }
            },
            None => Ok(default_resource_group_name(session_name, cli_args.event.as_str())),
        }
    }

    /// Fills in the resource group (from the session's name and the event)
    /// and the location, where they are unset and a default exists.
    pub fn update(
        &mut self,
        session_name: &Option<String>,
        event: &Option<String>,
        location: &Option<String>,
    )
        ensures
            final(self)@ == resolve_command(
                old(self)@,
                session_name.deep_view(),
                event.deep_view(),
                location.deep_view(),
            ),
    {
        if self.resource_group.is_none() {
            if let (Some(name), Some(event)) = (session_name, event) {
                self.resource_group = Some(
                    default_resource_group_name(name.as_str(), event.as_str()),
                );
            }
        }
        if self.location.is_none() {
            self.location = location.clone();
        }
    }
}

impl Clone for Command {
    fn clone(&self) -> (r: Self)
        ensures
            r@ == self@,
    {
        let cli = match &self.cli {
            Some(c) => Some(c.clone()),
            None => None,
        };
        let template = match &self.template {
            Some(t) => Some(t.clone()),
            None => None,
        };
        Command {
            order: self.order,
            resource_group: self.resource_group.clone(),
            location: self.location.clone(),
            cli,
            template,
        }
    }
}

impl Default for Command {
    fn default() -> (r: Self)
        ensures
            r.order is None,
            r.resource_group is None,
            r.location is None,
            r.cli is None,
            r.template is None,
    {
        Command { order: None, resource_group: None, location: None, cli: None, template: None }
    }
}

} // verus!
