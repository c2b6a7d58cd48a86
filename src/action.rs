use crate::arm_template::{ArmTemplate, ArmTemplateView};
use crate::cli_command::{CliCommand, CliCommandView};
use vstd::prelude::*;

verus! {

/// One side effect of a setup run. The run performs its actions in order and
/// stops at the first that fails.
#[derive(Clone, Debug, PartialEq, Eq)]
pub enum Action {
    /// Make `subscription` the active cloud subscription.
    SetSubscription { subscription: String },
    /// Create the directory `path`; one that exists already is no failure.
    CreateDirectory { path: String },
    /// Fetch `url` into `directory`, as `file_name`; an existing file is kept.
    Download { url: String, directory: String, file_name: String },
    /// Clone the repository at `url` into `target`; an existing clone is kept.
    CloneRepository { url: String, target: String },
    /// Deploy `template` into the resource group, at the location.
    DeployTemplate {
        template: ArmTemplate,
        resource_group: Option<String>,
        location: Option<String>,
    },
    /// Run the CLI invocation against the resource group, at the location.
    RunCli { cli: CliCommand, resource_group: Option<String>, location: Option<String> },
}

/// The mathematical model of an [`Action`].
pub enum ActionView {
    SetSubscription { subscription: Seq<char> },
    CreateDirectory { path: Seq<char> },
    Download { url: Seq<char>, directory: Seq<char>, file_name: Seq<char> },
    CloneRepository { url: Seq<char>, target: Seq<char> },
    DeployTemplate {
        template: ArmTemplateView,
        resource_group: Option<Seq<char>>,
        location: Option<Seq<char>>,
    },
    RunCli {
        cli: CliCommandView,
        resource_group: Option<Seq<char>>,
        location: Option<Seq<char>>,
    },
}

impl View for Action {
    type V = ActionView;

    open spec fn view(&self) -> ActionView {
        match self {
            Action::SetSubscription { subscription } => ActionView::SetSubscription {
                subscription: subscription@,
            },
            Action::CreateDirectory { path } => ActionView::CreateDirectory { path: path@ },
            Action::Download { url, directory, file_name } => ActionView::Download {
                url: url@,
                directory: directory@,
                file_name: file_name@,
            },
            Action::CloneRepository { url, target } => ActionView::CloneRepository {
                url: url@,
                target: target@,
            },
            Action::DeployTemplate { template, resource_group, location } =>
                ActionView::DeployTemplate {
                template: template@,
                resource_group: resource_group.deep_view(),
                location: location.deep_view(),
            },
            Action::RunCli { cli, resource_group, location } => ActionView::RunCli {
                cli: cli@,
                resource_group: resource_group.deep_view(),
                location: location.deep_view(),
            },
        }
    }
}

impl DeepView for Action {
    type V = ActionView;

    open spec fn deep_view(&self) -> ActionView {
        self.view()
    }
}

} // verus!
