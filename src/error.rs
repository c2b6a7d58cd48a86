use vstd::prelude::*;

verus! {

/// A field that the configuration may leave out but that some step needs.
#[derive(Clone, Copy, Debug, PartialEq, Eq, Structural)]
pub enum RequiredField {
    SessionName,
    Subscription,
    Event,
    Subcommand,
    TemplatePath,
    TemplateUrl,
    DownloadUrl,
}

/// Why a configuration cannot be used as it stands.
#[derive(Clone, Copy, Debug, PartialEq, Eq, Structural)]
pub enum DemoUpError {
    /// A value that the step needs is absent.
    MissingRequiredField(RequiredField),
    /// A download or repository location does not parse as a URL.
    InvalidUrl,
    /// An explicit resource group does not render as a template.
    ResourceGroupTemplate,
}

} // verus!
