use crate::cli_args::CliArgs;
use crate::error::{DemoUpError, RequiredField};
use crate::session::Session;
use crate::tour_config::{
    clone_sessions, lemma_resolve_keeps_well_formed, listed_sessions, override_subscription,
    resolve_config, update_sessions, ConfigView,
};
use vstd::prelude::*;

verus! {

/// A stored configuration for unfiltered runs: resolving it keeps every
/// session and always has a location to default to.
#[derive(Debug, PartialEq, Eq)]
pub struct Config {
    pub subscription: Option<String>,
    pub sessions: Option<Vec<Session>>,
}

impl View for Config {
    type V = ConfigView;

    open spec fn view(&self) -> ConfigView {
        ConfigView {
            subscription: self.subscription.deep_view(),
            sessions: self.sessions.deep_view(),
        }
    }
}

impl Config {
    /// The configuration that a run works from: a non-empty runtime
    /// subscription overrides the stored one, and every command without a
    /// resource group or location gets `{session}-{event}` and the runtime
    /// location.
    pub fn update(&self, cli_args: &CliArgs) -> (r: Config)
        ensures
            r@ == resolve_config(
                self@,
                cli_args.subscription@,
                Some(cli_args.event@),
                Some(cli_args.location@),
                Seq::empty(),
            ),
            self@.well_formed() ==> r@.well_formed(),
    {
        proof {
            if self@.well_formed() {
                lemma_resolve_keeps_well_formed(
                    self@,
                    cli_args.subscription@,
                    Some(cli_args.event@),
                    Some(cli_args.location@),
                    Seq::empty(),
                );
            }
        }
        let subscription = override_subscription(&self.subscription, &cli_args.subscription);
        let event = Some(cli_args.event.clone());
        let location = Some(cli_args.location.clone());
        let sessions = update_sessions(self.sessions(), &event, &location);
        Config { subscription, sessions: Some(sessions) }
    }

    /// The subscription, which a run that executes commands needs.
    pub fn subscription(&self) -> (r: Result<String, DemoUpError>)
        ensures
            match self.subscription {
                Some(s) => r == Ok::<String, DemoUpError>(s),
                None => r == Err::<String, DemoUpError>(
                    DemoUpError::MissingRequiredField(RequiredField::Subscription),
                ),
            },
    {
        match &self.subscription {
            Some(s) => Ok(s.clone()),
            None => Err(DemoUpError::MissingRequiredField(RequiredField::Subscription)),
        }
    }

    /// The sessions; none where the configuration lists none.
    pub fn sessions(&self) -> (r: Vec<Session>)
        ensures
            r.deep_view() == listed_sessions(self@.sessions),
    {
        match &self.sessions {
            Some(s) => clone_sessions(s),
            None => Vec::new(),
        }
    }
}

impl Clone for Config {
    fn clone(&self) -> (r: Self)
        ensures
            r@ == self@,
    {
        let sessions = match &self.sessions {
            Some(s) => Some(clone_sessions(s)),
            None => None,
        };
        Config { subscription: self.subscription.clone(), sessions }
    }
}

impl Default for Config {
    fn default() -> (r: Self)
        ensures
            r.subscription is None,
            r.sessions is None,
    {
        Config { subscription: None, sessions: None }
    }
}

} // verus!
