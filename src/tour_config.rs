use crate::command::default_resource_group;
use crate::error::{DemoUpError, RequiredField};
use crate::session::{listed_commands, resolve_session, Session, SessionView};
use crate::up::UpCommand;
use vstd::prelude::*;

verus! {

/// The stored configuration: the subscription to provision into and the
/// sessions of the event.
#[derive(Debug, PartialEq, Eq)]
pub struct TourConfig {
    pub subscription: Option<String>,
    pub sessions: Option<Vec<Session>>,
}

/// The mathematical model of a stored configuration.
pub struct ConfigView {
    pub subscription: Option<Seq<char>>,
    pub sessions: Option<Seq<SessionView>>,
}

impl View for TourConfig {
    type V = ConfigView;

    open spec fn view(&self) -> ConfigView {
        ConfigView {
            subscription: self.subscription.deep_view(),
            sessions: self.sessions.deep_view(),
        }
    }
}

impl ConfigView {
    /// Every session of the configuration is well formed.
    pub open spec fn well_formed(self) -> bool {
        forall|k: int|
            0 <= k < listed_sessions(self.sessions).len() ==> (#[trigger] listed_sessions(
                self.sessions,
            )[k]).well_formed()
    }
}

/// The sessions of a configuration, none where it lists none.
pub open spec fn listed_sessions(sessions: Option<Seq<SessionView>>) -> Seq<SessionView> {
    match sessions {
        Some(s) => s,
        None => Seq::empty(),
    }
}

/// The names of a filter, none where there is no filter.
pub open spec fn listed_names(names: Option<Seq<Seq<char>>>) -> Seq<Seq<char>> {
    match names {
        Some(n) => n,
        None => Seq::empty(),
    }
}

/// The session has a name, and `names` lists it.
pub open spec fn named_in(s: SessionView, names: Seq<Seq<char>>) -> bool {
    s.name matches Some(n) && names.contains(n)
}

/// The sessions that `names` lists, in their order.
pub open spec fn filter_by_name(sessions: Seq<SessionView>, names: Seq<Seq<char>>) -> Seq<
    SessionView,
> {
    sessions.filter(|s: SessionView| named_in(s, names))
}

/// The sessions that a run covers: all of them without a filter, else those
/// that the filter names.
pub open spec fn selected_sessions(sessions: Seq<SessionView>, names: Seq<Seq<char>>) -> Seq<
    SessionView,
> {
    if names.len() == 0 {
        sessions
    } else {
        filter_by_name(sessions, names)
    }
}

/// The subscription after a run's override: a non-empty runtime value wins.
pub open spec fn resolve_subscription(current: Option<Seq<char>>, runtime: Seq<char>) -> Option<
    Seq<char>,
> {
    if runtime.len() > 0 {
        Some(runtime)
    } else {
        current
    }
}

/// Each session with its commands' defaults filled in.
pub open spec fn resolve_sessions(
    sessions: Seq<SessionView>,
    event: Option<Seq<char>>,
    location: Option<Seq<char>>,
) -> Seq<SessionView> {
    sessions.map_values(|s: SessionView| resolve_session(s, event, location))
}

/// The configuration that a run works from: the subscription overridden, the
/// sessions selected by name and their commands defaulted.
pub open spec fn resolve_config(
    c: ConfigView,
    subscription: Seq<char>,
    event: Option<Seq<char>>,
    location: Option<Seq<char>>,
    names: Seq<Seq<char>>,
) -> ConfigView {
    ConfigView {
        subscription: resolve_subscription(c.subscription, subscription),
        sessions: Some(
            resolve_sessions(selected_sessions(listed_sessions(c.sessions), names), event, location),
        ),
    }
}

/// A copy of a list of sessions.
pub(crate) fn clone_sessions(sessions: &Vec<Session>) -> (r: Vec<Session>)
    ensures
        r.deep_view() == sessions.deep_view(),
{
    let mut copy: Vec<Session> = Vec::new();
    let mut i: usize = 0;
    while i < sessions.len()
        invariant
            i <= sessions.len(),
            copy.deep_view() == sessions.deep_view().take(i as int),
        decreases sessions.len() - i,
    {
        let s = sessions[i].clone();
        let ghost before = copy.deep_view();
        copy.push(s);
        proof {
            assert(copy.deep_view() =~= before.push(sessions[i as int]@));
            assert(sessions.deep_view().take(i + 1) =~= sessions.deep_view().take(i as int).push(
                sessions[i as int]@,
            ));
        }
        i = i + 1;
    }
    proof {
        assert(sessions.deep_view().take(sessions.len() as int) =~= sessions.deep_view());
    }
    copy
}

/// Whether `names` lists `name`.
pub(crate) fn contains_name(names: &[String], name: &String) -> (r: bool)
    ensures
        r == names.deep_view().contains(name@),
{
    let mut i: usize = 0;
    while i < names.len()
        invariant
            i <= names.len(),
            forall|k: int| 0 <= k < i ==> names.deep_view()[k] != name@,
        decreases names.len() - i,
    {
        if names[i] == *name {
            proof {
                assert(names.deep_view()[i as int] == name@);
            }
            return true;
        }
        i = i + 1;
    }
    proof {
        assert forall|k: int| 0 <= k < names.deep_view().len() implies names.deep_view()[k]
            != name@ by {}
    }
    false
}

/// The sessions with their commands' defaults filled in.
pub(crate) fn update_sessions(
    sessions: Vec<Session>,
    event: &Option<String>,
    location: &Option<String>,
) -> (r: Vec<Session>)
    ensures
        r.deep_view() == resolve_sessions(
            sessions.deep_view(),
            event.deep_view(),
            location.deep_view(),
        ),
{
    let mut resolved: Vec<Session> = Vec::new();
    let mut i: usize = 0;
    while i < sessions.len()
        invariant
            i <= sessions.len(),
            resolved.deep_view() == resolve_sessions(
                sessions.deep_view().take(i as int),
                event.deep_view(),
                location.deep_view(),
            ),
        decreases sessions.len() - i,
    {
        let mut s = sessions[i].clone();
        s.update(event, location);
        let ghost before = resolved.deep_view();
        resolved.push(s);
        proof {
            assert(resolved.deep_view() =~= before.push(s@));
            assert(sessions.deep_view().take(i + 1) =~= sessions.deep_view().take(i as int).push(
                sessions[i as int]@,
            ));
            assert(resolve_sessions(
                sessions.deep_view().take(i + 1),
                event.deep_view(),
                location.deep_view(),
            ) =~= before.push(s@));
        }
        i = i + 1;
    }
    proof {
        assert(sessions.deep_view().take(sessions.len() as int) =~= sessions.deep_view());
    }
    resolved
}

/// The subscription after a run's override: a non-empty runtime value wins.
pub(crate) fn override_subscription(current: &Option<String>, runtime: &String) -> (r: Option<String>)
    ensures
        r.deep_view() == resolve_subscription(current.deep_view(), runtime@),
{
    if runtime.as_str().is_empty() {
        current.clone()
    } else {
        Some(runtime.clone())
    }
}

/// A filter that every element passes keeps the sequence as it is.
proof fn lemma_filter_keeps_all(s: Seq<SessionView>, keep: spec_fn(SessionView) -> bool)
    requires
        forall|k: int| 0 <= k < s.len() ==> #[trigger] keep(s[k]),
    ensures
        s.filter(keep) == s,
    decreases s.len(),
{
    reveal(Seq::filter);
    if s.len() > 0 {
        lemma_filter_keeps_all(s.drop_last(), keep);
        assert(s.drop_last().push(s.last()) =~= s);
    }
}

/// Defaulting a session's commands a second time changes nothing.
proof fn lemma_resolve_session_idempotent(
    s: SessionView,
    event: Option<Seq<char>>,
    location: Option<Seq<char>>,
)
    ensures
        resolve_session(resolve_session(s, event, location), event, location) == resolve_session(
            s,
            event,
            location,
        ),
{
    let once = resolve_session(s, event, location);
    let twice = resolve_session(once, event, location);
    assert(listed_commands(twice.commands) =~= listed_commands(once.commands));
}

/// A session keeps its name when its commands are defaulted.
proof fn lemma_resolve_sessions_keeps_names(
    sessions: Seq<SessionView>,
    event: Option<Seq<char>>,
    location: Option<Seq<char>>,
    k: int,
)
    requires
        0 <= k < sessions.len(),
    ensures
        resolve_sessions(sessions, event, location)[k].name == sessions[k].name,
{
}

/// A non-empty runtime subscription becomes the resolved subscription,
/// whatever the configuration held, in particular where it held none.
pub proof fn lemma_runtime_subscription_wins(
    c: ConfigView,
    subscription: Seq<char>,
    event: Option<Seq<char>>,
    location: Option<Seq<char>>,
    names: Seq<Seq<char>>,
)
    requires
        subscription.len() > 0,
    ensures
        resolve_config(c, subscription, event, location, names).subscription == Some(subscription),
{
}

/// After resolution, each command of a named session that had no resource
/// group has `{session}-{event}`.
pub proof fn lemma_default_resource_group(
    c: ConfigView,
    subscription: Seq<char>,
    event: Seq<char>,
    location: Option<Seq<char>>,
    names: Seq<Seq<char>>,
    i: int,
    j: int,
)
    requires
        0 <= i < selected_sessions(listed_sessions(c.sessions), names).len(),
        selected_sessions(listed_sessions(c.sessions), names)[i].name is Some,
        0 <= j < listed_commands(selected_sessions(listed_sessions(c.sessions), names)[i].commands).len(),
        listed_commands(
            selected_sessions(listed_sessions(c.sessions), names)[i].commands,
        )[j].resource_group is None,
    ensures
        ({
            let session = selected_sessions(listed_sessions(c.sessions), names)[i];
            let resolved = resolve_config(c, subscription, Some(event), location, names);
            listed_commands(listed_sessions(resolved.sessions)[i].commands)[j].resource_group
                == Some(default_resource_group(session.name->0, event))
        }),
{
}

/// Resolution keeps a well-formed configuration well formed: it never touches
/// a command's named arguments.
pub proof fn lemma_resolve_keeps_well_formed(
    c: ConfigView,
    subscription: Seq<char>,
    event: Option<Seq<char>>,
    location: Option<Seq<char>>,
    names: Seq<Seq<char>>,
)
    requires
        c.well_formed(),
    ensures
        resolve_config(c, subscription, event, location, names).well_formed(),
{
    let listed = listed_sessions(c.sessions);
    let selected = selected_sessions(listed, names);
    assert forall|k: int| 0 <= k < selected.len() implies (#[trigger] selected[k]).well_formed() by {
        if names.len() > 0 {
            let keep = |s: SessionView| named_in(s, names);
            assert(listed.filter(keep).contains(selected[k]));
            listed.lemma_filter_contains_rev(keep, selected[k]);
            let m = choose|m: int| 0 <= m < listed.len() && listed[m] == selected[k];
            assert(listed[m].well_formed());
        }
    }
    let resolved = resolve_sessions(selected, event, location);
    assert forall|k: int| 0 <= k < resolved.len() implies (#[trigger] resolved[k]).well_formed() by {
        let s = selected[k];
        assert(s.well_formed());
        let commands = listed_commands(resolved[k].commands);
        assert forall|m: int| 0 <= m < commands.len() implies (#[trigger] commands[m]).well_formed() by {
            assert(listed_commands(s.commands)[m].well_formed());
        }
    }
}

/// Resolving a configuration twice with the same parameters gives what
/// resolving it once gives.
pub proof fn lemma_resolve_idempotent(
    c: ConfigView,
    subscription: Seq<char>,
    event: Option<Seq<char>>,
    location: Option<Seq<char>>,
    names: Seq<Seq<char>>,
)
    ensures
        resolve_config(
            resolve_config(c, subscription, event, location, names),
            subscription,
            event,
            location,
            names,
        ) == resolve_config(c, subscription, event, location, names),
{
    let selected = selected_sessions(listed_sessions(c.sessions), names);
    let once = resolve_sessions(selected, event, location);
    if names.len() > 0 {
        let keep = |s: SessionView| named_in(s, names);
        assert forall|k: int| 0 <= k < once.len() implies #[trigger] keep(once[k]) by {
            listed_sessions(c.sessions).lemma_filter_pred(keep, k);
            lemma_resolve_sessions_keeps_names(selected, event, location, k);
        }
        lemma_filter_keeps_all(once, keep);
    }
    assert(selected_sessions(once, names) == once);
    assert forall|k: int| 0 <= k < once.len() implies #[trigger] resolve_session(
        once[k],
        event,
        location,
    ) == once[k] by {
        lemma_resolve_session_idempotent(selected[k], event, location);
    }
    assert(resolve_sessions(once, event, location) =~= once);
}

impl TourConfig {
    /// The sessions whose names `session_names` lists, in their order.
    pub fn filter_sessions(&self, session_names: &[String]) -> (r: Vec<Session>)
        ensures
            r.deep_view() == filter_by_name(listed_sessions(self@.sessions), session_names.deep_view()),
    {
        let sessions = self.sessions();
        let ghost all = sessions.deep_view();
        let ghost keep = |s: SessionView| named_in(s, session_names.deep_view());
        let mut kept: Vec<Session> = Vec::new();
        let mut i: usize = 0;
        while i < sessions.len()
            invariant
                i <= sessions.len(),
                all == sessions.deep_view(),
                keep == (|s: SessionView| named_in(s, session_names.deep_view())),
                kept.deep_view() == all.take(i as int).filter(keep),
            decreases sessions.len() - i,
        {
            let s = &sessions[i];
            let wanted = match &s.name {
                Some(n) => contains_name(session_names, n),
                None => false,
            };
            let ghost before = kept.deep_view();
            if wanted {
                kept.push(s.clone());
                proof {
                    assert(kept.deep_view() =~= before.push(s@));
                }
            }
            proof {
                reveal(Seq::filter);
                assert(all.take(i + 1).drop_last() =~= all.take(i as int));
                assert(keep(s@) == wanted);
            }
            i = i + 1;
        }
        proof {
            assert(all.take(sessions.len() as int) =~= all);
        }
        kept
    }

    /// The configuration that a run works from: a non-empty runtime
    /// subscription overrides the stored one; only the sessions that the run
    /// names are kept (all of them where it names none); and each kept
    /// command without a resource group or location gets
    /// `{session}-{event}` and the runtime location.
    pub fn update(&self, cli_args: &UpCommand) -> (r: TourConfig)
        ensures
            r@ == resolve_config(
                self@,
                cli_args.subscription@,
                cli_args.event.deep_view(),
                cli_args.location.deep_view(),
                listed_names(cli_args.session_names.deep_view()),
            ),
            self@.well_formed() ==> r@.well_formed(),
    {
        proof {
            if self@.well_formed() {
                lemma_resolve_keeps_well_formed(
                    self@,
                    cli_args.subscription@,
                    cli_args.event.deep_view(),
                    cli_args.location.deep_view(),
                    listed_names(cli_args.session_names.deep_view()),
                );
            }
        }
        let subscription = override_subscription(&self.subscription, &cli_args.subscription);
        let names = cli_args.session_names();
        let selected = if names.len() == 0 {
            self.sessions()
        } else {
            self.filter_sessions(names.as_slice())
        };
        let sessions = update_sessions(selected, &cli_args.event, &cli_args.location);
        TourConfig { subscription, sessions: Some(sessions) }
    }

    /// The subscription, which a run that executes commands needs.
    pub fn subscription(&self) -> (r: Result<String, DemoUpError>)
        ensures
            match self.subscription {
                Some(s) => r == Ok::<String, DemoUpError>(s),
                None => r == Err::<String, DemoUpError>(
                    DemoUpError::MissingRequiredField(RequiredField::Subscription),
                ),
            },
    {
        match &self.subscription {
            Some(s) => Ok(s.clone()),
            None => Err(DemoUpError::MissingRequiredField(RequiredField::Subscription)),
        }
    }

    /// The sessions; none where the configuration lists none.
    pub fn sessions(&self) -> (r: Vec<Session>)
        ensures
            r.deep_view() == listed_sessions(self@.sessions),
    {
        match &self.sessions {
            Some(s) => clone_sessions(s),
            None => Vec::new(),
        }
    }
}

impl Clone for TourConfig {
    fn clone(&self) -> (r: Self)
        ensures
            r@ == self@,
    {
        let sessions = match &self.sessions {
            Some(s) => Some(clone_sessions(s)),
            None => None,
        };
        TourConfig { subscription: self.subscription.clone(), sessions }
    }
}

impl Default for TourConfig {
    fn default() -> (r: Self)
        ensures
            r.subscription is None,
            r.sessions is None,
    {
        TourConfig { subscription: None, sessions: None }
    }
}

} // verus!
