use crate::action::{Action, ActionView};
use crate::command::{Command, CommandView};
use crate::download::{file_name_for, get_filename, parsed_url_path};
use crate::error::{DemoUpError, RequiredField};
use crate::file_download::{FileDownload, FileDownloadView};
use crate::ordering::{sort_by_order, sort_commands};
use crate::session::{Session, SessionView};
use crate::tour_config::{
    contains_name, listed_names, listed_sessions, resolve_config, ConfigView, TourConfig,
};
use vstd::prelude::*;
use vstd::string::*;

verus! {

/// The parameters of a setup run.
#[derive(Clone, Debug, PartialEq, Eq)]
pub struct UpCommand {
    pub config_path: String,
    pub subscription: String,
    pub event: Option<String>,
    pub session_names: Option<Vec<String>>,
    pub location: Option<String>,
    pub exclude: Option<Vec<String>>,
}

/// Whether a run that excludes `exclude` skips `section`.
pub open spec fn skips(exclude: Option<Seq<Seq<char>>>, section: Seq<char>) -> bool {
    exclude matches Some(e) && e.contains(section)
}

/// `dir/name`.
pub open spec fn join_path(dir: Seq<char>, name: Seq<char>) -> Seq<char> {
    dir + seq!['/'] + name
}

/// Two fallible steps in turn: the first one's error, else the second one's,
/// else the actions of both.
pub open spec fn then(
    first: Result<Seq<ActionView>, DemoUpError>,
    second: Result<Seq<ActionView>, DemoUpError>,
) -> Result<Seq<ActionView>, DemoUpError> {
    match first {
        Err(e) => Err(e),
        Ok(a) => match second {
            Err(e) => Err(e),
            Ok(b) => Ok(a + b),
        },
    }
}

/// A step that planned `plan` has appended its actions to `before`, giving
/// `after`, or has failed with the plan's error.
pub open spec fn appended(
    plan: Result<Seq<ActionView>, DemoUpError>,
    r: Result<(), DemoUpError>,
    before: Seq<ActionView>,
    after: Seq<ActionView>,
) -> bool {
    match plan {
        Ok(a) => r is Ok && after == before + a,
        Err(e) => r == Err::<(), DemoUpError>(e),
    }
}

/// Fetching one file into `directory`.
pub open spec fn download_plan(d: FileDownloadView, directory: Seq<char>) -> Result<
    Seq<ActionView>,
    DemoUpError,
> {
    match d.url {
        None => Err(DemoUpError::MissingRequiredField(RequiredField::DownloadUrl)),
        Some(url) => match parsed_url_path(url) {
            None => Err(DemoUpError::InvalidUrl),
            Some(path) => Ok(
                seq![
                    ActionView::Download {
                        url,
                        directory,
                        file_name: file_name_for(
                            path,
                            match d.file_name {
                                Some(n) => n,
                                None => Seq::empty(),
                            },
                        ),
                    },
                ],
            ),
        },
    }
}

/// Fetching each file into `directory`, in turn.
pub open spec fn downloads_plan(downloads: Seq<FileDownloadView>, directory: Seq<char>) -> Result<
    Seq<ActionView>,
    DemoUpError,
>
    decreases downloads.len(),
{
    if downloads.len() == 0 {
        Ok(Seq::empty())
    } else {
        then(
            downloads_plan(downloads.drop_last(), directory),
            download_plan(downloads.last(), directory),
        )
    }
}

/// Cloning each repository into `directory`, under the last segment of its
/// URL's path, in turn.
pub open spec fn clones_plan(urls: Seq<Seq<char>>, directory: Seq<char>) -> Result<
    Seq<ActionView>,
    DemoUpError,
>
    decreases urls.len(),
{
    if urls.len() == 0 {
        Ok(Seq::empty())
    } else {
        let url = urls.last();
        then(
            clones_plan(urls.drop_last(), directory),
            match parsed_url_path(url) {
                None => Err(DemoUpError::InvalidUrl),
                Some(path) => Ok(
                    seq![
                        ActionView::CloneRepository {
                            url,
                            target: join_path(directory, file_name_for(path, Seq::empty())),
                        },
                    ],
                ),
            },
        )
    }
}

/// A command's deployment, then its CLI invocation, each where it has one.
pub open spec fn command_actions(c: CommandView) -> Seq<ActionView> {
    (if c.template is Some {
        seq![
            ActionView::DeployTemplate {
                template: c.template->0,
                resource_group: c.resource_group,
                location: c.location,
            },
        ]
    } else {
        Seq::empty()
    }) + (if c.cli is Some {
        seq![
            ActionView::RunCli {
                cli: c.cli->0,
                resource_group: c.resource_group,
                location: c.location,
            },
        ]
    } else {
        Seq::empty()
    })
}

/// The actions of each command, in turn.
pub open spec fn commands_plan(commands: Seq<CommandView>) -> Seq<ActionView>
    decreases commands.len(),
{
    if commands.len() == 0 {
        Seq::empty()
    } else {
        commands_plan(commands.drop_last()) + command_actions(commands.last())
    }
}

/// The slides section of a session in `dir`.
pub open spec fn slides_plan(
    s: SessionView,
    dir: Seq<char>,
    exclude: Option<Seq<Seq<char>>>,
) -> Result<Seq<ActionView>, DemoUpError> {
    if s.slides is Some && !skips(exclude, "Slides"@) {
        let slides_dir = join_path(dir, "slides"@);
        then(
            Ok(seq![ActionView::CreateDirectory { path: slides_dir }]),
            download_plan(s.slides->0, slides_dir),
        )
    } else {
        Ok(Seq::empty())
    }
}

/// The videos section of a session in `dir`.
pub open spec fn videos_plan(
    s: SessionView,
    dir: Seq<char>,
    exclude: Option<Seq<Seq<char>>>,
) -> Result<Seq<ActionView>, DemoUpError> {
    if s.videos is Some && !skips(exclude, "Videos"@) {
        let videos_dir = join_path(dir, "videos"@);
        then(
            Ok(seq![ActionView::CreateDirectory { path: videos_dir }]),
            downloads_plan(s.videos->0, videos_dir),
        )
    } else {
        Ok(Seq::empty())
    }
}

/// The repositories section of a session in `dir`.
pub open spec fn repos_plan(
    s: SessionView,
    dir: Seq<char>,
    exclude: Option<Seq<Seq<char>>>,
) -> Result<Seq<ActionView>, DemoUpError> {
    if s.git_repos is Some && !skips(exclude, "GitRepos"@) {
        let source_dir = join_path(dir, "src"@);
        then(
            Ok(seq![ActionView::CreateDirectory { path: source_dir }]),
            clones_plan(s.git_repos->0, source_dir),
        )
    } else {
        Ok(Seq::empty())
    }
}

/// The commands section of a session: its commands in execution order.
pub open spec fn commands_section_plan(s: SessionView, exclude: Option<Seq<Seq<char>>>) -> Seq<
    ActionView,
> {
    if s.commands is Some && !skips(exclude, "Commands"@) {
        commands_plan(sort_by_order(s.commands->0))
    } else {
        Seq::empty()
    }
}

/// Setting up one session under `start`: its directory, then its slides,
/// videos, repositories and commands, each unless absent or excluded.
pub open spec fn session_plan(
    s: SessionView,
    start: Seq<char>,
    exclude: Option<Seq<Seq<char>>>,
) -> Result<Seq<ActionView>, DemoUpError> {
    match s.name {
        None => Err(DemoUpError::MissingRequiredField(RequiredField::SessionName)),
        Some(name) => {
            let dir = join_path(start, name);
            then(
                Ok(seq![ActionView::CreateDirectory { path: dir }]),
                then(
                    slides_plan(s, dir, exclude),
                    then(
                        videos_plan(s, dir, exclude),
                        then(repos_plan(s, dir, exclude), Ok(commands_section_plan(s, exclude))),
                    ),
                ),
            )
        },
    }
}

/// A run that excludes videos sets a session up exactly as it would set up
/// the same session without videos: it creates no videos directory and
/// fetches no video, and does everything else as before.
pub proof fn lemma_excluded_videos_are_skipped(
    s: SessionView,
    start: Seq<char>,
    exclude: Option<Seq<Seq<char>>>,
)
    requires
        skips(exclude, "Videos"@),
    ensures
        session_plan(s, start, exclude) == session_plan(
            (SessionView { videos: None, ..s }),
            start,
            exclude,
        ),
        videos_plan(s, join_path(start, s.name->0), exclude) == Ok::<Seq<ActionView>, DemoUpError>(
            Seq::empty(),
        ),
{
}

/// Setting up each session, in turn.
pub open spec fn sessions_plan(
    sessions: Seq<SessionView>,
    start: Seq<char>,
    exclude: Option<Seq<Seq<char>>>,
) -> Result<Seq<ActionView>, DemoUpError>
    decreases sessions.len(),
{
    if sessions.len() == 0 {
        Ok(Seq::empty())
    } else {
        then(
            sessions_plan(sessions.drop_last(), start, exclude),
            session_plan(sessions.last(), start, exclude),
        )
    }
}

/// What a run does before any session: it sets the active subscription once,
/// unless commands are excluded.
pub open spec fn setup_plan(c: ConfigView, exclude: Option<Seq<Seq<char>>>) -> Result<
    Seq<ActionView>,
    DemoUpError,
> {
    if skips(exclude, "Commands"@) {
        Ok(Seq::empty())
    } else {
        match c.subscription {
            Some(s) => Ok(seq![ActionView::SetSubscription { subscription: s }]),
            None => Err(DemoUpError::MissingRequiredField(RequiredField::Subscription)),
        }
    }
}

/// A run over a resolved configuration: its set-up, then each session.
pub open spec fn run_plan(
    c: ConfigView,
    start: Seq<char>,
    exclude: Option<Seq<Seq<char>>>,
) -> Result<Seq<ActionView>, DemoUpError> {
    then(setup_plan(c, exclude), sessions_plan(listed_sessions(c.sessions), start, exclude))
}

/// The session with its videos left out.
pub open spec fn without_videos(s: SessionView) -> SessionView {
    SessionView { videos: None, ..s }
}

/// Setting up sessions with videos excluded is setting them up without their
/// videos.
proof fn lemma_sessions_without_videos(
    sessions: Seq<SessionView>,
    start: Seq<char>,
    exclude: Option<Seq<Seq<char>>>,
)
    requires
        skips(exclude, "Videos"@),
    ensures
        sessions_plan(sessions, start, exclude) == sessions_plan(
            sessions.map_values(|s: SessionView| without_videos(s)),
            start,
            exclude,
        ),
    decreases sessions.len(),
{
    if sessions.len() > 0 {
        let stripped = sessions.map_values(|s: SessionView| without_videos(s));
        lemma_sessions_without_videos(sessions.drop_last(), start, exclude);
        assert(stripped.drop_last() =~= sessions.drop_last().map_values(
            |s: SessionView| without_videos(s),
        ));
        lemma_excluded_videos_are_skipped(sessions.last(), start, exclude);
    }
}

/// A run that excludes videos performs exactly the actions of the same run
/// over the configuration with every session's videos left out: it creates
/// no videos directory and fetches no video, and sets the subscription,
/// creates the other directories, fetches the slides, clones the
/// repositories and runs the commands as it would otherwise.
pub proof fn lemma_excluded_videos_never_fetched(
    c: ConfigView,
    start: Seq<char>,
    exclude: Option<Seq<Seq<char>>>,
)
    requires
        skips(exclude, "Videos"@),
    ensures
        run_plan(c, start, exclude) == run_plan(
            (ConfigView {
                sessions: Some(
                    listed_sessions(c.sessions).map_values(|s: SessionView| without_videos(s)),
                ),
                ..c
            }),
            start,
            exclude,
        ),
{
    lemma_sessions_without_videos(listed_sessions(c.sessions), start, exclude);
}

/// Two steps in turn append what their sequence plans.
proof fn lemma_then_appended(
    first: Result<Seq<ActionView>, DemoUpError>,
    second: Result<Seq<ActionView>, DemoUpError>,
    r: Result<(), DemoUpError>,
    s0: Seq<ActionView>,
    s1: Seq<ActionView>,
    s2: Seq<ActionView>,
)
    requires
        appended(first, Ok(()), s0, s1),
        appended(second, r, s1, s2),
    ensures
        appended(then(first, second), r, s0, s2),
{
    if first is Ok && second is Ok {
        assert(s2 =~= s0 + (first->Ok_0 + second->Ok_0));
    }
}

/// Once fetching a prefix of the files fails, fetching all of them fails alike.
proof fn lemma_downloads_failure_persists(
    downloads: Seq<FileDownloadView>,
    directory: Seq<char>,
    k: int,
)
    requires
        0 <= k <= downloads.len(),
        downloads_plan(downloads.take(k), directory) is Err,
    ensures
        downloads_plan(downloads, directory) == downloads_plan(downloads.take(k), directory),
    decreases downloads.len(),
{
    if k < downloads.len() {
        assert(downloads.drop_last().take(k) =~= downloads.take(k));
        lemma_downloads_failure_persists(downloads.drop_last(), directory, k);
    } else {
        assert(downloads.take(k) =~= downloads);
    }
}

/// Once cloning a prefix of the repositories fails, cloning all of them fails
/// alike.
proof fn lemma_clones_failure_persists(urls: Seq<Seq<char>>, directory: Seq<char>, k: int)
    requires
        0 <= k <= urls.len(),
        clones_plan(urls.take(k), directory) is Err,
    ensures
        clones_plan(urls, directory) == clones_plan(urls.take(k), directory),
    decreases urls.len(),
{
    if k < urls.len() {
        assert(urls.drop_last().take(k) =~= urls.take(k));
        lemma_clones_failure_persists(urls.drop_last(), directory, k);
    } else {
        assert(urls.take(k) =~= urls);
    }
}

/// Once setting up a prefix of the sessions fails, setting up all of them
/// fails alike.
proof fn lemma_sessions_failure_persists(
    sessions: Seq<SessionView>,
    start: Seq<char>,
    exclude: Option<Seq<Seq<char>>>,
    k: int,
)
    requires
        0 <= k <= sessions.len(),
        sessions_plan(sessions.take(k), start, exclude) is Err,
    ensures
        sessions_plan(sessions, start, exclude) == sessions_plan(sessions.take(k), start, exclude),
    decreases sessions.len(),
{
    if k < sessions.len() {
        assert(sessions.drop_last().take(k) =~= sessions.take(k));
        lemma_sessions_failure_persists(sessions.drop_last(), start, exclude, k);
    } else {
        assert(sessions.take(k) =~= sessions);
    }
}

/// `dir/name`.
fn join_path_name(dir: &str, name: &str) -> (r: String)
    ensures
        r@ == join_path(dir@, name@),
{
    let mut path = String::from_str(dir);
    path.append("/");
    path.append(name);
    proof {
        reveal_strlit("/");
        assert("/"@ =~= seq!['/']);
    }
    path
}

/// Appends the fetch of one file into `directory`.
fn push_download(d: &FileDownload, directory: &String, actions: &mut Vec<Action>) -> (r: Result<
    (),
    DemoUpError,
>)
    ensures
        appended(download_plan(d@, directory@), r, old(actions).deep_view(), final(actions).deep_view()),
{
    let url = match &d.url {
        Some(u) => u,
        None => return Err(DemoUpError::MissingRequiredField(RequiredField::DownloadUrl)),
    };
    let given = match &d.file_name {
        Some(n) => n.clone(),
        None => String::new(),
    };
    let file_name = match get_filename(url.as_str(), given.as_str()) {
        Ok(f) => f,
        Err(e) => return Err(e),
    };
    let ghost before = actions.deep_view();
    actions.push(Action::Download { url: url.clone(), directory: directory.clone(), file_name });
    proof {
        assert(actions.deep_view() =~= before + download_plan(d@, directory@)->Ok_0);
    }
    Ok(())
}

/// Appends the fetch of each file into `directory`, in turn.
fn push_downloads(downloads: &Vec<FileDownload>, directory: &String, actions: &mut Vec<Action>) -> (r:
    Result<(), DemoUpError>)
    ensures
        appended(
            downloads_plan(downloads.deep_view(), directory@),
            r,
            old(actions).deep_view(),
            final(actions).deep_view(),
        ),
{
    let ghost start = actions.deep_view();
    let mut i: usize = 0;
    while i < downloads.len()
        invariant
            i <= downloads.len(),
            appended(
                downloads_plan(downloads.deep_view().take(i as int), directory@),
                Ok(()),
                start,
                actions.deep_view(),
            ),
        decreases downloads.len() - i,
    {
        let ghost mid = actions.deep_view();
        let r = push_download(&downloads[i], directory, actions);
        proof {
            let taken = downloads.deep_view().take(i + 1);
            assert(taken.drop_last() =~= downloads.deep_view().take(i as int));
            assert(taken.last() == downloads[i as int]@);
            lemma_then_appended(
                downloads_plan(downloads.deep_view().take(i as int), directory@),
                download_plan(downloads[i as int]@, directory@),
                r,
                start,
                mid,
                actions.deep_view(),
            );
        }
        if let Err(e) = r {
            proof {
                lemma_downloads_failure_persists(downloads.deep_view(), directory@, i + 1);
            }
            return Err(e);
        }
        i = i + 1;
    }
    proof {
        assert(downloads.deep_view().take(downloads.len() as int) =~= downloads.deep_view());
    }
    Ok(())
}

/// Appends the clone of each repository into `directory`, in turn.
fn push_clones(urls: &Vec<String>, directory: &String, actions: &mut Vec<Action>) -> (r: Result<
    (),
    DemoUpError,
>)
    ensures
        appended(
            clones_plan(urls.deep_view(), directory@),
            r,
            old(actions).deep_view(),
            final(actions).deep_view(),
        ),
{
    let ghost start = actions.deep_view();
    let mut i: usize = 0;
    while i < urls.len()
        invariant
            i <= urls.len(),
            appended(
                clones_plan(urls.deep_view().take(i as int), directory@),
                Ok(()),
                start,
                actions.deep_view(),
            ),
        decreases urls.len() - i,
    {
        let url = &urls[i];
        let taken = Ghost(urls.deep_view().take(i + 1));
        proof {
            assert(taken@.drop_last() =~= urls.deep_view().take(i as int));
            assert(taken@.last() == url@);
        }
        let repo_name = match get_filename(url.as_str(), "") {
            Ok(n) => n,
            Err(e) => {
                proof {
                    reveal_strlit("");
                    assert(""@ =~= Seq::<char>::empty());
                    lemma_clones_failure_persists(urls.deep_view(), directory@, i + 1);
                }
                return Err(e);
            },
        };
        let target = join_path_name(directory.as_str(), repo_name.as_str());
        let ghost mid = actions.deep_view();
        actions.push(Action::CloneRepository { url: url.clone(), target });
        proof {
            reveal_strlit("");
            assert(""@ =~= Seq::<char>::empty());
            assert(actions.deep_view() =~= mid + seq![
                ActionView::CloneRepository {
                    url: url@,
                    target: join_path(directory@, file_name_for(parsed_url_path(url@)->0, Seq::empty())),
                },
            ]);
            assert(mid + seq![
                ActionView::CloneRepository {
                    url: url@,
                    target: join_path(directory@, file_name_for(parsed_url_path(url@)->0, Seq::empty())),
                },
            ] =~= start + clones_plan(taken@, directory@)->Ok_0);
        }
        i = i + 1;
    }
    proof {
        assert(urls.deep_view().take(urls.len() as int) =~= urls.deep_view());
    }
    Ok(())
}

/// Appends the actions of each command, in turn.
fn push_commands(commands: &Vec<Command>, actions: &mut Vec<Action>)
    ensures
        final(actions).deep_view() == old(actions).deep_view() + commands_plan(commands.deep_view()),
{
    let ghost start = actions.deep_view();
    let mut i: usize = 0;
    while i < commands.len()
        invariant
            i <= commands.len(),
            actions.deep_view() == start + commands_plan(commands.deep_view().take(i as int)),
        decreases commands.len() - i,
    {
        let c = &commands[i];
        let ghost mid = actions.deep_view();
        if let Some(template) = &c.template {
            actions.push(
                Action::DeployTemplate {
                    template: template.clone(),
                    resource_group: c.resource_group.clone(),
                    location: c.location.clone(),
                },
            );
        }
        if let Some(cli) = &c.cli {
            actions.push(
                Action::RunCli {
                    cli: cli.clone(),
                    resource_group: c.resource_group.clone(),
                    location: c.location.clone(),
                },
            );
        }
        proof {
            let taken = commands.deep_view().take(i + 1);
            assert(taken.drop_last() =~= commands.deep_view().take(i as int));
            assert(taken.last() == c@);
            assert(actions.deep_view() =~= mid + command_actions(c@));
            assert(start + commands_plan(taken) =~= mid + command_actions(c@));
        }
        i = i + 1;
    }
    proof {
        assert(commands.deep_view().take(commands.len() as int) =~= commands.deep_view());
    }
}

impl UpCommand {
    /// The event name, which keeps environments apart.
    pub fn event(&self) -> (r: Result<String, DemoUpError>)
        ensures
            match self.event {
                Some(e) => r == Ok::<String, DemoUpError>(e),
                None => r == Err::<String, DemoUpError>(
                    DemoUpError::MissingRequiredField(RequiredField::Event),
                ),
            },
    {
        match &self.event {
            Some(e) => Ok(e.clone()),
            None => Err(DemoUpError::MissingRequiredField(RequiredField::Event)),
        }
    }

    /// The names of the sessions to set up; none where the run names none.
    pub fn session_names(&self) -> (r: Vec<String>)
        ensures
            r.deep_view() == listed_names(self.session_names.deep_view()),
    {
        match &self.session_names {
            Some(names) => names.clone(),
            None => Vec::new(),
        }
    }

    /// Appends the slides section of session `s` in `dir`.
    fn push_slides(&self, s: &Session, dir: &String, actions: &mut Vec<Action>) -> (r: Result<
        (),
        DemoUpError,
    >)
        ensures
            appended(
                slides_plan(s@, dir@, self.exclude.deep_view()),
                r,
                old(actions).deep_view(),
                final(actions).deep_view(),
            ),
    {
        if let Some(slides) = &s.slides {
            if !self.skip_section("Slides") {
                let slides_dir = join_path_name(dir.as_str(), "slides");
                let ghost s0 = actions.deep_view();
                actions.push(Action::CreateDirectory { path: slides_dir.clone() });
                let ghost s1 = actions.deep_view();
                let r = push_download(slides, &slides_dir, actions);
                proof {
                    assert(s1 =~= s0 + seq![ActionView::CreateDirectory { path: slides_dir@ }]);
                    lemma_then_appended(
                        Ok(seq![ActionView::CreateDirectory { path: slides_dir@ }]),
                        download_plan(slides@, slides_dir@),
                        r,
                        s0,
                        s1,
                        actions.deep_view(),
                    );
                }
                return r;
            }
        }
        proof {
            assert(actions.deep_view() =~= actions.deep_view() + Seq::<ActionView>::empty());
        }
        Ok(())
    }

    /// Appends the videos section of session `s` in `dir`.
    fn push_videos(&self, s: &Session, dir: &String, actions: &mut Vec<Action>) -> (r: Result<
        (),
        DemoUpError,
    >)
        ensures
            appended(
                videos_plan(s@, dir@, self.exclude.deep_view()),
                r,
                old(actions).deep_view(),
                final(actions).deep_view(),
            ),
    {
        if let Some(videos) = &s.videos {
            if !self.skip_section("Videos") {
                let videos_dir = join_path_name(dir.as_str(), "videos");
                let ghost s0 = actions.deep_view();
                actions.push(Action::CreateDirectory { path: videos_dir.clone() });
                let ghost s1 = actions.deep_view();
                let r = push_downloads(videos, &videos_dir, actions);
                proof {
                    assert(s1 =~= s0 + seq![ActionView::CreateDirectory { path: videos_dir@ }]);
                    lemma_then_appended(
                        Ok(seq![ActionView::CreateDirectory { path: videos_dir@ }]),
                        downloads_plan(videos.deep_view(), videos_dir@),
                        r,
                        s0,
                        s1,
                        actions.deep_view(),
                    );
                }
                return r;
            }
        }
        proof {
            assert(actions.deep_view() =~= actions.deep_view() + Seq::<ActionView>::empty());
        }
        Ok(())
    }

    /// Appends the repositories section of session `s` in `dir`.
    fn push_repos(&self, s: &Session, dir: &String, actions: &mut Vec<Action>) -> (r: Result<
        (),
        DemoUpError,
    >)
        ensures
            appended(
                repos_plan(s@, dir@, self.exclude.deep_view()),
                r,
                old(actions).deep_view(),
                final(actions).deep_view(),
            ),
    {
        if let Some(repos) = &s.git_repos {
            if !self.skip_section("GitRepos") {
                let source_dir = join_path_name(dir.as_str(), "src");
                let ghost s0 = actions.deep_view();
                actions.push(Action::CreateDirectory { path: source_dir.clone() });
                let ghost s1 = actions.deep_view();
                let r = push_clones(repos, &source_dir, actions);
                proof {
                    assert(s1 =~= s0 + seq![ActionView::CreateDirectory { path: source_dir@ }]);
                    lemma_then_appended(
                        Ok(seq![ActionView::CreateDirectory { path: source_dir@ }]),
                        clones_plan(repos.deep_view(), source_dir@),
                        r,
                        s0,
                        s1,
                        actions.deep_view(),
                    );
                }
                return r;
            }
        }
        proof {
            assert(actions.deep_view() =~= actions.deep_view() + Seq::<ActionView>::empty());
        }
        Ok(())
    }

    /// Appends the commands section of session `s`.
    fn push_command_section(&self, s: &Session, actions: &mut Vec<Action>)
        ensures
            final(actions).deep_view() == old(actions).deep_view() + commands_section_plan(
                s@,
                self.exclude.deep_view(),
            ),
    {
        if let Some(commands) = &s.commands {
            if !self.skip_section("Commands") {
                let sorted = sort_commands(commands);
                push_commands(&sorted, actions);
                return ;
            }
        }
        proof {
            assert(actions.deep_view() =~= actions.deep_view() + Seq::<ActionView>::empty());
        }
    }

    /// Appends the set-up of session `s` under `start`.
    fn push_session(&self, s: &Session, start: &str, actions: &mut Vec<Action>) -> (r: Result<
        (),
        DemoUpError,
    >)
        ensures
            appended(
                session_plan(s@, start@, self.exclude.deep_view()),
                r,
                old(actions).deep_view(),
                final(actions).deep_view(),
            ),
    {
        let name = match &s.name {
            Some(n) => n,
            None => return Err(DemoUpError::MissingRequiredField(RequiredField::SessionName)),
        };
        let dir = join_path_name(start, name.as_str());
        let ghost exclude = self.exclude.deep_view();
        let ghost s0 = actions.deep_view();
        actions.push(Action::CreateDirectory { path: dir.clone() });
        let ghost s1 = actions.deep_view();
        let r = self.push_slides(s, &dir, actions);
        if r.is_err() {
            return r;
        }
        let ghost s2 = actions.deep_view();
        let r = self.push_videos(s, &dir, actions);
        if r.is_err() {
            return r;
        }
        let ghost s3 = actions.deep_view();
        let r = self.push_repos(s, &dir, actions);
        if r.is_err() {
            return r;
        }
        let ghost s4 = actions.deep_view();
        self.push_command_section(s, actions);
        proof {
            let commands = commands_section_plan(s@, exclude);
            assert(s1 =~= s0 + seq![ActionView::CreateDirectory { path: dir@ }]);
            lemma_then_appended(
                repos_plan(s@, dir@, exclude),
                Ok(commands),
                Ok(()),
                s3,
                s4,
                actions.deep_view(),
            );
            lemma_then_appended(
                videos_plan(s@, dir@, exclude),
                then(repos_plan(s@, dir@, exclude), Ok(commands)),
                Ok(()),
                s2,
                s3,
                actions.deep_view(),
            );
            lemma_then_appended(
                slides_plan(s@, dir@, exclude),
                then(videos_plan(s@, dir@, exclude), then(repos_plan(s@, dir@, exclude), Ok(commands))),
                Ok(()),
                s1,
                s2,
                actions.deep_view(),
            );
            lemma_then_appended(
                Ok(seq![ActionView::CreateDirectory { path: dir@ }]),
                then(
                    slides_plan(s@, dir@, exclude),
                    then(
                        videos_plan(s@, dir@, exclude),
                        then(repos_plan(s@, dir@, exclude), Ok(commands)),
                    ),
                ),
                Ok(()),
                s0,
                s1,
                actions.deep_view(),
            );
        }
        Ok(())
    }

    /// The actions of a setup run over the stored configuration `config`,
    /// with session directories under `starting_directory`, in the order in
    /// which they are to be performed; or the first missing value or invalid
    /// URL on the way. The run works from the resolved configuration (see
    /// [`TourConfig::update`]).
    pub fn plan(&self, config: &TourConfig, starting_directory: &str) -> (r: Result<
        Vec<Action>,
        DemoUpError,
    >)
        ensures
            match run_plan(
                resolve_config(
                    config@,
                    self.subscription@,
                    self.event.deep_view(),
                    self.location.deep_view(),
                    listed_names(self.session_names.deep_view()),
                ),
                starting_directory@,
                self.exclude.deep_view(),
            ) {
                Ok(a) => r is Ok && r->Ok_0.deep_view() == a,
                Err(e) => r == Err::<Vec<Action>, DemoUpError>(e),
            },
    {
        let resolved = config.update(self);
        let ghost exclude = self.exclude.deep_view();
        let mut actions: Vec<Action> = Vec::new();
        if !self.skip_section("Commands") {
            match resolved.subscription() {
                Ok(subscription) => {
                    actions.push(Action::SetSubscription { subscription });
                    proof {
                        assert(actions.deep_view() =~= seq![
                            ActionView::SetSubscription { subscription: subscription@ },
                        ]);
                    }
                },
                Err(e) => return Err(e),
            }
        }
        let ghost setup = actions.deep_view();
        proof {
            assert(setup =~= Seq::<ActionView>::empty() + setup);
        }
        let sessions = resolved.sessions();
        let mut i: usize = 0;
        while i < sessions.len()
            invariant
                i <= sessions.len(),
                exclude == self.exclude.deep_view(),
                sessions.deep_view() == listed_sessions(resolved@.sessions),
                resolved@ == resolve_config(
                    config@,
                    self.subscription@,
                    self.event.deep_view(),
                    self.location.deep_view(),
                    listed_names(self.session_names.deep_view()),
                ),
                appended(setup_plan(resolved@, exclude), Ok(()), Seq::empty(), setup),
                appended(
                    sessions_plan(sessions.deep_view().take(i as int), starting_directory@, exclude),
                    Ok(()),
                    setup,
                    actions.deep_view(),
                ),
            decreases sessions.len() - i,
        {
            let ghost mid = actions.deep_view();
            let r = self.push_session(&sessions[i], starting_directory, &mut actions);
            proof {
                let taken = sessions.deep_view().take(i + 1);
                assert(taken.drop_last() =~= sessions.deep_view().take(i as int));
                assert(taken.last() == sessions[i as int]@);
                lemma_then_appended(
                    sessions_plan(sessions.deep_view().take(i as int), starting_directory@, exclude),
                    session_plan(sessions[i as int]@, starting_directory@, exclude),
                    r,
                    setup,
                    mid,
                    actions.deep_view(),
                );
            }
            if let Err(e) = r {
                proof {
                    lemma_sessions_failure_persists(
                        sessions.deep_view(),
                        starting_directory@,
                        exclude,
                        i + 1,
                    );
                }
                return Err(e);
            }
            i = i + 1;
        }
        proof {
            assert(sessions.deep_view().take(sessions.len() as int) =~= sessions.deep_view());
            lemma_then_appended(
                setup_plan(resolved@, exclude),
                sessions_plan(sessions.deep_view(), starting_directory@, exclude),
                Ok(()),
                Seq::empty(),
                setup,
                actions.deep_view(),
            );
        }
        Ok(actions)
    }

    /// Whether the run leaves out `section` ("Slides", "Videos", "GitRepos"
    /// or "Commands").
    pub fn skip_section(&self, section: &str) -> (r: bool)
        ensures
            r == skips(self.exclude.deep_view(), section@),
    {
        match &self.exclude {
            Some(exclude) => {
                let name = String::from_str(section);
                contains_name(exclude.as_slice(), &name)
            },
            None => false,
        }
    }
}

impl Default for UpCommand {
    fn default() -> (r: Self)
        ensures
            r.config_path@.len() == 0,
            r.subscription@.len() == 0,
            r.event is None,
            r.session_names is None,
            r.location is None,
            r.exclude is None,
    {
        UpCommand {
            config_path: String::new(),
            subscription: String::new(),
            event: None,
            session_names: None,
            location: None,
            exclude: None,
        }
    }
}

} // verus!
