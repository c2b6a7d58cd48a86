use crate::command::{resolve_command, Command, CommandView};
use crate::error::{DemoUpError, RequiredField};
use crate::file_download::{FileDownload, FileDownloadView};
use vstd::prelude::*;

verus! {

/// One track instance of the event: its learning assets and the commands that
/// provision its environment.
#[derive(Debug, PartialEq, Eq)]
pub struct Session {
    pub name: Option<String>,
    pub slides: Option<FileDownload>,
    pub videos: Option<Vec<FileDownload>>,
    pub git_repos: Option<Vec<String>>,
    pub commands: Option<Vec<Command>>,
}

/// The mathematical model of a [`Session`].
pub struct SessionView {
    pub name: Option<Seq<char>>,
    pub slides: Option<FileDownloadView>,
    pub videos: Option<Seq<FileDownloadView>>,
    pub git_repos: Option<Seq<Seq<char>>>,
    pub commands: Option<Seq<CommandView>>,
}

impl View for Session {
    type V = SessionView;

    open spec fn view(&self) -> SessionView {
        SessionView {
            name: self.name.deep_view(),
            slides: self.slides.deep_view(),
            videos: self.videos.deep_view(),
            git_repos: self.git_repos.deep_view(),
            commands: self.commands.deep_view(),
        }
    }
}

impl DeepView for Session {
    type V = SessionView;

    open spec fn deep_view(&self) -> SessionView {
        self.view()
    }
}

impl SessionView {
    /// Every command of the session is well formed.
    pub open spec fn well_formed(self) -> bool {
        forall|k: int|
            0 <= k < listed_commands(self.commands).len() ==> (#[trigger] listed_commands(
                self.commands,
            )[k]).well_formed()
    }
}

/// The commands of a session, none where it lists none.
pub open spec fn listed_commands(commands: Option<Seq<CommandView>>) -> Seq<CommandView> {
    match commands {
        Some(c) => c,
        None => Seq::empty(),
    }
}

/// A session whose commands have their defaults filled in.
pub open spec fn resolve_session(
    s: SessionView,
    event: Option<Seq<char>>,
    location: Option<Seq<char>>,
) -> SessionView {
    SessionView {
        commands: Some(
            listed_commands(s.commands).map_values(
                |c: CommandView| resolve_command(c, s.name, event, location),
            ),
        ),
        ..s
    }
}

/// A copy of a list of commands.
pub(crate) fn clone_commands(commands: &Vec<Command>) -> (r: Vec<Command>)
    ensures
        r.deep_view() == commands.deep_view(),
{
    let mut copy: Vec<Command> = Vec::new();
    let mut i: usize = 0;
    while i < commands.len()
        invariant
            i <= commands.len(),
            copy.deep_view() == commands.deep_view().take(i as int),
        decreases commands.len() - i,
    {
        let c = commands[i].clone();
        let ghost before = copy.deep_view();
        copy.push(c);
        proof {
            assert(copy.deep_view() =~= before.push(commands[i as int]@));
            assert(commands.deep_view().take(i + 1) =~= commands.deep_view().take(i as int).push(
                commands[i as int]@,
            ));
        }
        i = i + 1;
    }
    proof {
        assert(commands.deep_view().take(commands.len() as int) =~= commands.deep_view());
    }
    copy
}

/// A copy of a list of downloads.
fn clone_downloads(downloads: &Vec<FileDownload>) -> (r: Vec<FileDownload>)
    ensures
        r.deep_view() == downloads.deep_view(),
{
    let mut copy: Vec<FileDownload> = Vec::new();
    let mut i: usize = 0;
    while i < downloads.len()
        invariant
            i <= downloads.len(),
            copy.deep_view() == downloads.deep_view().take(i as int),
        decreases downloads.len() - i,
    {
        let d = downloads[i].clone();
        let ghost before = copy.deep_view();
        copy.push(d);
        proof {
            assert(copy.deep_view() =~= before.push(downloads[i as int]@));
            assert(downloads.deep_view().take(i + 1) =~= downloads.deep_view().take(
                i as int,
            ).push(downloads[i as int]@));
        }
        i = i + 1;
    }
    proof {
        assert(downloads.deep_view().take(downloads.len() as int) =~= downloads.deep_view());
    }
    copy
}

impl Session {
    /// The session's commands; none where it lists none.
    pub fn commands(&self) -> (r: Vec<Command>)
        ensures
            r.deep_view() == listed_commands(self@.commands),
    {
        match &self.commands {
            Some(c) => clone_commands(c),
            None => Vec::new(),
        }
    }

    /// The session's name, which every session needs.
    pub fn name(&self) -> (r: Result<String, DemoUpError>)
        ensures
            match self.name {
                Some(n) => r == Ok::<String, DemoUpError>(n),
                None => r == Err::<String, DemoUpError>(
                    DemoUpError::MissingRequiredField(RequiredField::SessionName),
                ),
            },
    {
        match &self.name {
            Some(n) => Ok(n.clone()),
            None => Err(DemoUpError::MissingRequiredField(RequiredField::SessionName)),
        }
    }

    /// Fills in each command's resource group and location where unset; the
    /// session then lists its commands explicitly.
    pub fn update(&mut self, event: &Option<String>, location: &Option<String>)
        ensures
            final(self)@ == resolve_session(old(self)@, event.deep_view(), location.deep_view()),
    {
        let commands = self.commands();
        let ghost listed = commands.deep_view();
        let mut resolved: Vec<Command> = Vec::new();
        let mut i: usize = 0;
        while i < commands.len()
            invariant
                i <= commands.len(),
                listed == commands.deep_view(),
                listed == listed_commands(old(self)@.commands),
                self@ == old(self)@,
                resolved.deep_view() == listed.take(i as int).map_values(
                    |c: CommandView| resolve_command(c, self@.name, event.deep_view(), location.deep_view()),
                ),
            decreases commands.len() - i,
        {
            let mut c = commands[i].clone();
            c.update(&self.name, event, location);
            let ghost before = resolved.deep_view();
            resolved.push(c);
            proof {
                assert(resolved.deep_view() =~= before.push(c@));
                assert(listed.take(i + 1) =~= listed.take(i as int).push(listed[i as int]));
                assert(listed.take(i + 1).map_values(
                    |c: CommandView| resolve_command(c, self@.name, event.deep_view(), location.deep_view()),
                ) =~= before.push(c@));
            }
            i = i + 1;
        }
        proof {
            assert(listed.take(commands.len() as int) =~= listed);
        }
        self.commands = Some(resolved);
        proof {
            assert(self@ =~= resolve_session(old(self)@, event.deep_view(), location.deep_view()));
        }
    }
}

impl Clone for Session {
    fn clone(&self) -> (r: Self)
        ensures
            r@ == self@,
    {
        let slides = match &self.slides {
            Some(s) => Some(s.clone()),
            None => None,
        };
        let videos = match &self.videos {
            Some(v) => Some(clone_downloads(v)),
            None => None,
        };
        let commands = match &self.commands {
            Some(c) => Some(clone_commands(c)),
            None => None,
        };
        Session {
            name: self.name.clone(),
            slides,
            videos,
            git_repos: self.git_repos.clone(),
            commands,
        }
    }
}

impl Default for Session {
    fn default() -> (r: Self)
        ensures
            r.name is None,
            r.slides is None,
            r.videos is None,
            r.git_repos is None,
            r.commands is None,
    {
        Session { name: None, slides: None, videos: None, git_repos: None, commands: None }
    }
}

} // verus!
