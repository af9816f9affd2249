//! The state of the launcher window and how each message changes it: which
//! fields move, what the status line says, and which outside work starts.
use vstd::prelude::*;

use crate::launch::{
    LaunchProgress, LaunchReport, LaunchRequest, LoaderChoice, MinecraftVersion, VersionKind,
};
use crate::mods::{
    InstallProjectReport, InstallProjectRequest, ManagedProject, ProjectKind,
    ProjectSearchRequest, ProjectSource,
};
use crate::text::{decimal, decimal_string, is_blank, trim, trimmed, trimmed_string};

verus! {

/// The two pages of the window.
#[derive(Debug, Clone, Copy, PartialEq, Eq, Structural)]
pub enum Tab {
    Launcher,
    Mods,
}

/// Everything the window shows and edits. Launch progress is counted in
/// tenths of a percent.
#[derive(Debug, Clone)]
pub struct NovaLauncher {
    pub username: String,
    pub minecraft_version: String,
    pub versions: Vec<MinecraftVersion>,
    pub versions_loading: bool,
    pub show_releases: bool,
    pub show_snapshots: bool,
    pub show_old_beta: bool,
    pub show_old_alpha: bool,
    pub loader: LoaderChoice,
    pub java_path: String,
    pub minecraft_dir: String,
    pub memory_mb: u16,
    pub status: String,
    pub status_is_error: bool,
    pub progress_permille: u16,
    pub busy: bool,
    pub tab: Tab,
    pub project_source: ProjectSource,
    pub project_kind: ProjectKind,
    pub project_query: String,
    pub curseforge_api_key: String,
    pub search_results: Vec<ManagedProject>,
    pub search_loading: bool,
    pub search_error: String,
    pub installed_projects: Vec<ManagedProject>,
    pub installed_loading: bool,
    pub project_action_busy: bool,
}

impl NovaLauncher {
    /// Launch progress never passes 100%.
    pub open spec fn wf(&self) -> bool {
        self.progress_permille <= 1000
    }

    /// The window as it opens, keeping its data in `minecraft_dir`; versions
    /// and installed projects are still loading.
    pub fn new(minecraft_dir: String) -> (r: Self)
        ensures
            r.wf(),
            r.username@ == "Steve"@,
            r.minecraft_version@ == "1.20.1"@,
            r.versions@.len() == 0,
            r.versions_loading,
            r.show_releases,
            !r.show_snapshots,
            !r.show_old_beta,
            !r.show_old_alpha,
            r.loader == LoaderChoice::Vanilla,
            r.java_path@.len() == 0,
            r.minecraft_dir == minecraft_dir,
            r.memory_mb == 2048,
            r.status@ == "Loading Minecraft versions..."@,
            !r.status_is_error,
            r.progress_permille == 0,
            !r.busy,
            r.tab == Tab::Launcher,
            r.project_source == ProjectSource::Modrinth,
            r.project_kind == ProjectKind::Mod,
            r.project_query@.len() == 0,
            r.curseforge_api_key@.len() == 0,
            r.search_results@.len() == 0,
            !r.search_loading,
            r.search_error@.len() == 0,
            r.installed_projects@.len() == 0,
            r.installed_loading,
            !r.project_action_busy,
    {
        NovaLauncher {
            username: String::from_str("Steve"),
            minecraft_version: String::from_str("1.20.1"),
            versions: Vec::new(),
            versions_loading: true,
            show_releases: true,
            show_snapshots: false,
            show_old_beta: false,
            show_old_alpha: false,
            loader: LoaderChoice::Vanilla,
            java_path: String::new(),
            minecraft_dir,
            memory_mb: 2048,
            status: String::from_str("Loading Minecraft versions..."),
            status_is_error: false,
            progress_permille: 0,
            busy: false,
            tab: Tab::Launcher,
            project_source: ProjectSource::Modrinth,
            project_kind: ProjectKind::Mod,
            project_query: String::new(),
            curseforge_api_key: String::new(),
            search_results: Vec::new(),
            search_loading: false,
            search_error: String::new(),
            installed_projects: Vec::new(),
            installed_loading: true,
            project_action_busy: false,
        }
    }
}

/// Where a modpack's profile directory is: where it was installed, or the
/// `modpacks/<id>` folder of the launcher directory.
#[derive(Debug, Clone)]
pub enum ModpackLocation {
    Installed(String),
    Default { minecraft_dir: String, id: String },
}

/// Everything the window reacts to.
#[derive(Debug)]
pub enum Message {
    UsernameChanged(String),
    VersionChanged(String),
    VersionPicked(String),
    ShowReleasesChanged(bool),
    ShowSnapshotsChanged(bool),
    ShowOldBetaChanged(bool),
    ShowOldAlphaChanged(bool),
    RefreshVersions,
    VersionsLoaded(Result<Vec<MinecraftVersion>, String>),
    InitialDataLoaded(Result<(Vec<MinecraftVersion>, Vec<ManagedProject>), String>),
    LoaderChanged(LoaderChoice),
    JavaPathChanged(String),
    MinecraftDirChanged(String),
    MemoryChanged(u16),
    LaunchPressed,
    LaunchModpackPressed(ManagedProject),
    /// Whether the profile directory `dir` of a modpack to launch exists;
    /// `request` is the launch prepared when the modpack's launch was pressed.
    ModpackDirChecked { project: ManagedProject, request: LaunchRequest, dir: String, exists: bool },
    LaunchEvent(LaunchProgress),
    TabSelected(Tab),
    ProjectSourceChanged(ProjectSource),
    ProjectKindChanged(ProjectKind),
    ProjectQueryChanged(String),
    CurseForgeApiKeyChanged(String),
    SearchProjects,
    ProjectsLoaded(Result<Vec<ManagedProject>, String>),
    InstallProjectPressed(ManagedProject),
    InstallProjectResult(Result<InstallProjectReport, String>),
    RefreshInstalledProjects,
    InstalledProjectsLoaded(Vec<ManagedProject>),
    UninstallProjectPressed(ManagedProject),
    UninstallProjectResult(Result<(), String>),
}

impl Clone for Message {
    fn clone(&self) -> (r: Self) {
        match self {
            Message::UsernameChanged(v) => Message::UsernameChanged(v.clone()),
            Message::VersionChanged(v) => Message::VersionChanged(v.clone()),
            Message::VersionPicked(v) => Message::VersionPicked(v.clone()),
            Message::ShowReleasesChanged(v) => Message::ShowReleasesChanged(*v),
            Message::ShowSnapshotsChanged(v) => Message::ShowSnapshotsChanged(*v),
            Message::ShowOldBetaChanged(v) => Message::ShowOldBetaChanged(*v),
            Message::ShowOldAlphaChanged(v) => Message::ShowOldAlphaChanged(*v),
            Message::RefreshVersions => Message::RefreshVersions,
            Message::VersionsLoaded(Ok(v)) => Message::VersionsLoaded(Ok(v.clone())),
            Message::VersionsLoaded(Err(e)) => Message::VersionsLoaded(Err(e.clone())),
            Message::InitialDataLoaded(Ok((v, p))) => Message::InitialDataLoaded(
                Ok((v.clone(), p.clone())),
            ),
            Message::InitialDataLoaded(Err(e)) => Message::InitialDataLoaded(Err(e.clone())),
            Message::LoaderChanged(v) => Message::LoaderChanged(*v),
            Message::JavaPathChanged(v) => Message::JavaPathChanged(v.clone()),
            Message::MinecraftDirChanged(v) => Message::MinecraftDirChanged(v.clone()),
            Message::MemoryChanged(v) => Message::MemoryChanged(*v),
            Message::LaunchPressed => Message::LaunchPressed,
            Message::LaunchModpackPressed(p) => Message::LaunchModpackPressed(p.clone()),
            Message::ModpackDirChecked { project, request, dir, exists } => Message::ModpackDirChecked {
                project: project.clone(),
                request: request.clone(),
                dir: dir.clone(),
                exists: *exists,
            },
            Message::LaunchEvent(e) => Message::LaunchEvent(e.clone()),
            Message::TabSelected(t) => Message::TabSelected(*t),
            Message::ProjectSourceChanged(s) => Message::ProjectSourceChanged(*s),
            Message::ProjectKindChanged(k) => Message::ProjectKindChanged(*k),
            Message::ProjectQueryChanged(v) => Message::ProjectQueryChanged(v.clone()),
            Message::CurseForgeApiKeyChanged(v) => Message::CurseForgeApiKeyChanged(v.clone()),
            Message::SearchProjects => Message::SearchProjects,
            Message::ProjectsLoaded(Ok(v)) => Message::ProjectsLoaded(Ok(v.clone())),
            Message::ProjectsLoaded(Err(e)) => Message::ProjectsLoaded(Err(e.clone())),
            Message::InstallProjectPressed(p) => Message::InstallProjectPressed(p.clone()),
            Message::InstallProjectResult(Ok(r)) => Message::InstallProjectResult(Ok(r.clone())),
            Message::InstallProjectResult(Err(e)) => Message::InstallProjectResult(
                Err(e.clone()),
            ),
            Message::RefreshInstalledProjects => Message::RefreshInstalledProjects,
            Message::InstalledProjectsLoaded(v) => Message::InstalledProjectsLoaded(v.clone()),
            Message::UninstallProjectPressed(p) => Message::UninstallProjectPressed(p.clone()),
            Message::UninstallProjectResult(Ok(())) => Message::UninstallProjectResult(Ok(())),
            Message::UninstallProjectResult(Err(e)) => Message::UninstallProjectResult(
                Err(e.clone()),
            ),
        }
    }
}

/// The outside work a message starts.
#[derive(Debug)]
pub enum Command {
    Nothing,
    /// Fetch the version manifest, answering with `VersionsLoaded`.
    LoadVersions,
    /// List what is installed below the directory, answering with
    /// `InstalledProjectsLoaded`.
    LoadInstalled { minecraft_dir: String },
    /// Search a catalogue, answering with `ProjectsLoaded`.
    Search(ProjectSearchRequest),
    /// Install a project, answering with `InstallProjectResult`.
    Install(InstallProjectRequest),
    /// Remove an installed project, answering with `UninstallProjectResult`.
    Uninstall { project: ManagedProject, minecraft_dir: String },
    /// See whether a modpack's profile directory exists, answering with
    /// `ModpackDirChecked` and handing back `request`, the launch to start
    /// there: its `minecraft_dir` gives way to the directory found.
    CheckModpackDir { project: ManagedProject, location: ModpackLocation, request: LaunchRequest },
    /// Launch the game, answering with `LaunchEvent` messages.
    Launch(LaunchRequest),
}

/// `i` is the first release among `versions`.
pub open spec fn first_release_version_at(versions: Seq<MinecraftVersion>, i: int) -> bool {
    &&& 0 <= i < versions.len()
    &&& versions[i].kind == VersionKind::Release
    &&& forall|j: int| 0 <= j < i ==> (#[trigger] versions[j]).kind != VersionKind::Release
}

/// The version selected once a version list arrives: a blank selection
/// takes the newest release, where the list has one.
pub open spec fn version_after_load(current: String, versions: Seq<MinecraftVersion>) -> String {
    if is_blank(current@) && exists|i: int| first_release_version_at(versions, i) {
        versions[choose|i: int| first_release_version_at(versions, i)].id
    } else {
        current
    }
}

proof fn lemma_first_release_unique(versions: Seq<MinecraftVersion>, i: int, j: int)
    requires
        first_release_version_at(versions, i),
        first_release_version_at(versions, j),
    ensures
        i == j,
{
}

fn version_after_load_exec(current: String, versions: &Vec<MinecraftVersion>) -> (r: String)
    ensures
        r == version_after_load(current, versions@),
{
    if !crate::text::blank(current.as_str()) {
        return current;
    }
    let n: usize = versions.len();
    let mut i: usize = 0;
    while i < n
        invariant
            n == versions@.len(),
            i <= n,
            is_blank(current@),
            forall|j: int| 0 <= j < i ==> (#[trigger] versions@[j]).kind != VersionKind::Release,
        decreases n - i,
    {
        if versions[i].kind == VersionKind::Release {
            proof {
                assert(first_release_version_at(versions@, i as int));
                let c = choose|k: int| first_release_version_at(versions@, k);
                lemma_first_release_unique(versions@, i as int, c);
            }
            return versions[i].id.clone();
        }
        i = i + 1;
    }
    current
}

pub open spec fn loaded_versions_status(count: nat) -> Seq<char> {
    "Loaded "@ + decimal(count) + " Minecraft versions."@
}

pub open spec fn found_status(count: nat) -> Seq<char> {
    "Found "@ + decimal(count) + " result(s)."@
}

pub open spec fn installed_count_status(count: nat) -> Seq<char> {
    decimal(count) + " installed item(s)."@
}

pub open spec fn launched_status(report: LaunchReport) -> Seq<char> {
    "Launched "@ + report.version_id@ + " (pid "@ + decimal(report.pid as nat) + ")."@
}

/// The Java path to use: none when the field is blank, else the trimmed
/// field.
pub open spec fn optional_path_of(value: Seq<char>) -> Option<Seq<char>> {
    if trimmed(value).len() == 0 {
        None
    } else {
        Some(trimmed(value))
    }
}

/// The Java path to use: none when the field is blank, else the trimmed
/// field.
pub fn optional_path(value: &str) -> (r: Option<String>)
    ensures
        match r {
            Some(p) => optional_path_of(value@) == Some(p@),
            None => optional_path_of(value@) is None,
        },
{
    let t = trim(value);
    if t.unicode_len() == 0 {
        None
    } else {
        Some(String::from_str(t))
    }
}

/// Whether an optional path holds the given characters.
pub open spec fn path_is(path: Option<String>, expected: Option<Seq<char>>) -> bool {
    match (path, expected) {
        (Some(p), Some(e)) => p@ == e,
        (None, None) => true,
        _ => false,
    }
}

/// The launch the window asks for, started in `dir`.
pub open spec fn launch_request_from(app: NovaLauncher, dir: Seq<char>, request: LaunchRequest) -> bool {
    &&& request.minecraft_dir@ == dir
    &&& request.username == app.username
    &&& request.minecraft_version == app.minecraft_version
    &&& request.loader == app.loader
    &&& path_is(request.java_path, optional_path_of(app.java_path@))
    &&& request.memory_mb == app.memory_mb
}

/// A message that only edits one field of the window.
pub open spec fn is_edit(message: Message) -> bool {
    ||| message is UsernameChanged
    ||| message is VersionChanged
    ||| message is VersionPicked
    ||| message is ShowReleasesChanged
    ||| message is ShowSnapshotsChanged
    ||| message is ShowOldBetaChanged
    ||| message is ShowOldAlphaChanged
    ||| message is LoaderChanged
    ||| message is JavaPathChanged
    ||| message is MinecraftDirChanged
    ||| message is MemoryChanged
    ||| message is TabSelected
    ||| message is ProjectSourceChanged
    ||| message is ProjectKindChanged
    ||| message is ProjectQueryChanged
    ||| message is CurseForgeApiKeyChanged
}

/// How each message changes the window and which outside work it starts.
#[verifier::opaque]
pub open spec fn updated(old: NovaLauncher, message: Message, new: NovaLauncher, command: Command) -> bool {
    match message {
        Message::UsernameChanged(v) => new == NovaLauncher { username: v, ..old } && command is Nothing,
        Message::VersionChanged(v) => new == NovaLauncher { minecraft_version: v, ..old }
            && command is Nothing,
        Message::VersionPicked(v) => new == NovaLauncher { minecraft_version: v, ..old }
            && command is Nothing,
        Message::ShowReleasesChanged(v) => new == NovaLauncher { show_releases: v, ..old }
            && command is Nothing,
        Message::ShowSnapshotsChanged(v) => new == NovaLauncher { show_snapshots: v, ..old }
            && command is Nothing,
        Message::ShowOldBetaChanged(v) => new == NovaLauncher { show_old_beta: v, ..old }
            && command is Nothing,
        Message::ShowOldAlphaChanged(v) => new == NovaLauncher { show_old_alpha: v, ..old }
            && command is Nothing,
        Message::RefreshVersions => if old.versions_loading {
            new == old && command is Nothing
        } else {
            &&& new == NovaLauncher {
                versions_loading: true,
                status_is_error: false,
                status: new.status,
                ..old
            }
            &&& new.status@ == "Refreshing Minecraft versions..."@
            &&& command is LoadVersions
        },
        Message::VersionsLoaded(Ok(versions)) => {
            &&& new == NovaLauncher {
                versions_loading: false,
                minecraft_version: version_after_load(old.minecraft_version, versions@),
                versions,
                status_is_error: false,
                status: new.status,
                ..old
            }
            &&& new.status@ == loaded_versions_status(versions@.len())
            &&& command is Nothing
        },
        Message::VersionsLoaded(Err(e)) => {
            &&& new == NovaLauncher {
                versions_loading: false,
                status_is_error: true,
                status: e,
                ..old
            }
            &&& command is Nothing
        },
        Message::InitialDataLoaded(Ok((versions, installed))) => {
            &&& new == NovaLauncher {
                versions_loading: false,
                installed_loading: false,
                minecraft_version: version_after_load(old.minecraft_version, versions@),
                versions,
                installed_projects: installed,
                status_is_error: false,
                status: new.status,
                ..old
            }
            &&& new.status@ == "Ready."@
            &&& command is Nothing
        },
        Message::InitialDataLoaded(Err(e)) => {
            &&& new == NovaLauncher {
                versions_loading: false,
                installed_loading: false,
                status_is_error: true,
                status: e,
                ..old
            }
            &&& command is Nothing
        },
        Message::ProjectsLoaded(Ok(projects)) => {
            &&& new == NovaLauncher {
                search_loading: false,
                search_error: new.search_error,
                search_results: projects,
                status_is_error: false,
                status: new.status,
                ..old
            }
            &&& new.search_error@.len() == 0
            &&& new.status@ == found_status(projects@.len())
            &&& command is Nothing
        },
        Message::ProjectsLoaded(Err(e)) => {
            &&& new == NovaLauncher {
                search_loading: false,
                search_error: e,
                status_is_error: true,
                status: e,
                ..old
            }
            &&& command is Nothing
        },
        Message::InstallProjectPressed(project) => if old.project_action_busy {
            new == old && command is Nothing
        } else {
            &&& new == NovaLauncher {
                project_action_busy: true,
                status_is_error: false,
                status: new.status,
                ..old
            }
            &&& new.status@ == "Installing "@ + project.title@ + "..."@
            &&& command matches Command::Install(request) && {
                &&& request.project == project
                &&& request.minecraft_dir@ == trimmed(old.minecraft_dir@)
                &&& request.minecraft_version == old.minecraft_version
                &&& request.loader == old.loader
                &&& request.curseforge_api_key == old.curseforge_api_key
            }
        },
        Message::InstallProjectResult(Ok(report)) => {
            &&& new == NovaLauncher {
                project_action_busy: false,
                status_is_error: false,
                status: new.status,
                installed_loading: true,
                ..old
            }
            &&& new.status@ == "Installed "@ + report.filename@ + "."@
            &&& command matches Command::LoadInstalled { minecraft_dir } && minecraft_dir@
                == trimmed(old.minecraft_dir@)
        },
        Message::InstallProjectResult(Err(e)) => {
            &&& new == NovaLauncher {
                project_action_busy: false,
                status_is_error: true,
                status: e,
                ..old
            }
            &&& command is Nothing
        },
        Message::RefreshInstalledProjects => if old.installed_loading {
            new == old && command is Nothing
        } else {
            &&& new == NovaLauncher {
                installed_loading: true,
                status_is_error: false,
                status: new.status,
                ..old
            }
            &&& new.status@ == "Refreshing installed projects..."@
            &&& command matches Command::LoadInstalled { minecraft_dir } && minecraft_dir@
                == trimmed(old.minecraft_dir@)
        },
        Message::InstalledProjectsLoaded(installed) => {
            &&& new == NovaLauncher {
                installed_loading: false,
                installed_projects: installed,
                status_is_error: false,
                status: new.status,
                ..old
            }
            &&& new.status@ == installed_count_status(installed@.len())
            &&& command is Nothing
        },
        Message::UninstallProjectPressed(project) => if old.project_action_busy {
            new == old && command is Nothing
        } else {
            &&& new == NovaLauncher {
                project_action_busy: true,
                status_is_error: false,
                status: new.status,
                ..old
            }
            &&& new.status@ == "Removing "@ + project.title@ + "..."@
            &&& command matches Command::Uninstall { project: p, minecraft_dir } && p == project
                && minecraft_dir@ == trimmed(old.minecraft_dir@)
        },
        Message::UninstallProjectResult(Ok(())) => {
            &&& new == NovaLauncher {
                project_action_busy: false,
                status_is_error: false,
                status: new.status,
                installed_loading: true,
                ..old
            }
            &&& new.status@ == "Removed successfully."@
            &&& command matches Command::LoadInstalled { minecraft_dir } && minecraft_dir@
                == trimmed(old.minecraft_dir@)
        },
        Message::UninstallProjectResult(Err(e)) => {
            &&& new == NovaLauncher {
                project_action_busy: false,
                status_is_error: true,
                status: e,
                ..old
            }
            &&& command is Nothing
        },
        Message::TabSelected(tab) => new == NovaLauncher { tab, ..old } && command is Nothing,
        Message::ProjectSourceChanged(v) => new == NovaLauncher { project_source: v, ..old }
            && command is Nothing,
        Message::ProjectKindChanged(v) => new == NovaLauncher { project_kind: v, ..old }
            && command is Nothing,
        Message::ProjectQueryChanged(v) => new == NovaLauncher { project_query: v, ..old }
            && command is Nothing,
        Message::CurseForgeApiKeyChanged(v) => new == NovaLauncher {
            curseforge_api_key: v,
            ..old
        } && command is Nothing,
        Message::SearchProjects => if old.search_loading {
            new == old && command is Nothing
        } else if is_blank(old.project_query@) {
            &&& new == NovaLauncher {
                search_error: new.search_error,
                status_is_error: true,
                status: new.status,
                ..old
            }
            &&& new.search_error@ == "Enter a search query to find mods or modpacks."@
            &&& new.status@ == "Search query required."@
            &&& command is Nothing
        } else {
            &&& new == NovaLauncher {
                search_loading: true,
                search_error: new.search_error,
                status_is_error: false,
                status: new.status,
                ..old
            }
            &&& new.search_error@.len() == 0
            &&& new.status@ == "Searching..."@
            &&& command matches Command::Search(request) && {
                &&& request.source == old.project_source
                &&& request.kind == old.project_kind
                &&& request.query == old.project_query
                &&& request.minecraft_version == old.minecraft_version
                &&& request.loader == old.loader
                &&& request.curseforge_api_key == old.curseforge_api_key
            }
        },
        Message::LoaderChanged(v) => new == NovaLauncher { loader: v, ..old } && command is Nothing,
        Message::JavaPathChanged(v) => new == NovaLauncher { java_path: v, ..old }
            && command is Nothing,
        Message::MinecraftDirChanged(v) => new == NovaLauncher { minecraft_dir: v, ..old }
            && command is Nothing,
        Message::MemoryChanged(v) => new == NovaLauncher { memory_mb: v, ..old } && command is Nothing,
        Message::LaunchPressed => if old.busy {
            new == old && command is Nothing
        } else {
            &&& new == NovaLauncher {
                busy: true,
                progress_permille: 0,
                status_is_error: false,
                status: new.status,
                ..old
            }
            &&& new.status@ == "Starting launch..."@
            &&& command matches Command::Launch(request) && launch_request_from(
                old,
                trimmed(old.minecraft_dir@),
                request,
            )
        },
        Message::LaunchModpackPressed(project) => if old.busy {
            new == old && command is Nothing
        } else {
            &&& new == old
            &&& command matches Command::CheckModpackDir { project: p, location, request }
                && p == project && launch_request_from(old, trimmed(old.minecraft_dir@), request)
                && match project.installed_path {
                Some(path) => location matches ModpackLocation::Installed(l) && l == path,
                None => location matches ModpackLocation::Default { minecraft_dir, id }
                    && minecraft_dir@ == trimmed(old.minecraft_dir@) && id == project.id,
            }
        },
        Message::ModpackDirChecked { project, request, dir, exists } => if old.busy {
            new == old && command is Nothing
        } else if !exists {
            &&& new == NovaLauncher { status_is_error: true, status: new.status, ..old }
            &&& new.status@ == "Modpack profile directory not found: "@ + dir@
            &&& command is Nothing
        } else {
            &&& new == NovaLauncher {
                busy: true,
                progress_permille: 0,
                status_is_error: false,
                status: new.status,
                ..old
            }
            &&& new.status@ == "Launching "@ + project.title@ + "..."@
            &&& command == Command::Launch(LaunchRequest { minecraft_dir: dir, ..request })
        },
        Message::LaunchEvent(LaunchProgress::Progress { label, permille }) => {
            &&& new == NovaLauncher {
                progress_permille: if permille <= 1000 {
                    permille
                } else {
                    1000
                },
                status_is_error: false,
                status: label,
                ..old
            }
            &&& command is Nothing
        },
        Message::LaunchEvent(LaunchProgress::Finished(Ok(report))) => {
            &&& new == NovaLauncher {
                busy: false,
                progress_permille: 1000,
                status_is_error: false,
                status: new.status,
                ..old
            }
            &&& new.status@ == launched_status(report)
            &&& command is Nothing
        },
        Message::LaunchEvent(LaunchProgress::Finished(Err(e))) => {
            &&& new == NovaLauncher {
                busy: false,
                progress_permille: 0,
                status_is_error: true,
                status: e,
                ..old
            }
            &&& command is Nothing
        },
    }
}

fn busy_message(prefix: &str, title: &str) -> (r: String)
    ensures
        r@ == prefix@ + title@ + "..."@,
{
    String::from_str(prefix).concat(title).concat("...")
}

fn launch_request(app: &NovaLauncher, dir: String) -> (r: LaunchRequest)
    ensures
        launch_request_from(*app, dir@, r),
{
    LaunchRequest {
        minecraft_dir: dir,
        username: app.username.clone(),
        minecraft_version: app.minecraft_version.clone(),
        loader: app.loader,
        java_path: optional_path(app.java_path.as_str()),
        memory_mb: app.memory_mb,
    }
}


fn refresh_versions(app: &mut NovaLauncher) -> (r: Command)
    requires
        old(app).wf(),
    ensures
        final(app).wf(),
        updated(*old(app), Message::RefreshVersions, *final(app), r),
{
    reveal(updated);
    if app.versions_loading {
        return Command::Nothing;
    }
    app.versions_loading = true;
    app.status_is_error = false;
    app.status = String::from_str("Refreshing Minecraft versions...");
    Command::LoadVersions
}

fn versions_loaded(app: &mut NovaLauncher, result: Result<Vec<MinecraftVersion>, String>) -> (r:
    Command)
    requires
        old(app).wf(),
    ensures
        final(app).wf(),
        updated(*old(app), Message::VersionsLoaded(result), *final(app), r),
{
    reveal(updated);
    app.versions_loading = false;
    match result {
        Ok(versions) => {
            let current = app.minecraft_version.clone();
            app.minecraft_version = version_after_load_exec(current, &versions);
            let count: usize = versions.len();
            app.versions = versions;
            app.status_is_error = false;
            app.status = String::from_str("Loaded ").concat(
                decimal_string(count as u64).as_str(),
            ).concat(" Minecraft versions.");
        },
        Err(error) => {
            app.status_is_error = true;
            app.status = error;
        },
    }
    Command::Nothing
}

fn initial_data_loaded(
    app: &mut NovaLauncher,
    result: Result<(Vec<MinecraftVersion>, Vec<ManagedProject>), String>,
) -> (r: Command)
    requires
        old(app).wf(),
    ensures
        final(app).wf(),
        updated(*old(app), Message::InitialDataLoaded(result), *final(app), r),
{
    reveal(updated);
    app.versions_loading = false;
    app.installed_loading = false;
    match result {
        Ok((versions, installed)) => {
            let current = app.minecraft_version.clone();
            app.minecraft_version = version_after_load_exec(current, &versions);
            app.versions = versions;
            app.installed_projects = installed;
            app.status_is_error = false;
            app.status = String::from_str("Ready.");
        },
        Err(error) => {
            app.status_is_error = true;
            app.status = error;
        },
    }
    Command::Nothing
}

fn projects_loaded(app: &mut NovaLauncher, result: Result<Vec<ManagedProject>, String>) -> (r:
    Command)
    requires
        old(app).wf(),
    ensures
        final(app).wf(),
        updated(*old(app), Message::ProjectsLoaded(result), *final(app), r),
{
    reveal(updated);
    app.search_loading = false;
    app.search_error = String::new();
    match result {
        Ok(projects) => {
            let count: usize = projects.len();
            app.search_results = projects;
            app.status_is_error = false;
            app.status = String::from_str("Found ").concat(
                decimal_string(count as u64).as_str(),
            ).concat(" result(s).");
        },
        Err(error) => {
            app.search_error = error.clone();
            app.status_is_error = true;
            app.status = error;
        },
    }
    Command::Nothing
}

fn install_pressed(app: &mut NovaLauncher, project: ManagedProject) -> (r: Command)
    requires
        old(app).wf(),
    ensures
        final(app).wf(),
        updated(*old(app), Message::InstallProjectPressed(project), *final(app), r),
{
    reveal(updated);
    if app.project_action_busy {
        return Command::Nothing;
    }
    app.project_action_busy = true;
    app.status_is_error = false;
    app.status = busy_message("Installing ", project.title.as_str());
    let request = InstallProjectRequest {
        project,
        minecraft_dir: trimmed_string(app.minecraft_dir.as_str()),
        minecraft_version: app.minecraft_version.clone(),
        loader: app.loader,
        curseforge_api_key: app.curseforge_api_key.clone(),
    };
    Command::Install(request)
}

fn install_result(app: &mut NovaLauncher, result: Result<InstallProjectReport, String>) -> (r:
    Command)
    requires
        old(app).wf(),
    ensures
        final(app).wf(),
        updated(*old(app), Message::InstallProjectResult(result), *final(app), r),
{
    reveal(updated);
    app.project_action_busy = false;
    match result {
        Ok(report) => {
            app.status_is_error = false;
            app.status = String::from_str("Installed ").concat(report.filename.as_str()).concat(
                ".",
            );
            app.installed_loading = true;
            Command::LoadInstalled { minecraft_dir: trimmed_string(app.minecraft_dir.as_str()) }
        },
        Err(error) => {
            app.status_is_error = true;
            app.status = error;
            Command::Nothing
        },
    }
}

fn refresh_installed(app: &mut NovaLauncher) -> (r: Command)
    requires
        old(app).wf(),
    ensures
        final(app).wf(),
        updated(*old(app), Message::RefreshInstalledProjects, *final(app), r),
{
    reveal(updated);
    if app.installed_loading {
        return Command::Nothing;
    }
    app.installed_loading = true;
    app.status_is_error = false;
    app.status = String::from_str("Refreshing installed projects...");
    Command::LoadInstalled { minecraft_dir: trimmed_string(app.minecraft_dir.as_str()) }
}

fn installed_loaded(app: &mut NovaLauncher, installed: Vec<ManagedProject>) -> (r: Command)
    requires
        old(app).wf(),
    ensures
        final(app).wf(),
        updated(*old(app), Message::InstalledProjectsLoaded(installed), *final(app), r),
{
    reveal(updated);
    app.installed_loading = false;
    let count: usize = installed.len();
    app.installed_projects = installed;
    app.status_is_error = false;
    app.status = decimal_string(count as u64).concat(" installed item(s).");
    Command::Nothing
}

fn uninstall_pressed(app: &mut NovaLauncher, project: ManagedProject) -> (r: Command)
    requires
        old(app).wf(),
    ensures
        final(app).wf(),
        updated(*old(app), Message::UninstallProjectPressed(project), *final(app), r),
{
    reveal(updated);
    if app.project_action_busy {
        return Command::Nothing;
    }
    app.project_action_busy = true;
    app.status_is_error = false;
    app.status = busy_message("Removing ", project.title.as_str());
    Command::Uninstall { project, minecraft_dir: trimmed_string(app.minecraft_dir.as_str()) }
}

fn uninstall_result(app: &mut NovaLauncher, result: Result<(), String>) -> (r: Command)
    requires
        old(app).wf(),
    ensures
        final(app).wf(),
        updated(*old(app), Message::UninstallProjectResult(result), *final(app), r),
{
    reveal(updated);
    app.project_action_busy = false;
    match result {
        Ok(()) => {
            app.status_is_error = false;
            app.status = String::from_str("Removed successfully.");
            app.installed_loading = true;
            Command::LoadInstalled { minecraft_dir: trimmed_string(app.minecraft_dir.as_str()) }
        },
        Err(error) => {
            app.status_is_error = true;
            app.status = error;
            Command::Nothing
        },
    }
}

fn search(app: &mut NovaLauncher) -> (r: Command)
    requires
        old(app).wf(),
    ensures
        final(app).wf(),
        updated(*old(app), Message::SearchProjects, *final(app), r),
{
    reveal(updated);
    if app.search_loading {
        return Command::Nothing;
    }
    if crate::text::blank(app.project_query.as_str()) {
        app.search_error = String::from_str("Enter a search query to find mods or modpacks.");
        app.status_is_error = true;
        app.status = String::from_str("Search query required.");
        return Command::Nothing;
    }
    app.search_loading = true;
    app.search_error = String::new();
    app.status_is_error = false;
    app.status = String::from_str("Searching...");
    let request = ProjectSearchRequest {
        source: app.project_source,
        kind: app.project_kind,
        query: app.project_query.clone(),
        minecraft_version: app.minecraft_version.clone(),
        loader: app.loader,
        curseforge_api_key: app.curseforge_api_key.clone(),
    };
    Command::Search(request)
}

fn launch_pressed(app: &mut NovaLauncher) -> (r: Command)
    requires
        old(app).wf(),
    ensures
        final(app).wf(),
        updated(*old(app), Message::LaunchPressed, *final(app), r),
{
    reveal(updated);
    if app.busy {
        return Command::Nothing;
    }
    let request = launch_request(app, trimmed_string(app.minecraft_dir.as_str()));
    app.busy = true;
    app.progress_permille = 0;
    app.status_is_error = false;
    app.status = String::from_str("Starting launch...");
    Command::Launch(request)
}

fn modpack_pressed(app: &mut NovaLauncher, project: ManagedProject) -> (r: Command)
    requires
        old(app).wf(),
    ensures
        final(app).wf(),
        updated(*old(app), Message::LaunchModpackPressed(project), *final(app), r),
{
    reveal(updated);
    if app.busy {
        return Command::Nothing;
    }
    let location = match &project.installed_path {
        Some(path) => ModpackLocation::Installed(path.clone()),
        None => ModpackLocation::Default {
            minecraft_dir: trimmed_string(app.minecraft_dir.as_str()),
            id: project.id.clone(),
        },
    };
    let request = launch_request(app, trimmed_string(app.minecraft_dir.as_str()));
    Command::CheckModpackDir { project, location, request }
}

fn modpack_dir_checked(
    app: &mut NovaLauncher,
    project: ManagedProject,
    request: LaunchRequest,
    dir: String,
    exists: bool,
) -> (r: Command)
    requires
        old(app).wf(),
    ensures
        final(app).wf(),
        updated(
            *old(app),
            Message::ModpackDirChecked { project, request, dir, exists },
            *final(app),
            r,
        ),
{
    reveal(updated);
    if app.busy {
        return Command::Nothing;
    }
    if !exists {
        app.status_is_error = true;
        app.status = String::from_str("Modpack profile directory not found: ").concat(
            dir.as_str(),
        );
        return Command::Nothing;
    }
    let mut request = request;
    request.minecraft_dir = dir;
    app.busy = true;
    app.progress_permille = 0;
    app.status_is_error = false;
    app.status = busy_message("Launching ", project.title.as_str());
    Command::Launch(request)
}

fn launch_progress(app: &mut NovaLauncher, label: String, permille: u16) -> (r: Command)
    requires
        old(app).wf(),
    ensures
        final(app).wf(),
        updated(
            *old(app),
            Message::LaunchEvent(LaunchProgress::Progress { label, permille }),
            *final(app),
            r,
        ),
{
    reveal(updated);
    app.progress_permille = if permille <= 1000 {
        permille
    } else {
        1000
    };
    app.status_is_error = false;
    app.status = label;
    Command::Nothing
}

fn launch_finished(app: &mut NovaLauncher, result: Result<LaunchReport, String>) -> (r: Command)
    requires
        old(app).wf(),
    ensures
        final(app).wf(),
        updated(*old(app), Message::LaunchEvent(LaunchProgress::Finished(result)), *final(app), r),
{
    reveal(updated);
    app.busy = false;
    match result {
        Ok(report) => {
            app.progress_permille = 1000;
            app.status_is_error = false;
            let mut status = String::from_str("Launched ").concat(report.version_id.as_str());
            status.append(" (pid ");
            status.append(decimal_string(report.pid as u64).as_str());
            status.append(").");
            app.status = status;
        },
        Err(error) => {
            app.progress_permille = 0;
            app.status_is_error = true;
            app.status = error;
        },
    }
    Command::Nothing
}

#[verifier::rlimit(50)]
fn edit(app: &mut NovaLauncher, message: Message) -> (r: Command)
    requires
        old(app).wf(),
        is_edit(message),
    ensures
        final(app).wf(),
        updated(*old(app), message, *final(app), r),
{
    reveal(updated);
    match message {
        Message::UsernameChanged(v) => {
            app.username = v;
        },
        Message::VersionChanged(v) => {
            app.minecraft_version = v;
        },
        Message::VersionPicked(v) => {
            app.minecraft_version = v;
        },
        Message::ShowReleasesChanged(v) => {
            app.show_releases = v;
        },
        Message::ShowSnapshotsChanged(v) => {
            app.show_snapshots = v;
        },
        Message::ShowOldBetaChanged(v) => {
            app.show_old_beta = v;
        },
        Message::ShowOldAlphaChanged(v) => {
            app.show_old_alpha = v;
        },
        Message::LoaderChanged(v) => {
            app.loader = v;
        },
        Message::JavaPathChanged(v) => {
            app.java_path = v;
        },
        Message::MinecraftDirChanged(v) => {
            app.minecraft_dir = v;
        },
        Message::MemoryChanged(v) => {
            app.memory_mb = v;
        },
        Message::TabSelected(tab) => {
            app.tab = tab;
        },
        Message::ProjectSourceChanged(v) => {
            app.project_source = v;
        },
        Message::ProjectKindChanged(v) => {
            app.project_kind = v;
        },
        Message::ProjectQueryChanged(v) => {
            app.project_query = v;
        },
        Message::CurseForgeApiKeyChanged(v) => {
            app.curseforge_api_key = v;
        },
        _ => {},
    }
    Command::Nothing
}

/// The outside work that changes a busy flag is only started while that flag
/// is down, and raises it: a launch raises `busy`, an install or a removal
/// `project_action_busy`, a search `search_loading` (and needs a query), a
/// refresh of the version list `versions_loading`. Asking whether a modpack's
/// directory exists changes nothing.
pub proof fn lemma_work_starts_only_when_idle(
    old: NovaLauncher,
    message: Message,
    new: NovaLauncher,
    command: Command,
)
    requires
        updated(old, message, new, command),
    ensures
        command is Launch ==> !old.busy && new.busy,
        command is Install ==> !old.project_action_busy && new.project_action_busy,
        command is Uninstall ==> !old.project_action_busy && new.project_action_busy,
        command is Search ==> !old.search_loading && new.search_loading && !is_blank(
            old.project_query@,
        ),
        command is LoadVersions ==> !old.versions_loading && new.versions_loading,
        command is CheckModpackDir ==> !old.busy && new == old,
{
    reveal(updated);
}

/// Applies one message to the window and gives the outside work it starts.
pub fn update(app: &mut NovaLauncher, message: Message) -> (r: Command)
    requires
        old(app).wf(),
    ensures
        final(app).wf(),
        updated(*old(app), message, *final(app), r),
{
    if is_edit_exec(&message) {
        return edit(app, message);
    }
    match message {
        Message::RefreshVersions => refresh_versions(app),
        Message::VersionsLoaded(result) => versions_loaded(app, result),
        Message::InitialDataLoaded(result) => initial_data_loaded(app, result),
        Message::LaunchPressed => launch_pressed(app),
        Message::LaunchModpackPressed(project) => modpack_pressed(app, project),
        Message::ModpackDirChecked { project, request, dir, exists } => modpack_dir_checked(
            app,
            project,
            request,
            dir,
            exists,
        ),
        Message::LaunchEvent(LaunchProgress::Progress { label, permille }) => launch_progress(
            app,
            label,
            permille,
        ),
        Message::LaunchEvent(LaunchProgress::Finished(result)) => launch_finished(app, result),
        Message::SearchProjects => search(app),
        Message::ProjectsLoaded(result) => projects_loaded(app, result),
        Message::InstallProjectPressed(project) => install_pressed(app, project),
        Message::InstallProjectResult(result) => install_result(app, result),
        Message::RefreshInstalledProjects => refresh_installed(app),
        Message::InstalledProjectsLoaded(installed) => installed_loaded(app, installed),
        Message::UninstallProjectPressed(project) => uninstall_pressed(app, project),
        Message::UninstallProjectResult(result) => uninstall_result(app, result),
        _ => Command::Nothing,
    }
}

fn is_edit_exec(message: &Message) -> (r: bool)
    ensures
        r == is_edit(*message),
{
    match message {
        Message::UsernameChanged(_) | Message::VersionChanged(_) | Message::VersionPicked(_)
        | Message::ShowReleasesChanged(_) | Message::ShowSnapshotsChanged(_)
        | Message::ShowOldBetaChanged(_) | Message::ShowOldAlphaChanged(_)
        | Message::LoaderChanged(_) | Message::JavaPathChanged(_)
        | Message::MinecraftDirChanged(_) | Message::MemoryChanged(_) | Message::TabSelected(_)
        | Message::ProjectSourceChanged(_) | Message::ProjectKindChanged(_)
        | Message::ProjectQueryChanged(_) | Message::CurseForgeApiKeyChanged(_) => true,
        _ => false,
    }
}


/// Whether the version filters let a version of this channel through.
pub open spec fn channel_shown(app: NovaLauncher, kind: VersionKind) -> bool {
    match kind {
        VersionKind::Release => app.show_releases,
        VersionKind::Snapshot => app.show_snapshots,
        VersionKind::OldBeta => app.show_old_beta,
        VersionKind::OldAlpha => app.show_old_alpha,
        VersionKind::Other => true,
    }
}

/// The ids of the versions among `versions` that the filters let through,
/// in their order.
pub open spec fn visible_version_ids(app: NovaLauncher, versions: Seq<MinecraftVersion>) -> Seq<
    String,
>
    decreases versions.len(),
{
    if versions.len() == 0 {
        Seq::empty()
    } else {
        let rest = visible_version_ids(app, versions.drop_last());
        if channel_shown(app, versions.last().kind) {
            rest.push(versions.last().id)
        } else {
            rest
        }
    }
}

fn channel_shown_exec(app: &NovaLauncher, kind: VersionKind) -> (r: bool)
    ensures
        r == channel_shown(*app, kind),
{
    match kind {
        VersionKind::Release => app.show_releases,
        VersionKind::Snapshot => app.show_snapshots,
        VersionKind::OldBeta => app.show_old_beta,
        VersionKind::OldAlpha => app.show_old_alpha,
        VersionKind::Other => true,
    }
}

/// The version ids the picker offers: those whose channel is shown.
pub fn filtered_version_options(app: &NovaLauncher) -> (r: Vec<String>)
    ensures
        r@ == visible_version_ids(*app, app.versions@),
{
    let mut ids: Vec<String> = Vec::new();
    let n: usize = app.versions.len();
    let mut i: usize = 0;
    while i < n
        invariant
            n == app.versions@.len(),
            i <= n,
            ids@ == visible_version_ids(*app, app.versions@.take(i as int)),
        decreases n - i,
    {
        let version = &app.versions[i];
        assert(app.versions@.take(i + 1).drop_last() =~= app.versions@.take(i as int));
        if channel_shown_exec(app, version.kind) {
            ids.push(version.id.clone());
        }
        i = i + 1;
    }
    assert(app.versions@.take(n as int) =~= app.versions@);
    ids
}

/// The picker's selection: the typed version when the picker offers it.
pub fn selected_version(app: &NovaLauncher) -> (r: Option<String>)
    ensures
        match r {
            Some(v) => v@ == app.minecraft_version@ && exists|i: int|
                0 <= i < visible_version_ids(*app, app.versions@).len() && (
                #[trigger] visible_version_ids(*app, app.versions@)[i])@ == v@,
            None => forall|i: int|
                0 <= i < visible_version_ids(*app, app.versions@).len() ==> (
                #[trigger] visible_version_ids(*app, app.versions@)[i])@
                    != app.minecraft_version@,
        },
{
    let options = filtered_version_options(app);
    let n: usize = options.len();
    let mut i: usize = 0;
    while i < n
        invariant
            n == options@.len(),
            options@ == visible_version_ids(*app, app.versions@),
            i <= n,
            forall|k: int| 0 <= k < i ==> (#[trigger] options@[k])@ != app.minecraft_version@,
        decreases n - i,
    {
        if options[i] == app.minecraft_version {
            return Some(options[i].clone());
        }
        i = i + 1;
    }
    None
}

/// How wide the window is, coarsely.
#[derive(Debug, Clone, Copy, PartialEq, Eq, Structural)]
pub enum LayoutMode {
    Narrow,
    Medium,
    Wide,
}

impl LayoutMode {
    /// Stacks the picker and its refresh button.
    pub fn is_narrow(self) -> (r: bool)
        ensures
            r == (self == LayoutMode::Narrow),
    {
        match self {
            LayoutMode::Narrow => true,
            _ => false,
        }
    }

    /// Puts paired fields under one another instead of side by side.
    pub fn uses_single_column(self) -> (r: bool)
        ensures
            r == (self != LayoutMode::Wide),
    {
        match self {
            LayoutMode::Wide => false,
            _ => true,
        }
    }

    pub fn padding(self) -> (r: u16)
        ensures
            r == match self {
                LayoutMode::Narrow => 14u16,
                LayoutMode::Medium => 20u16,
                LayoutMode::Wide => 28u16,
            },
    {
        match self {
            LayoutMode::Narrow => 14,
            LayoutMode::Medium => 20,
            LayoutMode::Wide => 28,
        }
    }

    pub fn spacing(self) -> (r: u32)
        ensures
            r == match self {
                LayoutMode::Narrow => 14u32,
                LayoutMode::Medium => 16u32,
                LayoutMode::Wide => 18u32,
            },
    {
        match self {
            LayoutMode::Narrow => 14,
            LayoutMode::Medium => 16,
            LayoutMode::Wide => 18,
        }
    }

    pub fn max_content_width(self) -> (r: u32)
        ensures
            r == match self {
                LayoutMode::Narrow => 520u32,
                LayoutMode::Medium => 640u32,
                LayoutMode::Wide => 800u32,
            },
    {
        match self {
            LayoutMode::Narrow => 520,
            LayoutMode::Medium => 640,
            LayoutMode::Wide => 800,
        }
    }
}

/// The caption of the launch button: it names the typed version, if any.
pub fn launch_button_label(minecraft_version: &str) -> (r: String)
    ensures
        r@ == if trimmed(minecraft_version@).len() == 0 {
            "Install & Launch"@
        } else {
            "Install & Launch  "@ + trimmed(minecraft_version@)
        },
{
    let version = trim(minecraft_version);
    if version.unicode_len() == 0 {
        String::from_str("Install & Launch")
    } else {
        String::from_str("Install & Launch  ").concat(version)
    }
}

/// The tone of the status line.
#[derive(Debug, Clone, Copy, PartialEq, Eq, Structural)]
pub enum StatusTone {
    Working,
    Failed,
    Fine,
}

/// Working while a launch or a project action runs, else failed after an
/// error, else fine.
pub fn status_tone(app: &NovaLauncher) -> (r: StatusTone)
    ensures
        r == if app.busy || app.project_action_busy {
            StatusTone::Working
        } else if app.status_is_error {
            StatusTone::Failed
        } else {
            StatusTone::Fine
        },
{
    if app.busy || app.project_action_busy {
        StatusTone::Working
    } else if app.status_is_error {
        StatusTone::Failed
    } else {
        StatusTone::Fine
    }
}

/// Whether the checkbox for a channel lets its versions into the picker;
/// versions of no known channel are always offered.
pub open spec fn checkbox_lets_through(app: NovaLauncher, kind: VersionKind) -> bool {
    match kind {
        VersionKind::Release => app.show_releases,
        VersionKind::Snapshot => app.show_snapshots,
        VersionKind::OldBeta => app.show_old_beta,
        VersionKind::OldAlpha => app.show_old_alpha,
        VersionKind::Other => true,
    }
}

/// The picker offers a version exactly when its own channel's checkbox is
/// ticked: every version whose box is ticked is offered, and every offered
/// id is that of a listed version whose box is ticked. So old alphas follow
/// the old alpha box, whatever the old beta box says.
/// `id` is the id of a version among `versions` whose channel's checkbox is
/// ticked.
pub open spec fn listed_and_ticked(app: NovaLauncher, versions: Seq<MinecraftVersion>, id: String) -> bool {
    exists|i: int|
        0 <= i < versions.len() && (#[trigger] versions[i]).id == id && checkbox_lets_through(
            app,
            versions[i].kind,
        )
}

pub proof fn lemma_picker_follows_the_checkboxes(app: NovaLauncher, versions: Seq<MinecraftVersion>)
    ensures
        forall|i: int|
            0 <= i < versions.len() && checkbox_lets_through(app, (#[trigger] versions[i]).kind)
                ==> visible_version_ids(app, versions).contains(versions[i].id),
        forall|j: int|
            0 <= j < visible_version_ids(app, versions).len() ==> listed_and_ticked(
                app,
                versions,
                #[trigger] visible_version_ids(app, versions)[j],
            ),
    decreases versions.len(),
{
    if versions.len() == 0 {
        assert(visible_version_ids(app, versions).len() == 0);
    } else {
        let rest = versions.drop_last();
        let last = versions.last();
        lemma_picker_follows_the_checkboxes(app, rest);
        let shown = visible_version_ids(app, versions);
        let before = visible_version_ids(app, rest);
        assert forall|i: int|
            0 <= i < versions.len() && checkbox_lets_through(app, (#[trigger] versions[i]).kind)
                implies shown.contains(versions[i].id) by {
            if i < versions.len() - 1 {
                assert(rest[i] == versions[i]);
                let k = choose|k: int| 0 <= k < before.len() && before[k] == rest[i].id;
                assert(shown[k] == before[k]);
            } else {
                assert(shown[shown.len() - 1] == last.id);
            }
        }
        assert forall|j: int| 0 <= j < shown.len() implies listed_and_ticked(
            app,
            versions,
            #[trigger] shown[j],
        ) by {
            if j < before.len() {
                assert(shown[j] == before[j]);
                assert(listed_and_ticked(app, rest, before[j]));
                let i = choose|i: int|
                    0 <= i < rest.len() && (#[trigger] rest[i]).id == before[j]
                        && checkbox_lets_through(app, rest[i].kind);
                assert(versions[i] == rest[i]);
                assert(versions[i].id == shown[j] && checkbox_lets_through(app, versions[i].kind));
            } else {
                let i = versions.len() - 1;
                assert(versions[i] == last);
                assert(channel_shown(app, last.kind));
                assert(versions[i].id == shown[j] && checkbox_lets_through(app, versions[i].kind));
            }
        }
    }
}

/// Every launch the window starts uses the window's own settings: the
/// loader, username, version, memory and Java path it shows, with the Java
/// path left to `PATH` when its field is blank. A plain launch runs in the
/// trimmed launcher directory; a modpack launch is prepared from the same
/// settings when pressed and runs in the modpack's directory once that is
/// found.
pub proof fn lemma_launches_use_the_window_settings(
    old: NovaLauncher,
    message: Message,
    new: NovaLauncher,
    command: Command,
)
    requires
        updated(old, message, new, command),
    ensures
        match (message, command) {
            (Message::LaunchPressed, Command::Launch(r)) => {
                &&& r.loader == old.loader
                &&& r.username == old.username
                &&& r.minecraft_version == old.minecraft_version
                &&& r.memory_mb == old.memory_mb
                &&& r.minecraft_dir@ == trimmed(old.minecraft_dir@)
                &&& (r.java_path is None <==> is_blank(old.java_path@))
                &&& (r.java_path matches Some(p) ==> p@ == trimmed(old.java_path@))
            },
            (Message::LaunchModpackPressed(_), Command::CheckModpackDir { request: r, .. }) => {
                &&& r.loader == old.loader
                &&& r.username == old.username
                &&& r.minecraft_version == old.minecraft_version
                &&& r.memory_mb == old.memory_mb
                &&& (r.java_path is None <==> is_blank(old.java_path@))
                &&& (r.java_path matches Some(p) ==> p@ == trimmed(old.java_path@))
            },
            (Message::ModpackDirChecked { request, dir, .. }, Command::Launch(r)) => {
                &&& r.loader == request.loader
                &&& r.username == request.username
                &&& r.minecraft_version == request.minecraft_version
                &&& r.memory_mb == request.memory_mb
                &&& r.java_path == request.java_path
                &&& r.minecraft_dir == dir
            },
            _ => true,
        },
        message is LaunchPressed && !old.busy ==> command is Launch,
        message is LaunchModpackPressed && !old.busy ==> command is CheckModpackDir,
{
    reveal(updated);
}

/// The searches and installs the window starts use its own settings: a
/// search asks the chosen catalogue for the chosen kind with the typed
/// query, version, loader and key; an install fetches the pressed project
/// for the typed version and chosen loader into the trimmed launcher
/// directory.
pub proof fn lemma_catalogue_work_uses_the_window_settings(
    old: NovaLauncher,
    message: Message,
    new: NovaLauncher,
    command: Command,
)
    requires
        updated(old, message, new, command),
    ensures
        match (message, command) {
            (Message::SearchProjects, Command::Search(r)) => {
                &&& r.source == old.project_source
                &&& r.kind == old.project_kind
                &&& r.query == old.project_query
                &&& r.minecraft_version == old.minecraft_version
                &&& r.loader == old.loader
                &&& r.curseforge_api_key == old.curseforge_api_key
            },
            (Message::InstallProjectPressed(project), Command::Install(r)) => {
                &&& r.project == project
                &&& r.minecraft_version == old.minecraft_version
                &&& r.loader == old.loader
                &&& r.curseforge_api_key == old.curseforge_api_key
                &&& r.minecraft_dir@ == trimmed(old.minecraft_dir@)
            },
            (Message::UninstallProjectPressed(project), Command::Uninstall { project: p, .. }) => p
                == project,
            _ => true,
        },
        message is SearchProjects && !old.search_loading && !is_blank(old.project_query@)
            ==> command is Search,
        message is InstallProjectPressed && !old.project_action_busy ==> command is Install,
{
    reveal(updated);
}
} // verus!
