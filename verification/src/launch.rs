//! Launch requests, their validation, install progress and the sequence of
//! steps that takes a request to a running game.
use vstd::prelude::*;

use crate::text::{
    decimal, decimal_string, is_username_char, is_username_char_exec, same_text, trim,
    trimmed, trimmed_string,
};

verus! {

/// The mod loader a game is installed with.
#[derive(Debug, Clone, Copy, PartialEq, Eq, Structural)]
pub enum LoaderChoice {
    Vanilla,
    Fabric,
    Quilt,
    Forge,
    NeoForge,
}

/// The name a loader is shown under.
pub open spec fn loader_label(loader: LoaderChoice) -> Seq<char> {
    match loader {
        LoaderChoice::Vanilla => "Vanilla"@,
        LoaderChoice::Fabric => "Fabric"@,
        LoaderChoice::Quilt => "Quilt"@,
        LoaderChoice::Forge => "Forge"@,
        LoaderChoice::NeoForge => "NeoForge"@,
    }
}

impl LoaderChoice {
    /// Every loader, in the order the picker lists them.
    pub fn all() -> (r: Vec<LoaderChoice>)
        ensures
            r@ == seq![
                LoaderChoice::Vanilla,
                LoaderChoice::Fabric,
                LoaderChoice::Quilt,
                LoaderChoice::Forge,
                LoaderChoice::NeoForge,
            ],
    {
        let mut v: Vec<LoaderChoice> = Vec::new();
        v.push(LoaderChoice::Vanilla);
        v.push(LoaderChoice::Fabric);
        v.push(LoaderChoice::Quilt);
        v.push(LoaderChoice::Forge);
        v.push(LoaderChoice::NeoForge);
        assert(v@ =~= seq![
            LoaderChoice::Vanilla,
            LoaderChoice::Fabric,
            LoaderChoice::Quilt,
            LoaderChoice::Forge,
            LoaderChoice::NeoForge,
        ]);
        v
    }

    /// The name this loader is shown under.
    pub fn label(self) -> (r: &'static str)
        ensures
            r@ == loader_label(self),
    {
        match self {
            LoaderChoice::Vanilla => "Vanilla",
            LoaderChoice::Fabric => "Fabric",
            LoaderChoice::Quilt => "Quilt",
            LoaderChoice::Forge => "Forge",
            LoaderChoice::NeoForge => "NeoForge",
        }
    }
}

/// A complete request to install and start one game version.
#[derive(Debug, Clone)]
pub struct LaunchRequest {
    pub minecraft_dir: String,
    pub username: String,
    pub minecraft_version: String,
    pub loader: LoaderChoice,
    pub java_path: Option<String>,
    pub memory_mb: u16,
}

/// What a successful launch started.
#[derive(Debug, Clone)]
pub struct LaunchReport {
    pub version_id: String,
    pub pid: u32,
}

/// One version from the game's version manifest.
#[derive(Debug, Clone)]
pub struct MinecraftVersion {
    pub id: String,
    pub kind: VersionKind,
}

/// The release channel of a game version.
#[derive(Debug, Clone, Copy, PartialEq, Eq, Structural)]
pub enum VersionKind {
    Release,
    Snapshot,
    OldBeta,
    OldAlpha,
    Other,
}

/// The channel that a manifest `type` field names.
pub open spec fn version_kind_of(value: Seq<char>) -> VersionKind {
    if value == "release"@ {
        VersionKind::Release
    } else if value == "snapshot"@ {
        VersionKind::Snapshot
    } else if value == "old_beta"@ {
        VersionKind::OldBeta
    } else if value == "old_alpha"@ {
        VersionKind::OldAlpha
    } else {
        VersionKind::Other
    }
}

impl VersionKind {
    /// Reads the `type` field of a version manifest entry.
    pub fn from_manifest_type(value: &str) -> (r: Self)
        ensures
            r == version_kind_of(value@),
    {
        if same_text(value, "release") {
            VersionKind::Release
        } else if same_text(value, "snapshot") {
            VersionKind::Snapshot
        } else if same_text(value, "old_beta") {
            VersionKind::OldBeta
        } else if same_text(value, "old_alpha") {
            VersionKind::OldAlpha
        } else {
            VersionKind::Other
        }
    }
}

/// A progress report of a launch. Progress is counted in tenths of a
/// percent: 1000 is a finished launch.
#[derive(Debug)]
pub enum LaunchProgress {
    Progress { label: String, permille: u16 },
    Finished(Result<LaunchReport, String>),
}

impl Clone for LaunchProgress {
    fn clone(&self) -> (r: Self) {
        match self {
            LaunchProgress::Progress { label, permille } => LaunchProgress::Progress {
                label: label.clone(),
                permille: *permille,
            },
            LaunchProgress::Finished(Ok(report)) => LaunchProgress::Finished(Ok(report.clone())),
            LaunchProgress::Finished(Err(e)) => LaunchProgress::Finished(Err(e.clone())),
        }
    }
}

/// The label and the position of a progress report.
pub open spec fn progress_is(p: LaunchProgress, label: Seq<char>, permille: int) -> bool {
    p matches LaunchProgress::Progress { label: l, permille: m } && l@ == label && m == permille
}

/// The reason a launch request is refused, if it is.
pub open spec fn launch_request_problem(request: LaunchRequest) -> Option<Seq<char>> {
    let username = trimmed(request.username@);
    let version = trimmed(request.minecraft_version@);
    if username.len() == 0 {
        Some("Enter an offline username."@)
    } else if username.len() > 16 || !(forall|i: int|
        0 <= i < username.len() ==> is_username_char(#[trigger] username[i])) {
        Some("Minecraft usernames can only use 1-16 letters, numbers, or underscores."@)
    } else if version.len() == 0 {
        Some("Enter a Minecraft version, for example 1.20.1."@)
    } else if request.memory_mb < 512 {
        Some("Use at least 512 MB of memory."@)
    } else {
        None
    }
}

fn all_username_chars(s: &str) -> (r: bool)
    ensures
        r == (forall|i: int| 0 <= i < s@.len() ==> is_username_char(#[trigger] s@[i])),
{
    let n: usize = s.unicode_len();
    let mut i: usize = 0;
    while i < n
        invariant
            n == s@.len(),
            i <= n,
            forall|k: int| 0 <= k < i ==> is_username_char(#[trigger] s@[k]),
        decreases n - i,
    {
        if !is_username_char_exec(s.get_char(i)) {
            return false;
        }
        i = i + 1;
    }
    true
}

/// Checks a launch request before anything is installed.
pub fn validate_request(request: &LaunchRequest) -> (r: Result<(), String>)
    ensures
        match r {
            Ok(()) => launch_request_problem(*request) is None,
            Err(e) => launch_request_problem(*request) == Some(e@),
        },
{
    let username = trim(request.username.as_str());
    let version = trim(request.minecraft_version.as_str());
    let username_len: usize = username.unicode_len();
    if username_len == 0 {
        return Err(String::from_str("Enter an offline username."));
    }
    if username_len > 16 || !all_username_chars(username) {
        return Err(
            String::from_str(
                "Minecraft usernames can only use 1-16 letters, numbers, or underscores.",
            ),
        );
    }
    if version.unicode_len() == 0 {
        return Err(String::from_str("Enter a Minecraft version, for example 1.20.1."));
    }
    if request.memory_mb < 512 {
        return Err(String::from_str("Use at least 512 MB of memory."));
    }
    Ok(())
}

/// The stages an installation goes through.
#[derive(Debug, Clone, Copy, PartialEq, Eq, Structural)]
pub enum InstallStage {
    ResolveVersion,
    DownloadLibraries,
    DownloadAssets,
    InstallRuntime,
    ExtractNatives,
    LoaderInstall,
    Verify,
}

/// How far, in tenths of a percent, a launch is when a stage begins.
pub open spec fn stage_position(stage: InstallStage) -> int {
    match stage {
        InstallStage::ResolveVersion => 80,
        InstallStage::DownloadLibraries => 200,
        InstallStage::DownloadAssets => 420,
        InstallStage::InstallRuntime => 580,
        InstallStage::ExtractNatives => 720,
        InstallStage::LoaderInstall => 780,
        InstallStage::Verify => 840,
    }
}

/// How a stage is described to the player.
pub open spec fn stage_description(stage: InstallStage) -> Seq<char> {
    match stage {
        InstallStage::ResolveVersion => "resolving version"@,
        InstallStage::DownloadLibraries => "downloading libraries"@,
        InstallStage::DownloadAssets => "downloading assets"@,
        InstallStage::InstallRuntime => "installing Java runtime"@,
        InstallStage::ExtractNatives => "extracting natives"@,
        InstallStage::LoaderInstall => "installing loader"@,
        InstallStage::Verify => "verifying files"@,
    }
}

/// How far, in tenths of a percent, a launch is when `stage` begins.
pub fn stage_percent(stage: InstallStage) -> (r: u16)
    ensures
        r == stage_position(stage),
{
    match stage {
        InstallStage::ResolveVersion => 80,
        InstallStage::DownloadLibraries => 200,
        InstallStage::DownloadAssets => 420,
        InstallStage::InstallRuntime => 580,
        InstallStage::ExtractNatives => 720,
        InstallStage::LoaderInstall => 780,
        InstallStage::Verify => 840,
    }
}

/// How `stage` is described to the player.
pub fn stage_label(stage: InstallStage) -> (r: &'static str)
    ensures
        r@ == stage_description(stage),
{
    match stage {
        InstallStage::ResolveVersion => "resolving version",
        InstallStage::DownloadLibraries => "downloading libraries",
        InstallStage::DownloadAssets => "downloading assets",
        InstallStage::InstallRuntime => "installing Java runtime",
        InstallStage::ExtractNatives => "extracting natives",
        InstallStage::LoaderInstall => "installing loader",
        InstallStage::Verify => "verifying files",
    }
}

/// What the installer reports while it works.
#[derive(Debug, Clone)]
pub enum InstallEvent {
    StageStarted { stage: InstallStage },
    TaskStarted { label: String },
    TaskSkipped { label: String },
    TaskFinished { label: String },
    BytesReceived { label: String, received: u64, total: Option<u64> },
}

/// The lowest position of the install part of a launch.
pub open spec fn install_floor() -> int {
    50
}

/// The highest position of the install part of a launch.
pub open spec fn install_ceiling() -> int {
    840
}

pub open spec fn min_int(a: int, b: int) -> int {
    if a <= b {
        a
    } else {
        b
    }
}

pub open spec fn max_int(a: int, b: int) -> int {
    if a >= b {
        a
    } else {
        b
    }
}

/// The position after the installer reports `event` at position `p`.
pub open spec fn position_after(p: int, event: InstallEvent) -> int {
    match event {
        InstallEvent::StageStarted { stage } => max_int(p, stage_position(stage)),
        InstallEvent::TaskStarted { .. } => p,
        InstallEvent::TaskSkipped { .. } => min_int(p + 7, install_ceiling()),
        InstallEvent::TaskFinished { .. } => min_int(p + 15, install_ceiling()),
        InstallEvent::BytesReceived { .. } => p,
    }
}

/// The message shown for an installer report.
pub open spec fn install_event_label(event: InstallEvent) -> Seq<char> {
    match event {
        InstallEvent::StageStarted { stage } => "Install stage: "@ + stage_description(stage),
        InstallEvent::TaskStarted { label } => "Downloading "@ + label@,
        InstallEvent::TaskSkipped { label } => "Already installed: "@ + label@,
        InstallEvent::TaskFinished { label } => "Downloaded "@ + label@,
        InstallEvent::BytesReceived { label, received, total } => "Downloading "@ + label@ + match
            total {
            Some(t) => " ("@ + decimal(received as nat) + "/"@ + decimal(t as nat) + " bytes)"@,
            None => " ("@ + decimal(received as nat) + " bytes)"@,
        },
    }
}

/// Turns installer reports into launch progress; the position only moves
/// forward and stays within the install part of the launch.
#[derive(Debug)]
pub struct InstallProgress {
    permille: u16,
}

impl InstallProgress {
    /// The position reached so far, in tenths of a percent.
    pub closed spec fn position(&self) -> int {
        self.permille as int
    }

    /// The position stays within the install part of a launch.
    pub closed spec fn wf(&self) -> bool {
        install_floor() <= self.permille <= install_ceiling()
    }

    /// A tracker at the start of the install part (5%).
    pub fn new() -> (r: Self)
        ensures
            r.wf(),
            r.position() == install_floor(),
            install_floor() <= r.position() <= install_ceiling(),
    {
        InstallProgress { permille: 50 }
    }

    /// The position reached so far, in tenths of a percent.
    pub fn permille(&self) -> (r: u16)
        ensures
            r == self.position(),
    {
        self.permille
    }

    /// Records an installer report and gives the progress to show for it.
    pub fn observe(&mut self, event: InstallEvent) -> (r: Option<LaunchProgress>)
        requires
            old(self).wf(),
        ensures
            final(self).wf(),
            install_floor() <= final(self).position() <= install_ceiling(),
            final(self).position() == position_after(old(self).position(), event),
            old(self).position() <= final(self).position(),
            r matches Some(p) && progress_is(
                p,
                install_event_label(event),
                final(self).position(),
            ),
    {
        let label = match event {
            InstallEvent::StageStarted { stage } => {
                let target = stage_percent(stage);
                if target > self.permille {
                    self.permille = target;
                }
                let mut s = String::from_str("Install stage: ");
                s.append(stage_label(stage));
                s
            },
            InstallEvent::TaskStarted { label } => {
                String::from_str("Downloading ").concat(label.as_str())
            },
            InstallEvent::TaskSkipped { label } => {
                self.permille = if self.permille + 7 < 840 {
                    self.permille + 7
                } else {
                    840
                };
                String::from_str("Already installed: ").concat(label.as_str())
            },
            InstallEvent::TaskFinished { label } => {
                self.permille = if self.permille + 15 < 840 {
                    self.permille + 15
                } else {
                    840
                };
                String::from_str("Downloaded ").concat(label.as_str())
            },
            InstallEvent::BytesReceived { label, received, total } => {
                let mut tail = String::from_str(" (");
                tail.append(decimal_string(received).as_str());
                match total {
                    Some(t) => {
                        tail.append("/");
                        tail.append(decimal_string(t).as_str());
                        tail.append(" bytes)");
                    },
                    None => {
                        tail.append(" bytes)");
                    },
                }
                String::from_str("Downloading ").concat(label.as_str()).concat(tail.as_str())
            },
        };
        Some(LaunchProgress::Progress { label, permille: self.permille })
    }
}


/// What the game is started with, besides what the installed version
/// itself prescribes.
#[derive(Debug, Clone)]
pub struct LaunchOptions {
    /// The offline account name.
    pub username: String,
    /// The Java executable to use; the one on `PATH` where absent.
    pub java_executable: Option<String>,
    pub launcher_name: String,
}

/// The outcome of each piece of outside work that a launch waits for.
#[derive(Debug)]
pub enum LaunchEvent {
    /// A report from the installer while it works.
    Install(InstallEvent),
    /// The installer finished: the installed version id, or why it failed.
    Installed(Result<String, String>),
    /// The installed version's metadata was read, or why it could not be.
    VersionLoaded(Result<(), String>),
    /// The arguments of the Java command line, or why it could not be built.
    CommandBuilt(Result<Vec<String>, String>),
    /// The id of the started process, or why it could not be started.
    Spawned(Result<u32, String>),
}

/// The outside work a launch needs next.
#[derive(Debug)]
pub enum NextStep {
    /// Install this version with this loader into the launcher directory,
    /// reporting progress as it goes.
    Install { minecraft_dir: String, minecraft_version: String, loader: LoaderChoice },
    /// The installer is still at work.
    KeepInstalling,
    /// Read the metadata of the installed version.
    LoadVersion { version_id: String },
    /// Build the Java command line for the loaded version.
    BuildCommand(LaunchOptions),
    /// Start the game with these arguments.
    Spawn { args: Vec<String> },
    /// The launch is over, with this outcome.
    Finish(Result<LaunchReport, String>),
}

/// What one step of a launch reports and what it asks for next.
#[derive(Debug)]
pub struct LaunchStep {
    pub progress: Option<LaunchProgress>,
    pub next: NextStep,
}

/// Where a launch stands.
#[derive(Debug, Clone, Copy, PartialEq, Eq, Structural)]
pub enum LaunchPhase {
    Installing,
    LoadingVersion,
    BuildingCommand,
    Starting,
    Done,
}

/// Whether a launch in `phase` waits for `event`.
pub open spec fn phase_accepts(phase: LaunchPhase, event: LaunchEvent) -> bool {
    match event {
        LaunchEvent::Install(_) => phase == LaunchPhase::Installing,
        LaunchEvent::Installed(_) => phase == LaunchPhase::Installing,
        LaunchEvent::VersionLoaded(_) => phase == LaunchPhase::LoadingVersion,
        LaunchEvent::CommandBuilt(_) => phase == LaunchPhase::BuildingCommand,
        LaunchEvent::Spawned(_) => phase == LaunchPhase::Starting,
    }
}

/// A finished launch, failed or not, waits for no further outside work.
pub proof fn lemma_finished_launch_waits_for_nothing(event: LaunchEvent)
    ensures
        !phase_accepts(LaunchPhase::Done, event),
{
}

/// The memory flag put in front of the Java arguments.
pub open spec fn memory_flag(memory_mb: u16) -> Seq<char> {
    "-Xmx"@ + decimal(memory_mb as nat) + "M"@
}

/// A finished launch whose outcome is the error `prefix` followed by `detail`.
pub open spec fn fails_with(step: LaunchStep, prefix: Seq<char>, detail: String) -> bool {
    &&& step.progress is None
    &&& step.next matches NextStep::Finish(Err(e)) && e@ == prefix + detail@
}

/// A launch in progress: the request it serves and how far it has come.
pub struct LaunchSession {
    request: LaunchRequest,
    phase: LaunchPhase,
    tracker: InstallProgress,
    version_id: String,
}

impl LaunchSession {
    pub closed spec fn request(&self) -> LaunchRequest {
        self.request
    }

    pub closed spec fn current_phase(&self) -> LaunchPhase {
        self.phase
    }

    /// The version id the installer reported, once it has.
    pub closed spec fn installed_version(&self) -> Seq<char> {
        self.version_id@
    }

    /// The position every later progress report is at or beyond, and every
    /// earlier one at or below.
    pub closed spec fn floor(&self) -> int {
        match self.phase {
            LaunchPhase::Installing => self.tracker.position(),
            LaunchPhase::LoadingVersion => 860,
            LaunchPhase::BuildingCommand => 910,
            LaunchPhase::Starting => 960,
            LaunchPhase::Done => 1000,
        }
    }

    pub closed spec fn wf(&self) -> bool {
        self.tracker.wf()
    }

    /// Validates the request and, when it is sound, asks for the install.
    pub fn start(request: LaunchRequest) -> (r: (LaunchSession, LaunchStep))
        ensures
            launch_started(request, r.0, r.1),
    {
        let checked = validate_request(&request);
        let tracker = InstallProgress::new();
        match checked {
            Err(e) => {
                let session = LaunchSession {
                    request,
                    phase: LaunchPhase::Done,
                    tracker,
                    version_id: String::new(),
                };
                (session, LaunchStep { progress: None, next: NextStep::Finish(Err(e)) })
            },
            Ok(()) => {
                let minecraft_dir = request.minecraft_dir.clone();
                let minecraft_version = request.minecraft_version.clone();
                let loader = request.loader;
                let session = LaunchSession {
                    request,
                    phase: LaunchPhase::Installing,
                    tracker,
                    version_id: String::new(),
                };
                let progress = LaunchProgress::Progress {
                    label: String::from_str("Validated launch settings."),
                    permille: 20,
                };
                (
                    session,
                    LaunchStep {
                        progress: Some(progress),
                        next: NextStep::Install { minecraft_dir, minecraft_version, loader },
                    },
                )
            },
        }
    }

    /// Where the launch stands.
    pub fn phase(&self) -> (r: LaunchPhase)
        ensures
            r == self.current_phase(),
    {
        self.phase
    }

    /// Whether the launch waits for `event`.
    pub fn accepts(&self, event: &LaunchEvent) -> (r: bool)
        ensures
            r == phase_accepts(self.current_phase(), *event),
    {
        match event {
            LaunchEvent::Install(_) => self.phase == LaunchPhase::Installing,
            LaunchEvent::Installed(_) => self.phase == LaunchPhase::Installing,
            LaunchEvent::VersionLoaded(_) => self.phase == LaunchPhase::LoadingVersion,
            LaunchEvent::CommandBuilt(_) => self.phase == LaunchPhase::BuildingCommand,
            LaunchEvent::Spawned(_) => self.phase == LaunchPhase::Starting,
        }
    }

    /// Takes in the outcome of the outside work the launch waited for and
    /// says what to report and what to do next.
    pub fn step(&mut self, event: LaunchEvent) -> (r: LaunchStep)
        requires
            old(self).wf(),
            phase_accepts(old(self).current_phase(), event),
        ensures
            launch_stepped(*old(self), event, r, *final(self)),
    {
        match event {
            LaunchEvent::Install(e) => {
                let progress = self.tracker.observe(e);
                LaunchStep { progress, next: NextStep::KeepInstalling }
            },
            LaunchEvent::Installed(Ok(id)) => {
                self.phase = LaunchPhase::LoadingVersion;
                let version_id = id.clone();
                self.version_id = id;
                LaunchStep {
                    progress: Some(
                        LaunchProgress::Progress {
                            label: String::from_str("Loading version metadata."),
                            permille: 860,
                        },
                    ),
                    next: NextStep::LoadVersion { version_id },
                }
            },
            LaunchEvent::Installed(Err(d)) => {
                self.phase = LaunchPhase::Done;
                self.failure("Install failed: ", d)
            },
            LaunchEvent::VersionLoaded(Ok(())) => {
                self.phase = LaunchPhase::BuildingCommand;
                let java_executable = match &self.request.java_path {
                    Some(path) => Some(path.clone()),
                    None => None,
                };
                let options = LaunchOptions {
                    username: trimmed_string(self.request.username.as_str()),
                    java_executable,
                    launcher_name: String::from_str("NovaLauncher"),
                };
                LaunchStep {
                    progress: Some(
                        LaunchProgress::Progress {
                            label: String::from_str("Building Java launch command."),
                            permille: 910,
                        },
                    ),
                    next: NextStep::BuildCommand(options),
                }
            },
            LaunchEvent::VersionLoaded(Err(d)) => {
                self.phase = LaunchPhase::Done;
                self.failure("Version metadata failed to load: ", d)
            },
            LaunchEvent::CommandBuilt(Ok(args)) => {
                self.phase = LaunchPhase::Starting;
                let mut flag = String::from_str("-Xmx");
                flag.append(decimal_string(self.request.memory_mb as u64).as_str());
                flag.append("M");
                let mut spawn_args = args;
                spawn_args.insert(0, flag);
                assert(spawn_args@.subrange(1, spawn_args@.len() as int) =~= args@);
                LaunchStep {
                    progress: Some(
                        LaunchProgress::Progress {
                            label: String::from_str("Starting Minecraft process."),
                            permille: 960,
                        },
                    ),
                    next: NextStep::Spawn { args: spawn_args },
                }
            },
            LaunchEvent::CommandBuilt(Err(d)) => {
                self.phase = LaunchPhase::Done;
                self.failure("Launch command could not be built: ", d)
            },
            LaunchEvent::Spawned(Ok(pid)) => {
                self.phase = LaunchPhase::Done;
                let report = LaunchReport { version_id: self.version_id.clone(), pid };
                LaunchStep {
                    progress: Some(
                        LaunchProgress::Progress {
                            label: String::from_str("Minecraft started."),
                            permille: 1000,
                        },
                    ),
                    next: NextStep::Finish(Ok(report)),
                }
            },
            LaunchEvent::Spawned(Err(d)) => {
                self.phase = LaunchPhase::Done;
                self.failure("Minecraft could not be started: ", d)
            },
        }
    }

    fn failure(&self, prefix: &str, detail: String) -> (r: LaunchStep)
        ensures
            fails_with(r, prefix@, detail),
    {
        let message = String::from_str(prefix).concat(detail.as_str());
        LaunchStep { progress: None, next: NextStep::Finish(Err(message)) }
    }
}

/// One entry of the game's version manifest: its id and its `type` field.
#[derive(Debug, Clone)]
pub struct ManifestEntry {
    pub id: String,
    pub kind: String,
}

/// The versions a fetched manifest lists, in its order, or why it could not
/// be fetched.
pub fn versions_from_manifest(fetched: Result<Vec<ManifestEntry>, String>) -> (r: Result<
    Vec<MinecraftVersion>,
    String,
>)
    ensures
        match fetched {
            Ok(entries) => r matches Ok(versions) && versions@.len() == entries@.len() && forall|
                i: int,
            |
                0 <= i < entries@.len() ==> {
                    &&& (#[trigger] versions@[i]).id@ == entries@[i].id@
                    &&& versions@[i].kind == version_kind_of(entries@[i].kind@)
                },
            Err(detail) => r matches Err(e) && e@ == "Version list could not be loaded: "@
                + detail@,
        },
{
    match fetched {
        Err(detail) => Err(
            String::from_str("Version list could not be loaded: ").concat(detail.as_str()),
        ),
        Ok(entries) => {
            let mut versions: Vec<MinecraftVersion> = Vec::new();
            let n: usize = entries.len();
            let mut i: usize = 0;
            while i < n
                invariant
                    n == entries@.len(),
                    i <= n,
                    versions@.len() == i,
                    forall|k: int|
                        0 <= k < i ==> {
                            &&& (#[trigger] versions@[k]).id@ == entries@[k].id@
                            &&& versions@[k].kind == version_kind_of(entries@[k].kind@)
                        },
                decreases n - i,
            {
                let entry = &entries[i];
                versions.push(
                    MinecraftVersion {
                        id: entry.id.clone(),
                        kind: VersionKind::from_manifest_type(entry.kind.as_str()),
                    },
                );
                i = i + 1;
            }
            Ok(versions)
        },
    }
}

/// The directory the launcher keeps its data under: `APPDATA` where it is
/// set, else `HOME`; `None` leaves the choice to the working directory.
pub fn data_dir_base(appdata: Option<String>, home: Option<String>) -> (r: Option<String>)
    ensures
        match (appdata, home) {
            (Some(a), _) => r == Some(a),
            (None, Some(h)) => r == Some(h),
            (None, None) => r is None,
        },
{
    match appdata {
        Some(a) => Some(a),
        None => home,
    }
}

/// What starting a launch for `request` gives: a refused request finishes
/// at once with its problem; a sound one reports 2% and asks for the install.
pub open spec fn launch_started(request: LaunchRequest, session: LaunchSession, step: LaunchStep) -> bool {
    &&& session.wf()
    &&& session.request() == request
    &&& match launch_request_problem(request) {
        Some(problem) => {
            &&& session.current_phase() == LaunchPhase::Done
            &&& step.progress is None
            &&& step.next matches NextStep::Finish(Err(e)) && e@ == problem
        },
        None => {
            &&& session.current_phase() == LaunchPhase::Installing
            &&& session.floor() == install_floor()
            &&& step.progress matches Some(p) && progress_is(
                p,
                "Validated launch settings."@,
                20,
            )
            &&& step.next matches NextStep::Install {
                minecraft_dir,
                minecraft_version,
                loader,
            } && minecraft_dir@ == request.minecraft_dir@ && minecraft_version@
                == request.minecraft_version@ && loader == request.loader
        },
    }
    &&& (session.current_phase() == LaunchPhase::Done <==> step.next is Finish)
    &&& (step.progress matches Some(p) ==> p is Progress)
}

/// What one step of a launch gives when `event` arrives at `old`.
pub open spec fn launch_stepped(old: LaunchSession, event: LaunchEvent, r: LaunchStep, new: LaunchSession) -> bool {
    &&& new.wf()
    &&& new.request() == old.request()
    &&& old.floor() <= new.floor()
    &&& (r.progress matches Some(p) ==> p matches LaunchProgress::Progress { permille, .. }
        && old.floor() <= permille <= new.floor())
    &&& match event {
        LaunchEvent::Install(e) => {
            &&& new.current_phase() == LaunchPhase::Installing
            &&& new.floor() == position_after(old.floor(), e)
            &&& r.progress matches Some(p) && progress_is(
                p,
                install_event_label(e),
                new.floor(),
            )
            &&& r.next is KeepInstalling
        },
        LaunchEvent::Installed(Ok(id)) => {
            &&& new.current_phase() == LaunchPhase::LoadingVersion
            &&& new.installed_version() == id@
            &&& r.progress matches Some(p) && progress_is(
                p,
                "Loading version metadata."@,
                860,
            )
            &&& r.next matches NextStep::LoadVersion { version_id } && version_id@ == id@
        },
        LaunchEvent::Installed(Err(d)) => {
            &&& new.current_phase() == LaunchPhase::Done
            &&& fails_with(r, "Install failed: "@, d)
        },
        LaunchEvent::VersionLoaded(Ok(())) => {
            &&& new.current_phase() == LaunchPhase::BuildingCommand
            &&& new.installed_version() == old.installed_version()
            &&& r.progress matches Some(p) && progress_is(
                p,
                "Building Java launch command."@,
                910,
            )
            &&& r.next matches NextStep::BuildCommand(options) && {
                &&& options.username@ == trimmed(old.request().username@)
                &&& options.launcher_name@ == "NovaLauncher"@
                &&& match (options.java_executable, old.request().java_path) {
                    (Some(a), Some(b)) => a@ == b@,
                    (None, None) => true,
                    _ => false,
                }
            }
        },
        LaunchEvent::VersionLoaded(Err(d)) => {
            &&& new.current_phase() == LaunchPhase::Done
            &&& fails_with(r, "Version metadata failed to load: "@, d)
        },
        LaunchEvent::CommandBuilt(Ok(args)) => {
            &&& new.current_phase() == LaunchPhase::Starting
            &&& new.installed_version() == old.installed_version()
            &&& r.progress matches Some(p) && progress_is(
                p,
                "Starting Minecraft process."@,
                960,
            )
            &&& r.next matches NextStep::Spawn { args: spawn_args } && spawn_args@.len()
                == args@.len() + 1 && spawn_args@[0]@ == memory_flag(
                old.request().memory_mb,
            ) && spawn_args@.subrange(1, spawn_args@.len() as int) == args@
        },
        LaunchEvent::CommandBuilt(Err(d)) => {
            &&& new.current_phase() == LaunchPhase::Done
            &&& fails_with(r, "Launch command could not be built: "@, d)
        },
        LaunchEvent::Spawned(Ok(pid)) => {
            &&& new.current_phase() == LaunchPhase::Done
            &&& r.progress matches Some(p) && progress_is(p, "Minecraft started."@, 1000)
            &&& r.next matches NextStep::Finish(Ok(report)) && report.pid == pid
                && report.version_id@ == old.installed_version()
        },
        LaunchEvent::Spawned(Err(d)) => {
            &&& new.current_phase() == LaunchPhase::Done
            &&& fails_with(r, "Minecraft could not be started: "@, d)
        },
    }
    &&& (new.current_phase() == LaunchPhase::Done <==> r.next is Finish)
}

/// The position a step reports, or zero when it reports nothing.
pub open spec fn reported_position(step: LaunchStep) -> int {
    match step.progress {
        Some(LaunchProgress::Progress { permille, .. }) => permille as int,
        _ => 0,
    }
}

/// A launch for `request` as the driver runs it: `steps[0]` started it and
/// `steps[k + 1]` answered `events[k]`, an event `sessions[k]` waited for;
/// `sessions[k]` is the session after `steps[k]`.
pub open spec fn is_launch_run(
    request: LaunchRequest,
    sessions: Seq<LaunchSession>,
    events: Seq<LaunchEvent>,
    steps: Seq<LaunchStep>,
) -> bool {
    &&& sessions.len() == steps.len()
    &&& steps.len() == events.len() + 1
    &&& launch_started(request, sessions[0], steps[0])
    &&& forall|k: int|
        0 <= k < events.len() ==> phase_accepts(sessions[k].current_phase(), #[trigger] events[k])
            && launch_stepped(sessions[k], events[k], steps[k + 1], sessions[k + 1])
}

proof fn lemma_floor_range(session: LaunchSession)
    requires
        session.wf(),
    ensures
        install_floor() <= session.floor() <= 1000,
{
}

proof fn lemma_floors_rise(
    request: LaunchRequest,
    sessions: Seq<LaunchSession>,
    events: Seq<LaunchEvent>,
    steps: Seq<LaunchStep>,
    i: int,
    j: int,
)
    requires
        is_launch_run(request, sessions, events, steps),
        0 <= i <= j < sessions.len(),
    ensures
        sessions[i].floor() <= sessions[j].floor(),
    decreases j - i,
{
    if i < j {
        lemma_floors_rise(request, sessions, events, steps, i, j - 1);
        assert(launch_stepped(sessions[j - 1], events[j - 1], steps[j], sessions[j]));
    }
}

proof fn lemma_report_between_floors(
    request: LaunchRequest,
    sessions: Seq<LaunchSession>,
    events: Seq<LaunchEvent>,
    steps: Seq<LaunchStep>,
    k: int,
)
    requires
        is_launch_run(request, sessions, events, steps),
        0 <= k < steps.len(),
    ensures
        sessions[k].wf(),
        steps[k].progress matches Some(p) ==> p is Progress,
        steps[k].progress is Some ==> 20 <= reported_position(steps[k]) <= sessions[k].floor(),
        steps[k].progress is Some && k > 0 ==> sessions[k - 1].floor() <= reported_position(
            steps[k],
        ),
{
    if k > 0 {
        assert(launch_stepped(sessions[k - 1], events[k - 1], steps[k], sessions[k]));
        lemma_floors_rise(request, sessions, events, steps, 0, k - 1);
        lemma_floor_range(sessions[0]);
        if launch_request_problem(request) is Some {
            assert(!phase_accepts(sessions[0].current_phase(), events[0]));
        }
    }
}

/// The reports of a whole launch: every one is progress, never a final
/// outcome; their positions lie between 2% and 100% and never move back; the
/// installer's reports lie between 5% and 84%; and the outcome comes once,
/// from the last step, exactly when the launch is over. A refused request
/// reports nothing and ends with its problem.
pub proof fn lemma_launch_run_reports(
    request: LaunchRequest,
    sessions: Seq<LaunchSession>,
    events: Seq<LaunchEvent>,
    steps: Seq<LaunchStep>,
)
    requires
        is_launch_run(request, sessions, events, steps),
    ensures
        forall|k: int|
            0 <= k < steps.len() ==> ((#[trigger] steps[k]).progress matches Some(p) ==> p is Progress
                && 20 <= reported_position(steps[k]) <= 1000),
        forall|i: int, j: int|
            0 <= i < j < steps.len() && (#[trigger] steps[i]).progress is Some && (
            #[trigger] steps[j]).progress is Some ==> reported_position(steps[i])
                <= reported_position(steps[j]),
        forall|k: int|
            0 <= k < events.len() && (#[trigger] events[k]) is Install ==> steps[k + 1].progress
                is Some && install_floor() <= reported_position(steps[k + 1]) <= install_ceiling(),
        forall|k: int| 0 <= k < events.len() ==> !((#[trigger] steps[k]).next is Finish),
        steps.last().next is Finish <==> sessions.last().current_phase() == LaunchPhase::Done,
        launch_request_problem(request) is None ==> (steps[0].progress matches Some(p)
            && progress_is(p, "Validated launch settings."@, 20)),
        launch_request_problem(request) is Some ==> {
            &&& steps.len() == 1
            &&& steps[0].progress is None
            &&& steps[0].next matches NextStep::Finish(Err(e)) && Some(e@) == launch_request_problem(
                request,
            )
        },
{
    assert forall|k: int|
        0 <= k < steps.len() implies ((#[trigger] steps[k]).progress matches Some(p) ==> p is Progress
        && 20 <= reported_position(steps[k]) <= 1000) by {
        lemma_report_between_floors(request, sessions, events, steps, k);
        lemma_floor_range(sessions[k]);
    }
    assert forall|i: int, j: int|
        0 <= i < j < steps.len() && (#[trigger] steps[i]).progress is Some && (
        #[trigger] steps[j]).progress is Some implies reported_position(steps[i])
        <= reported_position(steps[j]) by {
        lemma_report_between_floors(request, sessions, events, steps, i);
        lemma_report_between_floors(request, sessions, events, steps, j);
        lemma_floors_rise(request, sessions, events, steps, i, j - 1);
    }
    assert forall|k: int|
        0 <= k < events.len() && (#[trigger] events[k]) is Install implies steps[k + 1].progress
        is Some && install_floor() <= reported_position(steps[k + 1]) <= install_ceiling() by {
        assert(launch_stepped(sessions[k], events[k], steps[k + 1], sessions[k + 1]));
        lemma_report_between_floors(request, sessions, events, steps, k + 1);
    }
    assert forall|k: int| 0 <= k < events.len() implies !((#[trigger] steps[k]).next is Finish) by {
        assert(phase_accepts(sessions[k].current_phase(), events[k]));
        if k > 0 {
            assert(launch_stepped(sessions[k - 1], events[k - 1], steps[k], sessions[k]));
        }
    }
    let last = steps.len() - 1;
    if last > 0 {
        assert(launch_stepped(sessions[last - 1], events[last - 1], steps[last], sessions[last]));
    }
    if launch_request_problem(request) is Some && events.len() > 0 {
        assert(phase_accepts(sessions[0].current_phase(), events[0]));
    }
}


/// A request the library accepts has a trimmed username of 1 to 16
/// characters, each an ASCII letter, an ASCII digit or an underscore, a
/// non-blank version, and at least 512 MB of memory; any other character in
/// the username, such as `-` or a space inside it, gets it refused.
pub proof fn lemma_accepted_requests(request: LaunchRequest)
    ensures
        launch_request_problem(request) is None ==> {
            let u = trimmed(request.username@);
            &&& 1 <= u.len() <= 16
            &&& forall|i: int|
                0 <= i < u.len() ==> {
                    let c = #[trigger] u[i];
                    ||| ('a' as u32) <= (c as u32) <= ('z' as u32)
                    ||| ('A' as u32) <= (c as u32) <= ('Z' as u32)
                    ||| ('0' as u32) <= (c as u32) <= ('9' as u32)
                    ||| (c as u32) == ('_' as u32)
                }
            &&& trimmed(request.minecraft_version@).len() > 0
            &&& request.memory_mb >= 512
        },
        (exists|i: int|
            0 <= i < trimmed(request.username@).len() && {
                let c = #[trigger] trimmed(request.username@)[i];
                c == '-' || c == ' ' || c == '.' || c == '@' || (c as u32) >= 128
            }) ==> launch_request_problem(request) is Some,
        request.memory_mb < 512 ==> launch_request_problem(request) is Some,
        trimmed(request.minecraft_version@).len() == 0 ==> launch_request_problem(request) is Some,
{
    let u = trimmed(request.username@);
    if launch_request_problem(request) is None {
        assert forall|i: int| 0 <= i < u.len() implies {
            let c = #[trigger] u[i];
            ||| ('a' as u32) <= (c as u32) <= ('z' as u32)
            ||| ('A' as u32) <= (c as u32) <= ('Z' as u32)
            ||| ('0' as u32) <= (c as u32) <= ('9' as u32)
            ||| (c as u32) == ('_' as u32)
        } by {
            assert(is_username_char(u[i]));
            assert('0' as u32 == 0x30 && '9' as u32 == 0x39);
            assert('A' as u32 == 0x41 && 'Z' as u32 == 0x5a);
            assert('a' as u32 == 0x61 && 'z' as u32 == 0x7a);
            assert('_' as u32 == 0x5f);
        }
    }
}

/// The stages of an install come in order and each begins further along
/// than the one before: resolving the version, libraries, assets, the Java
/// runtime, natives, the loader, and last the check of the files, which
/// begins at the top of the install part of a launch.
pub proof fn lemma_stages_move_forward()
    ensures
        install_floor() < stage_position(InstallStage::ResolveVersion),
        stage_position(InstallStage::ResolveVersion) < stage_position(
            InstallStage::DownloadLibraries,
        ),
        stage_position(InstallStage::DownloadLibraries) < stage_position(
            InstallStage::DownloadAssets,
        ),
        stage_position(InstallStage::DownloadAssets) < stage_position(
            InstallStage::InstallRuntime,
        ),
        stage_position(InstallStage::InstallRuntime) < stage_position(
            InstallStage::ExtractNatives,
        ),
        stage_position(InstallStage::ExtractNatives) < stage_position(InstallStage::LoaderInstall),
        stage_position(InstallStage::LoaderInstall) < stage_position(InstallStage::Verify),
        stage_position(InstallStage::Verify) == install_ceiling(),
{
}

/// The manifest's five channel names map to five different channels, and
/// `release` is the only name read as a release.
pub proof fn lemma_manifest_channels()
    ensures
        version_kind_of("release"@) == VersionKind::Release,
        version_kind_of("snapshot"@) == VersionKind::Snapshot,
        version_kind_of("old_beta"@) == VersionKind::OldBeta,
        version_kind_of("old_alpha"@) == VersionKind::OldAlpha,
        forall|name: Seq<char>|
            version_kind_of(name) == VersionKind::Release ==> name == "release"@,
{
    reveal_strlit("release");
    reveal_strlit("snapshot");
    reveal_strlit("old_beta");
    reveal_strlit("old_alpha");
    assert("release"@ != "snapshot"@) by {
        assert("release"@[0] != "snapshot"@[0]);
    }
    assert("release"@ != "old_beta"@) by {
        assert("release"@[0] != "old_beta"@[0]);
    }
    assert("release"@ != "old_alpha"@) by {
        assert("release"@[0] != "old_alpha"@[0]);
    }
    assert("snapshot"@ != "old_beta"@) by {
        assert("snapshot"@[0] != "old_beta"@[0]);
    }
    assert("snapshot"@ != "old_alpha"@) by {
        assert("snapshot"@[0] != "old_alpha"@[0]);
    }
    assert("old_beta"@ != "old_alpha"@) by {
        assert("old_beta"@[4] != "old_alpha"@[4]);
    }
}
} // verus!
