use nova_launcher::launch::{LaunchProgress, LaunchReport, LoaderChoice, MinecraftVersion, VersionKind};
use nova_launcher::mods::{InstallProjectReport, ManagedProject, ProjectKind, ProjectSource};
use nova_launcher::ui::{
    filtered_version_options, launch_button_label, optional_path, selected_version, status_tone,
    update, Command, LayoutMode, Message, ModpackLocation, NovaLauncher, StatusTone, Tab,
};

fn app() -> NovaLauncher {
    NovaLauncher::new("  /games/nova  ".to_string())
}

fn version(id: &str, kind: VersionKind) -> MinecraftVersion {
    MinecraftVersion { id: id.to_string(), kind }
}

fn project(title: &str, kind: ProjectKind) -> ManagedProject {
    ManagedProject {
        source: ProjectSource::Modrinth,
        kind,
        id: "pack1".to_string(),
        title: title.to_string(),
        description: String::new(),
        downloads: 0,
        installed_path: None,
        location_hint: None,
    }
}

#[test]
fn new_window_defaults() {
    let a = app();
    assert_eq!(a.username, "Steve");
    assert_eq!(a.minecraft_version, "1.20.1");
    assert_eq!(a.memory_mb, 2048);
    assert_eq!(a.status, "Loading Minecraft versions...");
    assert!(a.versions_loading && a.installed_loading);
    assert_eq!(a.tab, Tab::Launcher);
}

#[test]
fn edits_change_one_field() {
    let mut a = app();
    assert!(matches!(update(&mut a, Message::UsernameChanged("Alex".to_string())), Command::Nothing));
    assert_eq!(a.username, "Alex");
    update(&mut a, Message::MemoryChanged(4096));
    assert_eq!(a.memory_mb, 4096);
    update(&mut a, Message::TabSelected(Tab::Mods));
    assert_eq!(a.tab, Tab::Mods);
    update(&mut a, Message::LoaderChanged(LoaderChoice::Quilt));
    assert_eq!(a.loader, LoaderChoice::Quilt);
}

#[test]
fn loading_versions_picks_first_release_when_blank() {
    let mut a = app();
    update(&mut a, Message::VersionChanged("   ".to_string()));
    let versions = vec![
        version("24w14a", VersionKind::Snapshot),
        version("1.21", VersionKind::Release),
        version("1.20.6", VersionKind::Release),
    ];
    update(&mut a, Message::VersionsLoaded(Ok(versions)));
    assert_eq!(a.minecraft_version, "1.21");
    assert_eq!(a.status, "Loaded 3 Minecraft versions.");
    assert!(!a.versions_loading);
    assert!(!a.status_is_error);
}

#[test]
fn loading_versions_keeps_a_typed_version() {
    let mut a = app();
    update(&mut a, Message::InitialDataLoaded(Ok((vec![version("1.21", VersionKind::Release)], vec![]))));
    assert_eq!(a.minecraft_version, "1.20.1");
    assert_eq!(a.status, "Ready.");
    assert!(!a.installed_loading);
}

#[test]
fn failed_loads_show_the_error() {
    let mut a = app();
    update(&mut a, Message::VersionsLoaded(Err("offline".to_string())));
    assert_eq!(a.status, "offline");
    assert!(a.status_is_error);
}

#[test]
fn refresh_versions_only_when_idle() {
    let mut a = app();
    assert!(matches!(update(&mut a, Message::RefreshVersions), Command::Nothing));
    update(&mut a, Message::VersionsLoaded(Ok(vec![])));
    assert!(matches!(update(&mut a, Message::RefreshVersions), Command::LoadVersions));
    assert_eq!(a.status, "Refreshing Minecraft versions...");
}

#[test]
fn launch_is_started_once() {
    let mut a = app();
    update(&mut a, Message::JavaPathChanged("  /opt/java  ".to_string()));
    match update(&mut a, Message::LaunchPressed) {
        Command::Launch(request) => {
            assert_eq!(request.minecraft_dir, "/games/nova");
            assert_eq!(request.username, "Steve");
            assert_eq!(request.java_path, Some("/opt/java".to_string()));
            assert_eq!(request.memory_mb, 2048);
        }
        other => panic!("unexpected {:?}", other),
    }
    assert!(a.busy);
    assert_eq!(a.status, "Starting launch...");
    assert!(matches!(update(&mut a, Message::LaunchPressed), Command::Nothing));
}

#[test]
fn launch_events_drive_the_progress_bar() {
    let mut a = app();
    update(&mut a, Message::LaunchPressed);
    update(&mut a, Message::LaunchEvent(LaunchProgress::Progress { label: "Half".to_string(), permille: 500 }));
    assert_eq!(a.progress_permille, 500);
    assert_eq!(a.status, "Half");
    update(&mut a, Message::LaunchEvent(LaunchProgress::Progress { label: "Over".to_string(), permille: 1500 }));
    assert_eq!(a.progress_permille, 1000);
    update(&mut a, Message::LaunchEvent(LaunchProgress::Finished(Ok(LaunchReport {
        version_id: "1.20.1".to_string(),
        pid: 77,
    }))));
    assert!(!a.busy);
    assert_eq!(a.status, "Launched 1.20.1 (pid 77).");
    update(&mut a, Message::LaunchPressed);
    update(&mut a, Message::LaunchEvent(LaunchProgress::Finished(Err("boom".to_string()))));
    assert_eq!(a.progress_permille, 0);
    assert!(a.status_is_error);
    assert_eq!(a.status, "boom");
}

fn modpack_request(a: &mut NovaLauncher) -> nova_launcher::launch::LaunchRequest {
    match update(a, Message::LaunchModpackPressed(project("Pack", ProjectKind::Modpack))) {
        Command::CheckModpackDir {
            location: ModpackLocation::Default { minecraft_dir, id },
            request,
            ..
        } => {
            assert_eq!(minecraft_dir, "/games/nova");
            assert_eq!(id, "pack1");
            assert_eq!(request.username, "Steve");
            request
        }
        other => panic!("unexpected {:?}", other),
    }
}

#[test]
fn modpack_launch_checks_its_directory_first() {
    let mut a = app();
    let status_before = a.status.clone();
    let request = modpack_request(&mut a);
    assert!(!a.busy);
    assert_eq!(a.status, status_before);
    let missing = update(&mut a, Message::ModpackDirChecked {
        project: project("Pack", ProjectKind::Modpack),
        request,
        dir: "/games/nova/modpacks/pack1".to_string(),
        exists: false,
    });
    assert!(matches!(missing, Command::Nothing));
    assert!(!a.busy);
    assert!(a.status_is_error);
    assert_eq!(a.status, "Modpack profile directory not found: /games/nova/modpacks/pack1");

    let request = modpack_request(&mut a);
    update(&mut a, Message::UsernameChanged("Later".to_string()));
    match update(&mut a, Message::ModpackDirChecked {
        project: project("Pack", ProjectKind::Modpack),
        request,
        dir: "/games/nova/modpacks/pack1".to_string(),
        exists: true,
    }) {
        Command::Launch(request) => {
            assert_eq!(request.minecraft_dir, "/games/nova/modpacks/pack1");
            assert_eq!(request.username, "Steve");
        }
        other => panic!("unexpected {:?}", other),
    }
    assert_eq!(a.status, "Launching Pack...");
    assert!(a.busy);
    assert!(!a.status_is_error);
    assert_eq!(a.progress_permille, 0);
}

#[test]
fn a_modpack_answer_after_another_launch_started_is_dropped() {
    let mut a = app();
    let request = modpack_request(&mut a);
    assert!(matches!(update(&mut a, Message::LaunchPressed), Command::Launch(_)));
    let late = update(&mut a, Message::ModpackDirChecked {
        project: project("Pack", ProjectKind::Modpack),
        request,
        dir: "/games/nova/modpacks/pack1".to_string(),
        exists: true,
    });
    assert!(matches!(late, Command::Nothing));
    assert_eq!(a.status, "Starting launch...");
}

#[test]
fn search_needs_a_query() {
    let mut a = app();
    assert!(matches!(update(&mut a, Message::SearchProjects), Command::Nothing));
    assert_eq!(a.search_error, "Enter a search query to find mods or modpacks.");
    assert_eq!(a.status, "Search query required.");
    update(&mut a, Message::ProjectQueryChanged("sodium".to_string()));
    match update(&mut a, Message::SearchProjects) {
        Command::Search(request) => assert_eq!(request.query, "sodium"),
        other => panic!("unexpected {:?}", other),
    }
    assert!(a.search_loading);
    assert!(matches!(update(&mut a, Message::SearchProjects), Command::Nothing));
    update(&mut a, Message::ProjectsLoaded(Ok(vec![project("Sodium", ProjectKind::Mod)])));
    assert_eq!(a.status, "Found 1 result(s).");
    assert!(a.search_error.is_empty());
}

#[test]
fn project_actions_are_serialised() {
    let mut a = app();
    match update(&mut a, Message::InstallProjectPressed(project("Sodium", ProjectKind::Mod))) {
        Command::Install(request) => assert_eq!(request.minecraft_dir, "/games/nova"),
        other => panic!("unexpected {:?}", other),
    }
    assert_eq!(a.status, "Installing Sodium...");
    assert!(matches!(
        update(&mut a, Message::UninstallProjectPressed(project("Sodium", ProjectKind::Mod))),
        Command::Nothing
    ));
    let done = update(&mut a, Message::InstallProjectResult(Ok(InstallProjectReport {
        filename: "sodium.jar".to_string(),
        destination: "/games/nova/versions/1.20.1/mods/sodium.jar".to_string(),
    })));
    assert!(matches!(done, Command::LoadInstalled { .. }));
    assert_eq!(a.status, "Installed sodium.jar.");
    update(&mut a, Message::InstalledProjectsLoaded(vec![project("Sodium", ProjectKind::Mod)]));
    assert_eq!(a.status, "1 installed item(s).");
    assert!(matches!(
        update(&mut a, Message::UninstallProjectPressed(project("Sodium", ProjectKind::Mod))),
        Command::Uninstall { .. }
    ));
    assert_eq!(a.status, "Removing Sodium...");
    update(&mut a, Message::UninstallProjectResult(Ok(())));
    assert_eq!(a.status, "Removed successfully.");
    update(&mut a, Message::InstalledProjectsLoaded(vec![]));
    update(&mut a, Message::UninstallProjectPressed(project("Sodium", ProjectKind::Mod)));
    update(&mut a, Message::UninstallProjectResult(Err("locked".to_string())));
    assert_eq!(a.status, "locked");
    assert!(a.status_is_error && !a.project_action_busy);
}

#[test]
fn version_filters_and_selection() {
    let mut a = app();
    update(&mut a, Message::VersionsLoaded(Ok(vec![
        version("24w14a", VersionKind::Snapshot),
        version("1.20.1", VersionKind::Release),
        version("b1.7.3", VersionKind::OldBeta),
        version("custom", VersionKind::Other),
    ])));
    assert_eq!(filtered_version_options(&a), vec!["1.20.1", "custom"]);
    assert_eq!(selected_version(&a), Some("1.20.1".to_string()));
    update(&mut a, Message::ShowSnapshotsChanged(true));
    update(&mut a, Message::ShowReleasesChanged(false));
    assert_eq!(filtered_version_options(&a), vec!["24w14a", "custom"]);
    assert_eq!(selected_version(&a), None);
}

#[test]
fn small_view_helpers() {
    assert_eq!(optional_path("   "), None);
    assert_eq!(optional_path(" /usr/bin/java "), Some("/usr/bin/java".to_string()));
    assert_eq!(launch_button_label(" "), "Install & Launch");
    assert_eq!(launch_button_label(" 1.20.1 "), "Install & Launch  1.20.1");
    assert!(LayoutMode::Narrow.is_narrow());
    assert!(LayoutMode::Medium.uses_single_column());
    assert!(!LayoutMode::Wide.uses_single_column());
    assert_eq!(LayoutMode::Medium.padding(), 20);
    assert_eq!(LayoutMode::Wide.spacing(), 18);
    assert_eq!(LayoutMode::Narrow.max_content_width(), 520);
    let mut a = app();
    assert_eq!(status_tone(&a), StatusTone::Fine);
    update(&mut a, Message::VersionsLoaded(Err("x".to_string())));
    assert_eq!(status_tone(&a), StatusTone::Failed);
    update(&mut a, Message::LaunchPressed);
    assert_eq!(status_tone(&a), StatusTone::Working);
}
