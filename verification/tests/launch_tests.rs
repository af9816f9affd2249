use nova_launcher::launch::{
    data_dir_base, stage_label, stage_percent, validate_request, versions_from_manifest,
    InstallEvent, InstallProgress, InstallStage, LaunchEvent, LaunchPhase, LaunchProgress,
    LaunchRequest, LaunchSession, LoaderChoice, ManifestEntry, NextStep, VersionKind,
};

fn request(username: &str, version: &str, memory_mb: u16) -> LaunchRequest {
    LaunchRequest {
        minecraft_dir: "/games/nova".to_string(),
        username: username.to_string(),
        minecraft_version: version.to_string(),
        loader: LoaderChoice::Fabric,
        java_path: Some("/usr/bin/java".to_string()),
        memory_mb,
    }
}

fn progress_of(p: &Option<LaunchProgress>) -> (String, u16) {
    match p {
        Some(LaunchProgress::Progress { label, permille }) => (label.clone(), *permille),
        other => panic!("expected a progress report, got {:?}", other),
    }
}

#[test]
fn valid_request_passes() {
    assert_eq!(validate_request(&request("Steve", "1.20.1", 2048)), Ok(()));
    assert_eq!(validate_request(&request("  Alex_99  ", " 1.8.9 ", 512)), Ok(()));
    assert_eq!(validate_request(&request("abcdefghijklmnop", "1.20.1", 512)), Ok(()));
}

#[test]
fn blank_username_is_refused() {
    assert_eq!(
        validate_request(&request("   ", "1.20.1", 2048)),
        Err("Enter an offline username.".to_string())
    );
}

#[test]
fn bad_usernames_are_refused() {
    let message =
        Err("Minecraft usernames can only use 1-16 letters, numbers, or underscores.".to_string());
    assert_eq!(validate_request(&request("abcdefghijklmnopq", "1.20.1", 2048)), message);
    assert_eq!(validate_request(&request("Steve!", "1.20.1", 2048)), message);
    assert_eq!(validate_request(&request("St eve", "1.20.1", 2048)), message);
    assert_eq!(validate_request(&request("Stéve", "1.20.1", 2048)), message);
}

#[test]
fn blank_version_is_refused() {
    assert_eq!(
        validate_request(&request("Steve", " \t", 2048)),
        Err("Enter a Minecraft version, for example 1.20.1.".to_string())
    );
}

#[test]
fn too_little_memory_is_refused() {
    assert_eq!(
        validate_request(&request("Steve", "1.20.1", 511)),
        Err("Use at least 512 MB of memory.".to_string())
    );
}

#[test]
fn manifest_types_map_to_channels() {
    assert_eq!(VersionKind::from_manifest_type("release"), VersionKind::Release);
    assert_eq!(VersionKind::from_manifest_type("snapshot"), VersionKind::Snapshot);
    assert_eq!(VersionKind::from_manifest_type("old_beta"), VersionKind::OldBeta);
    assert_eq!(VersionKind::from_manifest_type("old_alpha"), VersionKind::OldAlpha);
    assert_eq!(VersionKind::from_manifest_type("Release"), VersionKind::Other);
    assert_eq!(VersionKind::from_manifest_type(""), VersionKind::Other);
}

#[test]
fn manifest_becomes_version_list() {
    let entries = vec![
        ManifestEntry { id: "1.21".to_string(), kind: "release".to_string() },
        ManifestEntry { id: "24w14a".to_string(), kind: "snapshot".to_string() },
        ManifestEntry { id: "b1.7.3".to_string(), kind: "old_beta".to_string() },
    ];
    let versions = versions_from_manifest(Ok(entries)).unwrap();
    assert_eq!(versions.len(), 3);
    assert_eq!(versions[0].id, "1.21");
    assert_eq!(versions[0].kind, VersionKind::Release);
    assert_eq!(versions[1].kind, VersionKind::Snapshot);
    assert_eq!(versions[2].kind, VersionKind::OldBeta);
    let failed = versions_from_manifest(Err("timed out".to_string())).unwrap_err();
    assert_eq!(failed, "Version list could not be loaded: timed out");
}

#[test]
fn data_dir_prefers_appdata_then_home() {
    assert_eq!(
        data_dir_base(Some("C:\\Users\\a\\AppData".to_string()), Some("/home/a".to_string())),
        Some("C:\\Users\\a\\AppData".to_string())
    );
    assert_eq!(data_dir_base(None, Some("/home/a".to_string())), Some("/home/a".to_string()));
    assert_eq!(data_dir_base(None, None), None);
}

#[test]
fn loader_labels_and_order() {
    let labels: Vec<&str> = LoaderChoice::all().into_iter().map(|l| l.label()).collect();
    assert_eq!(labels, vec!["Vanilla", "Fabric", "Quilt", "Forge", "NeoForge"]);
}

#[test]
fn stages_have_positions_and_labels() {
    assert_eq!(stage_percent(InstallStage::ResolveVersion), 80);
    assert_eq!(stage_percent(InstallStage::DownloadAssets), 420);
    assert_eq!(stage_percent(InstallStage::Verify), 840);
    assert_eq!(stage_label(InstallStage::InstallRuntime), "installing Java runtime");
    assert_eq!(stage_label(InstallStage::LoaderInstall), "installing loader");
}

#[test]
fn install_progress_moves_forward_and_stays_below_84_percent() {
    let mut tracker = InstallProgress::new();
    assert_eq!(tracker.permille(), 50);
    let p = tracker.observe(InstallEvent::StageStarted { stage: InstallStage::DownloadLibraries });
    assert_eq!(progress_of(&p), ("Install stage: downloading libraries".to_string(), 200));
    let p = tracker.observe(InstallEvent::TaskSkipped { label: "lwjgl.jar".to_string() });
    assert_eq!(progress_of(&p), ("Already installed: lwjgl.jar".to_string(), 207));
    let p = tracker.observe(InstallEvent::TaskFinished { label: "client.jar".to_string() });
    assert_eq!(progress_of(&p), ("Downloaded client.jar".to_string(), 222));
    // An earlier stage never moves the bar back.
    let p = tracker.observe(InstallEvent::StageStarted { stage: InstallStage::ResolveVersion });
    assert_eq!(progress_of(&p), ("Install stage: resolving version".to_string(), 222));
    let p = tracker.observe(InstallEvent::StageStarted { stage: InstallStage::Verify });
    assert_eq!(progress_of(&p).1, 840);
    let p = tracker.observe(InstallEvent::TaskFinished { label: "x".to_string() });
    assert_eq!(progress_of(&p).1, 840);
    let p = tracker.observe(InstallEvent::TaskStarted { label: "assets".to_string() });
    assert_eq!(progress_of(&p), ("Downloading assets".to_string(), 840));
}

#[test]
fn byte_counts_are_spelled_out() {
    let mut tracker = InstallProgress::new();
    let p = tracker.observe(InstallEvent::BytesReceived {
        label: "client.jar".to_string(),
        received: 1024,
        total: Some(20480),
    });
    assert_eq!(progress_of(&p), ("Downloading client.jar (1024/20480 bytes)".to_string(), 50));
    let p = tracker.observe(InstallEvent::BytesReceived {
        label: "index".to_string(),
        received: 0,
        total: None,
    });
    assert_eq!(progress_of(&p).0, "Downloading index (0 bytes)");
}

#[test]
fn a_successful_launch_runs_every_step_in_order() {
    let (mut session, step) = LaunchSession::start(request(" Steve ", "1.20.1", 3072));
    assert_eq!(progress_of(&step.progress), ("Validated launch settings.".to_string(), 20));
    match step.next {
        NextStep::Install { minecraft_dir, minecraft_version, loader } => {
            assert_eq!(minecraft_dir, "/games/nova");
            assert_eq!(minecraft_version, "1.20.1");
            assert_eq!(loader, LoaderChoice::Fabric);
        }
        other => panic!("unexpected {:?}", other),
    }
    let mut last: u16 = 20;
    let step = session.step(LaunchEvent::Install(InstallEvent::StageStarted {
        stage: InstallStage::DownloadLibraries,
    }));
    let (_, p) = progress_of(&step.progress);
    assert!(p >= last);
    last = p;
    assert!(matches!(step.next, NextStep::KeepInstalling));

    let step = session.step(LaunchEvent::Installed(Ok("fabric-loader-1.20.1".to_string())));
    let (label, p) = progress_of(&step.progress);
    assert_eq!(label, "Loading version metadata.");
    assert!(p >= last);
    last = p;
    match step.next {
        NextStep::LoadVersion { version_id } => assert_eq!(version_id, "fabric-loader-1.20.1"),
        other => panic!("unexpected {:?}", other),
    }

    let step = session.step(LaunchEvent::VersionLoaded(Ok(())));
    let (label, p) = progress_of(&step.progress);
    assert_eq!((label.as_str(), p), ("Building Java launch command.", 910));
    assert!(p >= last);
    last = p;
    match step.next {
        NextStep::BuildCommand(options) => {
            assert_eq!(options.username, "Steve");
            assert_eq!(options.java_executable, Some("/usr/bin/java".to_string()));
            assert_eq!(options.launcher_name, "NovaLauncher");
        }
        other => panic!("unexpected {:?}", other),
    }

    let step = session.step(LaunchEvent::CommandBuilt(Ok(vec![
        "-cp".to_string(),
        "client.jar".to_string(),
    ])));
    let (_, p) = progress_of(&step.progress);
    assert_eq!(p, 960);
    assert!(p >= last);
    last = p;
    match step.next {
        NextStep::Spawn { args } => assert_eq!(args, vec!["-Xmx3072M", "-cp", "client.jar"]),
        other => panic!("unexpected {:?}", other),
    }

    let step = session.step(LaunchEvent::Spawned(Ok(4242)));
    let (label, p) = progress_of(&step.progress);
    assert_eq!((label.as_str(), p), ("Minecraft started.", 1000));
    assert!(p >= last);
    match step.next {
        NextStep::Finish(Ok(report)) => {
            assert_eq!(report.version_id, "fabric-loader-1.20.1");
            assert_eq!(report.pid, 4242);
        }
        other => panic!("unexpected {:?}", other),
    }
    assert_eq!(session.phase(), LaunchPhase::Done);
}

#[test]
fn an_invalid_request_finishes_at_once() {
    let (session, step) = LaunchSession::start(request("", "1.20.1", 2048));
    assert!(step.progress.is_none());
    match step.next {
        NextStep::Finish(Err(e)) => assert_eq!(e, "Enter an offline username."),
        other => panic!("unexpected {:?}", other),
    }
    assert_eq!(session.phase(), LaunchPhase::Done);
}

fn failure_of(step: nova_launcher::launch::LaunchStep) -> String {
    assert!(step.progress.is_none());
    match step.next {
        NextStep::Finish(Err(e)) => e,
        other => panic!("unexpected {:?}", other),
    }
}

#[test]
fn each_failed_step_ends_the_launch_with_its_message() {
    let (mut s, _) = LaunchSession::start(request("Steve", "1.20.1", 2048));
    assert_eq!(failure_of(s.step(LaunchEvent::Installed(Err("disk full".to_string())))), "Install failed: disk full");
    assert_eq!(s.phase(), LaunchPhase::Done);

    let (mut s, _) = LaunchSession::start(request("Steve", "1.20.1", 2048));
    s.step(LaunchEvent::Installed(Ok("1.20.1".to_string())));
    assert_eq!(
        failure_of(s.step(LaunchEvent::VersionLoaded(Err("bad json".to_string())))),
        "Version metadata failed to load: bad json"
    );

    let (mut s, _) = LaunchSession::start(request("Steve", "1.20.1", 2048));
    s.step(LaunchEvent::Installed(Ok("1.20.1".to_string())));
    s.step(LaunchEvent::VersionLoaded(Ok(())));
    assert_eq!(
        failure_of(s.step(LaunchEvent::CommandBuilt(Err("no java".to_string())))),
        "Launch command could not be built: no java"
    );

    let (mut s, _) = LaunchSession::start(request("Steve", "1.20.1", 2048));
    s.step(LaunchEvent::Installed(Ok("1.20.1".to_string())));
    s.step(LaunchEvent::VersionLoaded(Ok(())));
    s.step(LaunchEvent::CommandBuilt(Ok(Vec::new())));
    assert_eq!(
        failure_of(s.step(LaunchEvent::Spawned(Err("permission denied".to_string())))),
        "Minecraft could not be started: permission denied"
    );
}

#[test]
fn a_session_only_accepts_the_awaited_event() {
    let (s, _) = LaunchSession::start(request("Steve", "1.20.1", 2048));
    assert!(s.accepts(&LaunchEvent::Installed(Ok("x".to_string()))));
    assert!(!s.accepts(&LaunchEvent::Spawned(Ok(1))));
}
