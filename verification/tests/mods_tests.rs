use nova_launcher::launch::LoaderChoice;
use nova_launcher::mods::{
    curseforge_download_file, curseforge_search_results, install_destination,
    install_file_query, modrinth_loader, modrinth_release_file, modrinth_search_results,
    require_curseforge_key, search_projects, CurseForgeFile, CurseForgeHit, FetchError,
    InstallProjectRequest, ManagedProject, ModrinthFile, ModrinthHit, ModrinthVersion,
    ProjectKind, ProjectSearchRequest, ProjectSource,
};

fn pairs(v: &[(String, String)]) -> Vec<(&str, &str)> {
    v.iter().map(|(a, b)| (a.as_str(), b.as_str())).collect()
}

fn search_request(source: ProjectSource, version: &str, loader: LoaderChoice, key: &str) -> ProjectSearchRequest {
    ProjectSearchRequest {
        source,
        kind: ProjectKind::Mod,
        query: "  sodium ".to_string(),
        minecraft_version: version.to_string(),
        loader,
        curseforge_api_key: key.to_string(),
    }
}

fn project(source: ProjectSource, kind: ProjectKind, id: &str) -> ManagedProject {
    ManagedProject {
        source,
        kind,
        id: id.to_string(),
        title: "Sodium".to_string(),
        description: String::new(),
        downloads: 0,
        installed_path: None,
        location_hint: None,
    }
}

fn install_request(source: ProjectSource, kind: ProjectKind, version: &str, key: &str) -> InstallProjectRequest {
    InstallProjectRequest {
        project: project(source, kind, "AANobbMI"),
        minecraft_dir: "/games/nova".to_string(),
        minecraft_version: version.to_string(),
        loader: LoaderChoice::Fabric,
        curseforge_api_key: key.to_string(),
    }
}

#[test]
fn labels_and_catalogue_ids() {
    assert_eq!(ProjectSource::Modrinth.label(), "Modrinth");
    assert_eq!(ProjectSource::CurseForge.label(), "CurseForge");
    assert_eq!(ProjectKind::Mod.label(), "Mods");
    assert_eq!(ProjectKind::Modpack.label(), "Modpacks");
    assert_eq!(ProjectKind::Mod.modrinth_type(), "mod");
    assert_eq!(ProjectKind::Modpack.modrinth_type(), "modpack");
    assert_eq!(ProjectKind::Mod.curseforge_class_id(), 6);
    assert_eq!(ProjectKind::Modpack.curseforge_class_id(), 4471);
    assert_eq!(ProjectSource::all(), vec![ProjectSource::Modrinth, ProjectSource::CurseForge]);
    assert_eq!(ProjectKind::all(), vec![ProjectKind::Mod, ProjectKind::Modpack]);
}

#[test]
fn loaders_as_modrinth_names_them() {
    assert_eq!(modrinth_loader(LoaderChoice::Vanilla), None);
    assert_eq!(modrinth_loader(LoaderChoice::Fabric), Some("fabric"));
    assert_eq!(modrinth_loader(LoaderChoice::Quilt), Some("quilt"));
    assert_eq!(modrinth_loader(LoaderChoice::Forge), Some("forge"));
    assert_eq!(modrinth_loader(LoaderChoice::NeoForge), Some("neoforge"));
}

#[test]
fn curseforge_key_is_trimmed_and_required() {
    assert_eq!(require_curseforge_key("  abc  "), Ok("abc"));
    assert_eq!(
        require_curseforge_key(" \n "),
        Err("Enter a CurseForge API key before using CurseForge.".to_string())
    );
}

#[test]
fn modrinth_search_query_has_all_facets() {
    let q = search_projects(&search_request(ProjectSource::Modrinth, " 1.20.1 ", LoaderChoice::Fabric, "")).unwrap();
    assert_eq!(q.url, "https://api.modrinth.com/v2/search");
    assert!(q.headers.is_empty());
    assert_eq!(
        pairs(&q.params),
        vec![
            ("query", "sodium"),
            ("facets", r#"[["project_type:mod"],["versions:1.20.1"],["categories:fabric"]]"#),
            ("index", "downloads"),
            ("limit", "12"),
        ]
    );
}

#[test]
fn modrinth_search_query_without_version_or_loader() {
    let q = search_projects(&search_request(ProjectSource::Modrinth, "  ", LoaderChoice::Vanilla, "")).unwrap();
    assert_eq!(pairs(&q.params)[1], ("facets", r#"[["project_type:mod"]]"#));
}

#[test]
fn curseforge_search_query() {
    let q = search_projects(&search_request(ProjectSource::CurseForge, "1.20.1", LoaderChoice::Forge, " key ")).unwrap();
    assert_eq!(q.url, "https://api.curseforge.com/v1/mods/search");
    assert_eq!(pairs(&q.headers), vec![("x-api-key", "key")]);
    assert_eq!(
        pairs(&q.params),
        vec![
            ("gameId", "432"),
            ("classId", "6"),
            ("searchFilter", "sodium"),
            ("pageSize", "12"),
            ("sortField", "6"),
            ("sortOrder", "desc"),
            ("gameVersion", "1.20.1"),
        ]
    );
    let err = search_projects(&search_request(ProjectSource::CurseForge, "1.20.1", LoaderChoice::Forge, "")).unwrap_err();
    assert_eq!(err, "Enter a CurseForge API key before using CurseForge.");
}

#[test]
fn modrinth_hits_become_projects() {
    let hits = vec![ModrinthHit {
        project_id: "AANobbMI".to_string(),
        title: "Sodium".to_string(),
        description: "Fast".to_string(),
        downloads: 1234,
    }];
    let projects = modrinth_search_results(ProjectKind::Mod, Ok(hits)).unwrap();
    assert_eq!(projects.len(), 1);
    assert_eq!(projects[0].source, ProjectSource::Modrinth);
    assert_eq!(projects[0].id, "AANobbMI");
    assert_eq!(projects[0].title, "Sodium");
    assert_eq!(projects[0].downloads, 1234);
    assert_eq!(
        modrinth_search_results(ProjectKind::Mod, Err(FetchError::Request("503".to_string()))).unwrap_err(),
        "Modrinth search failed: 503"
    );
    assert_eq!(
        modrinth_search_results(ProjectKind::Mod, Err(FetchError::Body("eof".to_string()))).unwrap_err(),
        "Modrinth response could not be read: eof"
    );
}

#[test]
fn curseforge_hits_become_projects() {
    let hits = vec![
        CurseForgeHit { id: 238222, name: "JEI".to_string(), summary: Some("Items".to_string()), download_count: Some(99) },
        CurseForgeHit { id: 7, name: "Bare".to_string(), summary: None, download_count: None },
    ];
    let projects = curseforge_search_results(ProjectKind::Modpack, Ok(hits)).unwrap();
    assert_eq!(projects[0].id, "238222");
    assert_eq!(projects[0].kind, ProjectKind::Modpack);
    assert_eq!(projects[0].description, "Items");
    assert_eq!(projects[0].downloads, 99);
    assert_eq!(projects[1].description, "");
    assert_eq!(projects[1].downloads, 0);
    assert_eq!(
        curseforge_search_results(ProjectKind::Mod, Err(FetchError::Request("403".to_string()))).unwrap_err(),
        "CurseForge search failed: 403"
    );
    assert_eq!(
        curseforge_search_results(ProjectKind::Mod, Err(FetchError::Body("bad".to_string()))).unwrap_err(),
        "CurseForge response could not be read: bad"
    );
}

#[test]
fn modrinth_version_query() {
    let q = install_file_query(&install_request(ProjectSource::Modrinth, ProjectKind::Mod, " 1.20.1", "")).unwrap();
    assert_eq!(q.url, "https://api.modrinth.com/v2/project/AANobbMI/version");
    assert_eq!(
        pairs(&q.params),
        vec![
            ("include_changelog", "false"),
            ("game_versions", r#"["1.20.1"]"#),
            ("loaders", r#"["fabric"]"#),
        ]
    );
}

#[test]
fn curseforge_file_query() {
    let q = install_file_query(&install_request(ProjectSource::CurseForge, ProjectKind::Mod, "", "k")).unwrap();
    assert_eq!(q.url, "https://api.curseforge.com/v1/mods/AANobbMI/files");
    assert_eq!(pairs(&q.headers), vec![("x-api-key", "k")]);
    assert_eq!(pairs(&q.params), vec![("pageSize", "20")]);
    assert!(install_file_query(&install_request(ProjectSource::CurseForge, ProjectKind::Mod, "", "")).is_err());
}

fn file(name: &str, primary: bool) -> ModrinthFile {
    ModrinthFile { url: format!("https://cdn/{name}"), filename: name.to_string(), primary }
}

#[test]
fn modrinth_takes_primary_file_of_first_release() {
    let versions = vec![
        ModrinthVersion { version_type: "beta".to_string(), files: vec![file("beta.jar", true)] },
        ModrinthVersion { version_type: "release".to_string(), files: vec![file("a.jar", false), file("b.jar", true)] },
        ModrinthVersion { version_type: "release".to_string(), files: vec![file("old.jar", true)] },
    ];
    let f = modrinth_release_file(Ok(versions)).unwrap();
    assert_eq!(f.filename, "b.jar");
    assert_eq!(f.url, "https://cdn/b.jar");
}

#[test]
fn modrinth_falls_back_to_first_file() {
    let versions = vec![ModrinthVersion {
        version_type: "release".to_string(),
        files: vec![file("a.jar", false), file("b.jar", false)],
    }];
    assert_eq!(modrinth_release_file(Ok(versions)).unwrap().filename, "a.jar");
}

#[test]
fn modrinth_file_errors() {
    let versions = vec![ModrinthVersion { version_type: "alpha".to_string(), files: vec![file("a.jar", true)] }];
    assert_eq!(
        modrinth_release_file(Ok(versions)).unwrap_err(),
        "No compatible release file was found on Modrinth."
    );
    let versions = vec![ModrinthVersion { version_type: "release".to_string(), files: vec![] }];
    assert_eq!(
        modrinth_release_file(Ok(versions)).unwrap_err(),
        "The selected Modrinth version has no downloadable files."
    );
    assert_eq!(
        modrinth_release_file(Err(FetchError::Request("404".to_string()))).unwrap_err(),
        "Could not find Modrinth versions: 404"
    );
    assert_eq!(
        modrinth_release_file(Err(FetchError::Body("x".to_string()))).unwrap_err(),
        "Modrinth version response could not be read: x"
    );
}

#[test]
fn curseforge_takes_first_downloadable_file() {
    let files = vec![
        CurseForgeFile { file_name: "none.jar".to_string(), download_url: None },
        CurseForgeFile { file_name: "empty.jar".to_string(), download_url: Some(String::new()) },
        CurseForgeFile { file_name: "ok.jar".to_string(), download_url: Some("https://edge/ok.jar".to_string()) },
    ];
    let f = curseforge_download_file(Ok(files)).unwrap();
    assert_eq!((f.filename.as_str(), f.url.as_str()), ("ok.jar", "https://edge/ok.jar"));
    assert_eq!(
        curseforge_download_file(Ok(vec![])).unwrap_err(),
        "No direct CurseForge download URL was available for this project."
    );
    assert_eq!(
        curseforge_download_file(Err(FetchError::Request("500".to_string()))).unwrap_err(),
        "Could not find CurseForge files: 500"
    );
    assert_eq!(
        curseforge_download_file(Err(FetchError::Body("?".to_string()))).unwrap_err(),
        "CurseForge files response could not be read: ?"
    );
}

#[test]
fn installed_files_go_to_the_right_folder() {
    let mods = install_destination(&install_request(ProjectSource::Modrinth, ProjectKind::Mod, " 1.20.1 ", ""));
    assert_eq!(mods, vec!["versions", "1.20.1", "mods"]);
    let packs = install_destination(&install_request(ProjectSource::Modrinth, ProjectKind::Modpack, "1.20.1", ""));
    assert_eq!(packs, vec!["modpacks"]);
}
