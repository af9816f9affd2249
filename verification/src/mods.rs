//! Mods and modpacks from Modrinth and CurseForge: the queries sent to each
//! catalogue, how their answers become projects and files, and where an
//! installed file goes.
use vstd::prelude::*;

use crate::launch::LoaderChoice;
use crate::text::{decimal, decimal_string, is_blank, trim, trimmed, trimmed_string};

verus! {

/// The catalogue a project comes from.
#[derive(Debug, Clone, Copy, PartialEq, Eq, Structural)]
pub enum ProjectSource {
    Modrinth,
    CurseForge,
}

/// The name a catalogue is shown under.
pub open spec fn source_label(source: ProjectSource) -> Seq<char> {
    match source {
        ProjectSource::Modrinth => "Modrinth"@,
        ProjectSource::CurseForge => "CurseForge"@,
    }
}

impl ProjectSource {
    /// Both catalogues, in the order the picker lists them.
    pub fn all() -> (r: Vec<ProjectSource>)
        ensures
            r@ == seq![ProjectSource::Modrinth, ProjectSource::CurseForge],
    {
        let mut v: Vec<ProjectSource> = Vec::new();
        v.push(ProjectSource::Modrinth);
        v.push(ProjectSource::CurseForge);
        assert(v@ =~= seq![ProjectSource::Modrinth, ProjectSource::CurseForge]);
        v
    }

    /// The name this catalogue is shown under.
    pub fn label(self) -> (r: &'static str)
        ensures
            r@ == source_label(self),
    {
        match self {
            ProjectSource::Modrinth => "Modrinth",
            ProjectSource::CurseForge => "CurseForge",
        }
    }
}

/// Whether a project is a single mod or a whole modpack.
#[derive(Debug, Clone, Copy, PartialEq, Eq, Structural)]
pub enum ProjectKind {
    Mod,
    Modpack,
}

/// The name a kind of project is shown under.
pub open spec fn kind_label(kind: ProjectKind) -> Seq<char> {
    match kind {
        ProjectKind::Mod => "Mods"@,
        ProjectKind::Modpack => "Modpacks"@,
    }
}

/// Modrinth's `project_type` for a kind of project.
pub open spec fn modrinth_type_name(kind: ProjectKind) -> Seq<char> {
    match kind {
        ProjectKind::Mod => "mod"@,
        ProjectKind::Modpack => "modpack"@,
    }
}

/// CurseForge's class id for a kind of project.
pub open spec fn curseforge_class(kind: ProjectKind) -> nat {
    match kind {
        ProjectKind::Mod => 6,
        ProjectKind::Modpack => 4471,
    }
}

impl ProjectKind {
    /// Both kinds, in the order the picker lists them.
    pub fn all() -> (r: Vec<ProjectKind>)
        ensures
            r@ == seq![ProjectKind::Mod, ProjectKind::Modpack],
    {
        let mut v: Vec<ProjectKind> = Vec::new();
        v.push(ProjectKind::Mod);
        v.push(ProjectKind::Modpack);
        assert(v@ =~= seq![ProjectKind::Mod, ProjectKind::Modpack]);
        v
    }

    /// The name this kind is shown under.
    pub fn label(self) -> (r: &'static str)
        ensures
            r@ == kind_label(self),
    {
        match self {
            ProjectKind::Mod => "Mods",
            ProjectKind::Modpack => "Modpacks",
        }
    }

    /// Modrinth's `project_type` for this kind.
    pub fn modrinth_type(self) -> (r: &'static str)
        ensures
            r@ == modrinth_type_name(self),
    {
        match self {
            ProjectKind::Mod => "mod",
            ProjectKind::Modpack => "modpack",
        }
    }

    /// CurseForge's class id for this kind.
    pub fn curseforge_class_id(self) -> (r: u32)
        ensures
            r == curseforge_class(self),
    {
        match self {
            ProjectKind::Mod => 6,
            ProjectKind::Modpack => 4471,
        }
    }
}

/// A search of one catalogue.
#[derive(Debug, Clone)]
pub struct ProjectSearchRequest {
    pub source: ProjectSource,
    pub kind: ProjectKind,
    pub query: String,
    pub minecraft_version: String,
    pub loader: LoaderChoice,
    pub curseforge_api_key: String,
}

/// A mod or modpack, as found in a catalogue or on disk.
#[derive(Debug, Clone)]
pub struct ManagedProject {
    pub source: ProjectSource,
    pub kind: ProjectKind,
    pub id: String,
    pub title: String,
    pub description: String,
    pub downloads: u64,
    /// Where the project lies on disk, once installed.
    pub installed_path: Option<String>,
    /// A short note on where an installed project was found.
    pub location_hint: Option<String>,
}

/// A request to download the newest fitting file of a project.
#[derive(Debug, Clone)]
pub struct InstallProjectRequest {
    pub project: ManagedProject,
    pub minecraft_dir: String,
    pub minecraft_version: String,
    pub loader: LoaderChoice,
    pub curseforge_api_key: String,
}

/// The file an install wrote and where it wrote it.
#[derive(Debug, Clone)]
pub struct InstallProjectReport {
    pub filename: String,
    pub destination: String,
}

/// A GET request to a catalogue: address, headers and query parameters.
#[derive(Debug, Clone)]
pub struct HttpQuery {
    pub url: String,
    pub headers: Vec<(String, String)>,
    pub params: Vec<(String, String)>,
}

/// The characters of a list of name and value pairs.
pub open spec fn pairs_view(v: Seq<(String, String)>) -> Seq<(Seq<char>, Seq<char>)> {
    Seq::new(v.len(), |i: int| (v[i].0@, v[i].1@))
}

/// Why a catalogue request failed: it could not be sent or was refused, or
/// its answer could not be read.
#[derive(Debug, Clone)]
pub enum FetchError {
    Request(String),
    Body(String),
}

/// The message for a failed request, given the two prefixes of a service.
pub open spec fn fetch_failure(error: FetchError, sent: Seq<char>, read: Seq<char>) -> Seq<char> {
    match error {
        FetchError::Request(d) => sent + d@,
        FetchError::Body(d) => read + d@,
    }
}

/// One project in a Modrinth search answer.
#[derive(Debug, Clone)]
pub struct ModrinthHit {
    pub project_id: String,
    pub title: String,
    pub description: String,
    pub downloads: u64,
}

/// One project in a CurseForge search answer.
#[derive(Debug, Clone)]
pub struct CurseForgeHit {
    pub id: u32,
    pub name: String,
    pub summary: Option<String>,
    pub download_count: Option<u64>,
}

/// One version of a Modrinth project.
#[derive(Debug, Clone)]
pub struct ModrinthVersion {
    pub version_type: String,
    pub files: Vec<ModrinthFile>,
}

/// One file of a Modrinth version.
#[derive(Debug, Clone)]
pub struct ModrinthFile {
    pub url: String,
    pub filename: String,
    pub primary: bool,
}

/// One file of a CurseForge project.
#[derive(Debug, Clone)]
pub struct CurseForgeFile {
    pub file_name: String,
    pub download_url: Option<String>,
}

/// A file to download: its name and its address.
#[derive(Debug, Clone)]
pub struct RemoteFile {
    pub filename: String,
    pub url: String,
}

pub open spec fn modrinth_api() -> Seq<char> {
    "https://api.modrinth.com/v2"@
}

pub open spec fn curseforge_api() -> Seq<char> {
    "https://api.curseforge.com"@
}

/// CurseForge's game id for Minecraft.
pub open spec fn minecraft_game_id() -> nat {
    432
}

/// The loader name Modrinth filters by, if any.
pub open spec fn modrinth_loader_name(loader: LoaderChoice) -> Option<Seq<char>> {
    match loader {
        LoaderChoice::Vanilla => None,
        LoaderChoice::Fabric => Some("fabric"@),
        LoaderChoice::Quilt => Some("quilt"@),
        LoaderChoice::Forge => Some("forge"@),
        LoaderChoice::NeoForge => Some("neoforge"@),
    }
}

/// The loader name Modrinth filters by; none for a vanilla game.
pub fn modrinth_loader(loader: LoaderChoice) -> (r: Option<&'static str>)
    ensures
        match r {
            Some(s) => modrinth_loader_name(loader) == Some(s@),
            None => modrinth_loader_name(loader) is None,
        },
{
    match loader {
        LoaderChoice::Vanilla => None,
        LoaderChoice::Fabric => Some("fabric"),
        LoaderChoice::Quilt => Some("quilt"),
        LoaderChoice::Forge => Some("forge"),
        LoaderChoice::NeoForge => Some("neoforge"),
    }
}

/// The message shown when CurseForge is used without a key.
pub open spec fn missing_key_message() -> Seq<char> {
    "Enter a CurseForge API key before using CurseForge."@
}

/// The trimmed CurseForge key, or an error when there is none.
pub fn require_curseforge_key(key: &str) -> (r: Result<&str, String>)
    ensures
        match r {
            Ok(k) => k@ == trimmed(key@) && k@.len() > 0,
            Err(e) => trimmed(key@).len() == 0 && e@ == missing_key_message(),
        },
{
    let key = trim(key);
    if key.unicode_len() == 0 {
        Err(String::from_str("Enter a CurseForge API key before using CurseForge."))
    } else {
        Ok(key)
    }
}

/// A Modrinth facet: `["name:value"]`.
pub open spec fn facet(name: Seq<char>, value: Seq<char>) -> Seq<char> {
    "[\""@ + name + ":"@ + value + "\"]"@
}

/// The facets of a Modrinth search: the project type, then the game version
/// where one is given, then the loader where it is not vanilla.
pub open spec fn modrinth_facets(kind: ProjectKind, version: Seq<char>, loader: LoaderChoice) -> Seq<
    char,
> {
    let v = trimmed(version);
    let with_version = if v.len() == 0 {
        facet("project_type"@, modrinth_type_name(kind))
    } else {
        facet("project_type"@, modrinth_type_name(kind)) + ","@ + facet("versions"@, v)
    };
    let all = match modrinth_loader_name(loader) {
        Some(l) => with_version + ","@ + facet("categories"@, l),
        None => with_version,
    };
    "["@ + all + "]"@
}

/// The query parameters of a Modrinth search.
pub open spec fn modrinth_search_params(request: ProjectSearchRequest) -> Seq<
    (Seq<char>, Seq<char>),
> {
    seq![
        ("query"@, trimmed(request.query@)),
        ("facets"@, modrinth_facets(request.kind, request.minecraft_version@, request.loader)),
        ("index"@, "downloads"@),
        ("limit"@, "12"@),
    ]
}

/// The query parameters of a CurseForge search.
pub open spec fn curseforge_search_params(request: ProjectSearchRequest) -> Seq<
    (Seq<char>, Seq<char>),
> {
    let base = seq![
        ("gameId"@, decimal(minecraft_game_id())),
        ("classId"@, decimal(curseforge_class(request.kind))),
        ("searchFilter"@, trimmed(request.query@)),
        ("pageSize"@, "12"@),
        ("sortField"@, "6"@),
        ("sortOrder"@, "desc"@),
    ];
    let v = trimmed(request.minecraft_version@);
    if v.len() == 0 {
        base
    } else {
        base.push(("gameVersion"@, v))
    }
}

fn pair(name: &str, value: String) -> (r: (String, String))
    ensures
        r.0@ == name@,
        r.1@ == value@,
{
    (String::from_str(name), value)
}

fn facet_string(name: &str, value: &str) -> (r: String)
    ensures
        r@ == facet(name@, value@),
{
    let mut s = String::from_str("[\"");
    s.append(name);
    s.append(":");
    s.append(value);
    s.append("\"]");
    s
}

fn api_key_header(key: &str) -> (r: Vec<(String, String)>)
    ensures
        pairs_view(r@) == seq![("x-api-key"@, key@)],
{
    let mut headers: Vec<(String, String)> = Vec::new();
    headers.push(pair("x-api-key", String::from_str(key)));
    assert(pairs_view(headers@) =~= seq![("x-api-key"@, key@)]);
    headers
}

/// The request that searches the chosen catalogue, or why none can be made.
/// Modrinth needs no key; CurseForge needs a non-blank one, sent trimmed.
pub fn search_projects(request: &ProjectSearchRequest) -> (r: Result<HttpQuery, String>)
    ensures
        match request.source {
            ProjectSource::Modrinth => r matches Ok(q) && {
                &&& q.url@ == modrinth_api() + "/search"@
                &&& q.headers@.len() == 0
                &&& pairs_view(q.params@) == modrinth_search_params(*request)
            },
            ProjectSource::CurseForge => if trimmed(request.curseforge_api_key@).len() == 0 {
                r matches Err(e) && e@ == missing_key_message()
            } else {
                r matches Ok(q) && {
                    &&& q.url@ == curseforge_api() + "/v1/mods/search"@
                    &&& pairs_view(q.headers@) == seq![
                        ("x-api-key"@, trimmed(request.curseforge_api_key@)),
                    ]
                    &&& pairs_view(q.params@) == curseforge_search_params(*request)
                    &&& q.params@[1].0@ == "classId"@
                    &&& q.params@[1].1@ == if request.kind == ProjectKind::Modpack {
                        "4471"@
                    } else {
                        "6"@
                    }
                }
            },
        },
{
    proof {
        lemma_curseforge_search_asks_for_the_requested_kind(*request);
    }
    match request.source {
        ProjectSource::Modrinth => {
            let version = trim(request.minecraft_version.as_str());
            let mut inner = facet_string("project_type", request.kind.modrinth_type());
            if version.unicode_len() != 0 {
                inner.append(",");
                inner.append(facet_string("versions", version).as_str());
            }
            match modrinth_loader(request.loader) {
                Some(loader) => {
                    inner.append(",");
                    inner.append(facet_string("categories", loader).as_str());
                },
                None => {},
            }
            let facets = String::from_str("[").concat(inner.as_str()).concat("]");
            let mut params: Vec<(String, String)> = Vec::new();
            params.push(pair("query", trimmed_string(request.query.as_str())));
            params.push(pair("facets", facets));
            params.push(pair("index", String::from_str("downloads")));
            params.push(pair("limit", String::from_str("12")));
            assert(pairs_view(params@) =~= modrinth_search_params(*request));
            Ok(
                HttpQuery {
                    url: String::from_str("https://api.modrinth.com/v2").concat("/search"),
                    headers: Vec::new(),
                    params,
                },
            )
        },
        ProjectSource::CurseForge => {
            let key = match require_curseforge_key(request.curseforge_api_key.as_str()) {
                Ok(k) => k,
                Err(e) => {
                    return Err(e);
                },
            };
            let version = trim(request.minecraft_version.as_str());
            let mut params: Vec<(String, String)> = Vec::new();
            params.push(pair("gameId", decimal_string(432)));
            params.push(pair("classId", decimal_string(request.kind.curseforge_class_id() as u64)));
            params.push(pair("searchFilter", trimmed_string(request.query.as_str())));
            params.push(pair("pageSize", String::from_str("12")));
            params.push(pair("sortField", String::from_str("6")));
            params.push(pair("sortOrder", String::from_str("desc")));
            if version.unicode_len() != 0 {
                params.push(pair("gameVersion", String::from_str(version)));
            }
            assert(pairs_view(params@) =~= curseforge_search_params(*request));
            Ok(
                HttpQuery {
                    url: String::from_str("https://api.curseforge.com").concat("/v1/mods/search"),
                    headers: api_key_header(key),
                    params,
                },
            )
        },
    }
}


/// The project a Modrinth search hit stands for.
pub open spec fn is_modrinth_project(p: ManagedProject, kind: ProjectKind, hit: ModrinthHit) -> bool {
    &&& p.source == ProjectSource::Modrinth
    &&& p.kind == kind
    &&& p.id@ == hit.project_id@
    &&& p.title@ == hit.title@
    &&& p.description@ == hit.description@
    &&& p.downloads == hit.downloads
    &&& p.installed_path is None
    &&& p.location_hint is None
}

/// The project a CurseForge search hit stands for: a missing summary reads
/// as empty and a missing download count as zero.
pub open spec fn is_curseforge_project(p: ManagedProject, kind: ProjectKind, hit: CurseForgeHit) -> bool {
    &&& p.source == ProjectSource::CurseForge
    &&& p.kind == kind
    &&& p.id@ == decimal(hit.id as nat)
    &&& p.title@ == hit.name@
    &&& p.description@ == match hit.summary {
        Some(s) => s@,
        None => Seq::<char>::empty(),
    }
    &&& p.downloads == match hit.download_count {
        Some(n) => n,
        None => 0,
    }
    &&& p.installed_path is None
    &&& p.location_hint is None
}

/// The projects of a Modrinth search answer, in its order, or the message
/// for a failed search.
pub fn modrinth_search_results(kind: ProjectKind, outcome: Result<Vec<ModrinthHit>, FetchError>) -> (r:
    Result<Vec<ManagedProject>, String>)
    ensures
        match outcome {
            Ok(hits) => r matches Ok(projects) && projects@.len() == hits@.len() && forall|i: int|
                0 <= i < hits@.len() ==> is_modrinth_project(
                    #[trigger] projects@[i],
                    kind,
                    hits@[i],
                ),
            Err(error) => r matches Err(e) && e@ == fetch_failure(
                error,
                "Modrinth search failed: "@,
                "Modrinth response could not be read: "@,
            ),
        },
{
    match outcome {
        Err(FetchError::Request(d)) => Err(
            String::from_str("Modrinth search failed: ").concat(d.as_str()),
        ),
        Err(FetchError::Body(d)) => Err(
            String::from_str("Modrinth response could not be read: ").concat(d.as_str()),
        ),
        Ok(hits) => {
            let mut projects: Vec<ManagedProject> = Vec::new();
            let n: usize = hits.len();
            let mut i: usize = 0;
            while i < n
                invariant
                    n == hits@.len(),
                    i <= n,
                    projects@.len() == i,
                    forall|k: int|
                        0 <= k < i ==> is_modrinth_project(#[trigger] projects@[k], kind, hits@[k]),
                decreases n - i,
            {
                let hit = &hits[i];
                projects.push(
                    ManagedProject {
                        source: ProjectSource::Modrinth,
                        kind,
                        id: hit.project_id.clone(),
                        title: hit.title.clone(),
                        description: hit.description.clone(),
                        downloads: hit.downloads,
                        installed_path: None,
                        location_hint: None,
                    },
                );
                i = i + 1;
            }
            Ok(projects)
        },
    }
}

/// The projects of a CurseForge search answer, in its order, or the message
/// for a failed search.
pub fn curseforge_search_results(
    kind: ProjectKind,
    outcome: Result<Vec<CurseForgeHit>, FetchError>,
) -> (r: Result<Vec<ManagedProject>, String>)
    ensures
        match outcome {
            Ok(hits) => r matches Ok(projects) && projects@.len() == hits@.len() && forall|i: int|
                0 <= i < hits@.len() ==> is_curseforge_project(
                    #[trigger] projects@[i],
                    kind,
                    hits@[i],
                ),
            Err(error) => r matches Err(e) && e@ == fetch_failure(
                error,
                "CurseForge search failed: "@,
                "CurseForge response could not be read: "@,
            ),
        },
{
    match outcome {
        Err(FetchError::Request(d)) => Err(
            String::from_str("CurseForge search failed: ").concat(d.as_str()),
        ),
        Err(FetchError::Body(d)) => Err(
            String::from_str("CurseForge response could not be read: ").concat(d.as_str()),
        ),
        Ok(hits) => {
            let mut projects: Vec<ManagedProject> = Vec::new();
            let n: usize = hits.len();
            let mut i: usize = 0;
            while i < n
                invariant
                    n == hits@.len(),
                    i <= n,
                    projects@.len() == i,
                    forall|k: int|
                        0 <= k < i ==> is_curseforge_project(
                            #[trigger] projects@[k],
                            kind,
                            hits@[k],
                        ),
                decreases n - i,
            {
                let hit = &hits[i];
                let description = match &hit.summary {
                    Some(s) => s.clone(),
                    None => String::new(),
                };
                let downloads: u64 = match hit.download_count {
                    Some(n) => n,
                    None => 0,
                };
                projects.push(
                    ManagedProject {
                        source: ProjectSource::CurseForge,
                        kind,
                        id: decimal_string(hit.id as u64),
                        title: hit.name.clone(),
                        description,
                        downloads,
                        installed_path: None,
                        location_hint: None,
                    },
                );
                i = i + 1;
            }
            Ok(projects)
        },
    }
}

/// The query parameters of a request for a Modrinth project's versions.
pub open spec fn modrinth_version_params(request: InstallProjectRequest) -> Seq<
    (Seq<char>, Seq<char>),
> {
    let v = trimmed(request.minecraft_version@);
    let base = seq![("include_changelog"@, "false"@)];
    let with_version = if v.len() == 0 {
        base
    } else {
        base.push(("game_versions"@, "[\""@ + v + "\"]"@))
    };
    match modrinth_loader_name(request.loader) {
        Some(l) => with_version.push(("loaders"@, "[\""@ + l + "\"]"@)),
        None => with_version,
    }
}

/// The query parameters of a request for a CurseForge project's files.
pub open spec fn curseforge_file_params(request: InstallProjectRequest) -> Seq<
    (Seq<char>, Seq<char>),
> {
    let v = trimmed(request.minecraft_version@);
    let base = seq![("pageSize"@, "20"@)];
    if v.len() == 0 {
        base
    } else {
        base.push(("gameVersion"@, v))
    }
}

fn quoted_list(value: &str) -> (r: String)
    ensures
        r@ == "[\""@ + value@ + "\"]"@,
{
    String::from_str("[\"").concat(value).concat("\"]")
}

/// The request that lists the files a project offers for the chosen game
/// version and loader, or why none can be made.
pub fn install_file_query(request: &InstallProjectRequest) -> (r: Result<HttpQuery, String>)
    ensures
        match request.project.source {
            ProjectSource::Modrinth => r matches Ok(q) && {
                &&& q.url@ == modrinth_api() + "/project/"@ + request.project.id@ + "/version"@
                &&& q.headers@.len() == 0
                &&& pairs_view(q.params@) == modrinth_version_params(*request)
            },
            ProjectSource::CurseForge => if trimmed(request.curseforge_api_key@).len() == 0 {
                r matches Err(e) && e@ == missing_key_message()
            } else {
                r matches Ok(q) && {
                    &&& q.url@ == curseforge_api() + "/v1/mods/"@ + request.project.id@
                        + "/files"@
                    &&& pairs_view(q.headers@) == seq![
                        ("x-api-key"@, trimmed(request.curseforge_api_key@)),
                    ]
                    &&& pairs_view(q.params@) == curseforge_file_params(*request)
                    &&& !is_blank(request.minecraft_version@) ==> pairs_view(q.params@).contains(
                        ("gameVersion"@, trimmed(request.minecraft_version@)),
                    )
                }
            },
        },
{
    proof {
        lemma_file_queries_keep_the_game_version(*request);
    }
    let version = trim(request.minecraft_version.as_str());
    match request.project.source {
        ProjectSource::Modrinth => {
            let mut params: Vec<(String, String)> = Vec::new();
            params.push(pair("include_changelog", String::from_str("false")));
            if version.unicode_len() != 0 {
                params.push(pair("game_versions", quoted_list(version)));
            }
            match modrinth_loader(request.loader) {
                Some(loader) => {
                    params.push(pair("loaders", quoted_list(loader)));
                },
                None => {},
            }
            assert(pairs_view(params@) =~= modrinth_version_params(*request));
            let url = String::from_str("https://api.modrinth.com/v2").concat("/project/").concat(
                request.project.id.as_str(),
            ).concat("/version");
            Ok(HttpQuery { url, headers: Vec::new(), params })
        },
        ProjectSource::CurseForge => {
            let key = match require_curseforge_key(request.curseforge_api_key.as_str()) {
                Ok(k) => k,
                Err(e) => {
                    return Err(e);
                },
            };
            let mut params: Vec<(String, String)> = Vec::new();
            params.push(pair("pageSize", String::from_str("20")));
            if version.unicode_len() != 0 {
                params.push(pair("gameVersion", String::from_str(version)));
            }
            assert(pairs_view(params@) =~= curseforge_file_params(*request));
            let url = String::from_str("https://api.curseforge.com").concat("/v1/mods/").concat(
                request.project.id.as_str(),
            ).concat("/files");
            Ok(HttpQuery { url, headers: api_key_header(key), params })
        },
    }
}

pub open spec fn is_release(v: ModrinthVersion) -> bool {
    v.version_type@ == "release"@
}

/// `i` is the first release among `versions`.
pub open spec fn first_release_at(versions: Seq<ModrinthVersion>, i: int) -> bool {
    &&& 0 <= i < versions.len()
    &&& is_release(versions[i])
    &&& forall|j: int| 0 <= j < i ==> !is_release(#[trigger] versions[j])
}

/// `k` is the file to take from `files`: the first primary one, or the
/// first one when none is primary.
pub open spec fn preferred_file_at(files: Seq<ModrinthFile>, k: int) -> bool {
    &&& 0 <= k < files.len()
    &&& if files[k].primary {
        forall|j: int| 0 <= j < k ==> !(#[trigger] files[j]).primary
    } else {
        k == 0 && forall|j: int| 0 <= j < files.len() ==> !(#[trigger] files[j]).primary
    }
}

pub open spec fn no_release_message() -> Seq<char> {
    "No compatible release file was found on Modrinth."@
}

pub open spec fn no_file_message() -> Seq<char> {
    "The selected Modrinth version has no downloadable files."@
}

fn first_release(versions: &Vec<ModrinthVersion>) -> (r: Option<usize>)
    ensures
        match r {
            Some(i) => first_release_at(versions@, i as int),
            None => forall|j: int| 0 <= j < versions@.len() ==> !is_release(#[trigger] versions@[j]),
        },
{
    let release = String::from_str("release");
    let n: usize = versions.len();
    let mut i: usize = 0;
    while i < n
        invariant
            n == versions@.len(),
            i <= n,
            release@ == "release"@,
            forall|j: int| 0 <= j < i ==> !is_release(#[trigger] versions@[j]),
        decreases n - i,
    {
        if versions[i].version_type == release {
            return Some(i);
        }
        i = i + 1;
    }
    None
}

fn preferred_file(files: &Vec<ModrinthFile>) -> (r: Option<usize>)
    ensures
        match r {
            Some(k) => preferred_file_at(files@, k as int),
            None => files@.len() == 0,
        },
{
    let n: usize = files.len();
    let mut k: usize = 0;
    while k < n
        invariant
            n == files@.len(),
            k <= n,
            forall|j: int| 0 <= j < k ==> !(#[trigger] files@[j]).primary,
        decreases n - k,
    {
        if files[k].primary {
            return Some(k);
        }
        k = k + 1;
    }
    if n == 0 {
        None
    } else {
        Some(0)
    }
}

/// The file to install from a Modrinth project's versions: from the first
/// release, its primary file, else its first file.
pub fn modrinth_release_file(outcome: Result<Vec<ModrinthVersion>, FetchError>) -> (r: Result<
    RemoteFile,
    String,
>)
    ensures
        match outcome {
            Err(error) => r matches Err(e) && e@ == fetch_failure(
                error,
                "Could not find Modrinth versions: "@,
                "Modrinth version response could not be read: "@,
            ),
            Ok(versions) => match r {
                Ok(file) => exists|i: int, k: int|
                    first_release_at(versions@, i) && preferred_file_at(
                        versions@[i].files@,
                        k,
                    ) && file.filename@ == versions@[i].files@[k].filename@ && file.url@
                        == versions@[i].files@[k].url@,
                Err(e) => {
                    ||| (forall|j: int|
                        0 <= j < versions@.len() ==> !is_release(#[trigger] versions@[j])) && e@
                        == no_release_message()
                    ||| exists|i: int|
                        first_release_at(versions@, i) && versions@[i].files@.len() == 0 && e@
                            == no_file_message()
                },
            },
        },
{
    match outcome {
        Err(FetchError::Request(d)) => Err(
            String::from_str("Could not find Modrinth versions: ").concat(d.as_str()),
        ),
        Err(FetchError::Body(d)) => Err(
            String::from_str("Modrinth version response could not be read: ").concat(d.as_str()),
        ),
        Ok(versions) => match first_release(&versions) {
            None => Err(String::from_str("No compatible release file was found on Modrinth.")),
            Some(i) => match preferred_file(&versions[i].files) {
                None => Err(
                    String::from_str("The selected Modrinth version has no downloadable files."),
                ),
                Some(k) => {
                    let file = &versions[i].files[k];
                    Ok(RemoteFile { filename: file.filename.clone(), url: file.url.clone() })
                },
            },
        },
    }
}

/// A CurseForge file with a non-empty download address.
pub open spec fn has_download(file: CurseForgeFile) -> bool {
    file.download_url matches Some(url) && url@.len() > 0
}

pub open spec fn first_download_at(files: Seq<CurseForgeFile>, i: int) -> bool {
    &&& 0 <= i < files.len()
    &&& has_download(files[i])
    &&& forall|j: int| 0 <= j < i ==> !has_download(#[trigger] files[j])
}

pub open spec fn no_download_message() -> Seq<char> {
    "No direct CurseForge download URL was available for this project."@
}

/// The file to install from a CurseForge project's files: the first one
/// with a download address.
pub fn curseforge_download_file(outcome: Result<Vec<CurseForgeFile>, FetchError>) -> (r: Result<
    RemoteFile,
    String,
>)
    ensures
        match outcome {
            Err(error) => r matches Err(e) && e@ == fetch_failure(
                error,
                "Could not find CurseForge files: "@,
                "CurseForge files response could not be read: "@,
            ),
            Ok(files) => match r {
                Ok(file) => exists|i: int|
                    first_download_at(files@, i) && file.filename@ == files@[i].file_name@
                        && (files@[i].download_url matches Some(url) && file.url@ == url@),
                Err(e) => (forall|j: int|
                    0 <= j < files@.len() ==> !has_download(#[trigger] files@[j])) && e@
                    == no_download_message(),
            },
        },
{
    match outcome {
        Err(FetchError::Request(d)) => Err(
            String::from_str("Could not find CurseForge files: ").concat(d.as_str()),
        ),
        Err(FetchError::Body(d)) => Err(
            String::from_str("CurseForge files response could not be read: ").concat(d.as_str()),
        ),
        Ok(files) => {
            let n: usize = files.len();
            let mut i: usize = 0;
            while i < n
                invariant
                    n == files@.len(),
                    i <= n,
                    forall|j: int| 0 <= j < i ==> !has_download(#[trigger] files@[j]),
                    outcome matches Ok(fs) && fs == files,
                decreases n - i,
            {
                let file = &files[i];
                match &file.download_url {
                    Some(url) => {
                        if url.as_str().unicode_len() != 0 {
                            assert(first_download_at(files@, i as int));
                            let found = RemoteFile {
                                filename: file.file_name.clone(),
                                url: url.clone(),
                            };
                            return Ok(found);
                        }
                    },
                    None => {},
                }
                i = i + 1;
            }
            Err(
                String::from_str(
                    "No direct CurseForge download URL was available for this project.",
                ),
            )
        },
    }
}

/// Where, below the launcher directory, an installed project goes: a mod
/// into the mods folder of its game version, a modpack into `modpacks`.
pub open spec fn destination_parts(request: InstallProjectRequest) -> Seq<Seq<char>> {
    match request.project.kind {
        ProjectKind::Mod => seq!["versions"@, trimmed(request.minecraft_version@), "mods"@],
        ProjectKind::Modpack => seq!["modpacks"@],
    }
}

/// The directory names, below the launcher directory, of the folder an
/// installed project goes into.
pub fn install_destination(request: &InstallProjectRequest) -> (r: Vec<String>)
    ensures
        r@.len() == destination_parts(*request).len(),
        forall|i: int| 0 <= i < r@.len() ==> (#[trigger] r@[i])@ == destination_parts(*request)[i],
{
    let mut parts: Vec<String> = Vec::new();
    match request.project.kind {
        ProjectKind::Mod => {
            parts.push(String::from_str("versions"));
            parts.push(trimmed_string(request.minecraft_version.as_str()));
            parts.push(String::from_str("mods"));
        },
        ProjectKind::Modpack => {
            parts.push(String::from_str("modpacks"));
        },
    }
    parts
}

/// A CurseForge search asks for Minecraft (game 432) and for the requested
/// kind of project: class 4471 for modpacks, class 6 for mods; it filters by
/// the trimmed query, and by the trimmed game version exactly when one is
/// given.
pub proof fn lemma_curseforge_search_asks_for_the_requested_kind(request: ProjectSearchRequest)
    ensures
        curseforge_search_params(request)[0] == ("gameId"@, "432"@),
        curseforge_search_params(request)[1] == ("classId"@, if request.kind
            == ProjectKind::Modpack {
            "4471"@
        } else {
            "6"@
        }),
        curseforge_search_params(request)[2] == ("searchFilter"@, trimmed(request.query@)),
        is_blank(request.minecraft_version@) ==> curseforge_search_params(request).len() == 6,
        !is_blank(request.minecraft_version@) ==> curseforge_search_params(request).len() == 7
            && curseforge_search_params(request)[6] == ("gameVersion"@, trimmed(
            request.minecraft_version@,
        )),
{
    reveal_strlit("432");
    reveal_strlit("4471");
    reveal_strlit("6");
    reveal_with_fuel(decimal, 5);
    assert(decimal(432) =~= "432"@);
    assert(decimal(4471) =~= "4471"@);
    assert(decimal(6) =~= "6"@);
}

/// A request for a project's files names the chosen game version, trimmed,
/// exactly when one is given: CurseForge as `gameVersion`, Modrinth as the
/// one-element list `game_versions`.
pub proof fn lemma_file_queries_keep_the_game_version(request: InstallProjectRequest)
    ensures
        !is_blank(request.minecraft_version@) ==> curseforge_file_params(request).contains(
            ("gameVersion"@, trimmed(request.minecraft_version@)),
        ),
        !is_blank(request.minecraft_version@) ==> modrinth_version_params(request).contains(
            ("game_versions"@, "[\""@ + trimmed(request.minecraft_version@) + "\"]"@),
        ),
        is_blank(request.minecraft_version@) ==> forall|i: int|
            0 <= i < curseforge_file_params(request).len() ==> (#[trigger] curseforge_file_params(
                request,
            )[i]).0 != "gameVersion"@,
        is_blank(request.minecraft_version@) ==> forall|i: int|
            0 <= i < modrinth_version_params(request).len() ==> (
            #[trigger] modrinth_version_params(request)[i]).0 != "game_versions"@,
        curseforge_file_params(request)[0] == ("pageSize"@, "20"@),
        modrinth_version_params(request)[0] == ("include_changelog"@, "false"@),
{
    reveal_strlit("gameVersion");
    reveal_strlit("pageSize");
    reveal_strlit("game_versions");
    reveal_strlit("include_changelog");
    reveal_strlit("loaders");
    let v = trimmed(request.minecraft_version@);
    if v.len() != 0 {
        let c = curseforge_file_params(request);
        assert(c[c.len() - 1] == ("gameVersion"@, v));
        let base = seq![("include_changelog"@, "false"@)];
        let with_version = base.push(("game_versions"@, "[\""@ + v + "\"]"@));
        assert(with_version[1] == ("game_versions"@, "[\""@ + v + "\"]"@));
        let m = modrinth_version_params(request);
        assert(m[1] == with_version[1]);
    } else {
        assert("pageSize"@[0] != "gameVersion"@[0]);
        assert("include_changelog"@[0] != "game_versions"@[0]);
        assert("loaders"@[0] != "game_versions"@[0]);
        let m = modrinth_version_params(request);
        assert forall|i: int| 0 <= i < m.len() implies (#[trigger] m[i]).0 != "game_versions"@ by {
            assert(m[i].0[0] != "game_versions"@[0]);
        }
        let c = curseforge_file_params(request);
        assert forall|i: int| 0 <= i < c.len() implies (#[trigger] c[i]).0 != "gameVersion"@ by {
            assert(c[i].0[0] != "gameVersion"@[0]);
        }
    }
}

/// A Modrinth search filters by the requested kind: its facets begin with
/// `[["project_type:modpack"]` for modpacks and `[["project_type:mod"]` for
/// mods; it searches for the trimmed query, most downloaded first, twelve
/// at a time.
pub proof fn lemma_modrinth_search_asks_for_the_requested_kind(request: ProjectSearchRequest)
    ensures
        modrinth_search_params(request)[0] == ("query"@, trimmed(request.query@)),
        modrinth_search_params(request)[1].0 == "facets"@,
        request.kind == ProjectKind::Modpack ==> modrinth_search_params(request)[1].1.subrange(
            0,
            25,
        ) == "[[\"project_type:modpack\"]"@,
        request.kind == ProjectKind::Mod ==> modrinth_search_params(request)[1].1.subrange(0, 21)
            == "[[\"project_type:mod\"]"@,
        modrinth_search_params(request)[2] == ("index"@, "downloads"@),
        modrinth_search_params(request)[3] == ("limit"@, "12"@),
        modrinth_search_params(request).len() == 4,
{
    reveal_strlit("[[\"project_type:modpack\"]");
    reveal_strlit("[[\"project_type:mod\"]");
    reveal_strlit("[");
    reveal_strlit("[\"");
    reveal_strlit("project_type");
    reveal_strlit(":");
    reveal_strlit("\"]");
    reveal_strlit("mod");
    reveal_strlit("modpack");
    let f = facet("project_type"@, modrinth_type_name(request.kind));
    let facets = modrinth_facets(request.kind, request.minecraft_version@, request.loader);
    let v = trimmed(request.minecraft_version@);
    let with_version = if v.len() == 0 {
        f
    } else {
        f + ","@ + facet("versions"@, v)
    };
    let all = match modrinth_loader_name(request.loader) {
        Some(l) => with_version + ","@ + facet("categories"@, l),
        None => with_version,
    };
    assert(all.subrange(0, f.len() as int) =~= f);
    assert(facets =~= "["@ + all + "]"@);
    assert(facets.subrange(0, f.len() + 1 as int) =~= "["@ + f);
    if request.kind == ProjectKind::Modpack {
        assert("["@ + f =~= "[[\"project_type:modpack\"]"@);
    } else {
        assert("["@ + f =~= "[[\"project_type:mod\"]"@);
    }
}

/// A mod goes into `versions/<game version>/mods`, with the version
/// trimmed; a modpack goes into `modpacks`, whatever the game version.
pub proof fn lemma_installs_go_to_the_right_folder(a: InstallProjectRequest, b: InstallProjectRequest)
    ensures
        a.project.kind == ProjectKind::Mod ==> {
            &&& destination_parts(a).len() == 3
            &&& destination_parts(a)[0] == "versions"@
            &&& destination_parts(a)[1] == trimmed(a.minecraft_version@)
            &&& destination_parts(a)[2] == "mods"@
        },
        a.project.kind == ProjectKind::Modpack ==> destination_parts(a) == seq!["modpacks"@],
        a.project.kind == ProjectKind::Modpack && b.project.kind == ProjectKind::Modpack
            ==> destination_parts(a) == destination_parts(b),
        a.project.kind == ProjectKind::Mod && b.project.kind == ProjectKind::Mod && trimmed(
            a.minecraft_version@,
        ) != trimmed(b.minecraft_version@) ==> destination_parts(a) != destination_parts(b),
{
    if a.project.kind == ProjectKind::Mod && b.project.kind == ProjectKind::Mod {
        assert(destination_parts(a)[1] == trimmed(a.minecraft_version@));
        assert(destination_parts(b)[1] == trimmed(b.minecraft_version@));
    }
}

/// Modrinth filters by a loader exactly when one other than vanilla is
/// chosen, and by a different name for each.
pub proof fn lemma_modrinth_loader_names(a: LoaderChoice, b: LoaderChoice)
    ensures
        modrinth_loader_name(a) is None <==> a == LoaderChoice::Vanilla,
        a != b && a != LoaderChoice::Vanilla && b != LoaderChoice::Vanilla
            ==> modrinth_loader_name(a) != modrinth_loader_name(b),
{
    reveal_strlit("fabric");
    reveal_strlit("quilt");
    reveal_strlit("forge");
    reveal_strlit("neoforge");
    assert("fabric"@[0] != "quilt"@[0] && "fabric"@[1] != "forge"@[1] && "fabric"@[0]
        != "neoforge"@[0]);
    assert("quilt"@[0] != "forge"@[0] && "quilt"@[0] != "neoforge"@[0]);
    assert("forge"@[0] != "neoforge"@[0]);
}
} // verus!
