//! Configuration, store and project-scaffolding values: the data shapes
//! the application persists or returns, and the exact texts it builds —
//! asset URLs, the fresh configuration, scaffold file contents, the
//! prerequisite report. Reading and writing files, fetching assets and
//! probing for tools stay outside the library; only their outcomes are
//! shaped here.

use vstd::prelude::*;
use vstd::string::StringExecFns;

use crate::text::joined;
use crate::text::json_quoted;
use crate::text::views_of;

verus! {

/// The persisted application configuration.
pub struct RappConfig {
    pub rapp_home: String,
    pub azure_configured: bool,
    pub projects: Vec<ProjectInfo>,
}

/// One scaffolded project as listed to the UI.
pub struct ProjectInfo {
    pub name: String,
    pub path: String,
    pub created: String,
}

/// The outcome of an installation or scaffolding step.
pub struct InstallResult {
    pub success: bool,
    pub message: String,
    pub path: Option<String>,
}

/// The configuration used when none has been persisted yet: the given
/// home directory, Azure not configured, no projects.
pub fn default_config(rapp_home: String) -> (c: RappConfig)
    ensures
        c.rapp_home@ == rapp_home@,
        !c.azure_configured,
        c.projects@.len() == 0,
{
    RappConfig { rapp_home, azure_configured: false, projects: Vec::new() }
}

/// One project listing entry: a directory name and path become a
/// project record with no recorded creation time.
pub fn project_entry(name: String, path: String) -> (p: ProjectInfo)
    ensures
        p.name@ == name@,
        p.path@ == path@,
        p.created@ == Seq::<char>::empty(),
{
    ProjectInfo { name, path, created: String::new() }
}

/// The fixed base of the remote asset store.
pub open spec fn store_base() -> Seq<char> {
    "https://raw.githubusercontent.com/kody-w/RAPP_Store/main/"@
}

/// The URL of one agent asset in the remote store.
pub fn agent_asset_url(path: &str, filename: &str) -> (r: String)
    ensures
        r@ == store_base() + path@ + "/"@ + filename@,
{
    let mut out = String::from_str("https://raw.githubusercontent.com/kody-w/RAPP_Store/main/");
    out.append(path);
    out.append("/");
    out.append(filename);
    out
}

/// The URL of one skill's description in the remote store.
pub fn skill_asset_url(path: &str) -> (r: String)
    ensures
        r@ == store_base() + path@ + "/SKILL.md"@,
{
    let mut out = String::from_str("https://raw.githubusercontent.com/kody-w/RAPP_Store/main/");
    out.append(path);
    out.append("/SKILL.md");
    out
}

/// A successful installation outcome: `"Installed "` and the asset id
/// as the message, the written path attached.
pub fn install_success(id: &str, path: String) -> (r: InstallResult)
    ensures
        r.success,
        r.message@ == "Installed "@ + id@,
        (r.path matches Some(p) && p@ == path@),
{
    let mut message = String::from_str("Installed ");
    message.append(id);
    InstallResult { success: true, message, path: Some(path) }
}

/// A successful scaffolding outcome: `"Created "` and the project name
/// as the message, the project path attached.
pub fn create_success(name: &str, path: String) -> (r: InstallResult)
    ensures
        r.success,
        r.message@ == "Created "@ + name@,
        (r.path matches Some(p) && p@ == path@),
{
    let mut message = String::from_str("Created ");
    message.append(name);
    InstallResult { success: true, message, path: Some(path) }
}

/// The outcome when the target of a clone or scaffold already exists:
/// not a success, no path, the fixed message.
pub fn already_exists() -> (r: InstallResult)
    ensures
        !r.success,
        r.message@ == "Already exists"@,
        r.path is None,
{
    InstallResult { success: false, message: String::from_str("Already exists"), path: None }
}

/// The outcome of a clone: success follows the tool's exit status, the
/// message is `"Cloned"` on success and the tool's error text
/// otherwise, and the target path is always attached.
pub fn clone_result(ok: bool, error_text: String, path: String) -> (r: InstallResult)
    ensures
        r.success == ok,
        ok ==> r.message@ == "Cloned"@,
        !ok ==> r.message@ == error_text@,
        (r.path matches Some(p) && p@ == path@),
{
    InstallResult {
        success: ok,
        message: if ok {
            String::from_str("Cloned")
        } else {
            error_text
        },
        path: Some(path),
    }
}

/// The JSON text of `true` or `false`.
pub open spec fn bool_json(b: bool) -> Seq<char> {
    if b {
        "true"@
    } else {
        "false"@
    }
}

fn bool_json_str(b: bool) -> (r: &'static str)
    ensures
        r@ == bool_json(b),
{
    if b {
        "true"
    } else {
        "false"
    }
}

/// The prerequisite report: one JSON object naming each probed tool and
/// whether its probe succeeded.
pub open spec fn prereq_report_spec(python: bool, git: bool, azure_cli: bool) -> Seq<char> {
    "{\"python\":"@ + bool_json(python) + ",\"git\":"@ + bool_json(git) + ",\"azure_cli\":"@
        + bool_json(azure_cli) + "}"@
}

/// Builds the prerequisite report from the three probe outcomes.
pub fn prereq_report(python: bool, git: bool, azure_cli: bool) -> (r: String)
    ensures
        r@ == prereq_report_spec(python, git, azure_cli),
{
    let mut out = String::from_str("{\"python\":");
    out.append(bool_json_str(python));
    out.append(",\"git\":");
    out.append(bool_json_str(git));
    out.append(",\"azure_cli\":");
    out.append(bool_json_str(azure_cli));
    out.append("}");
    proof {
        assert(out@ =~= prereq_report_spec(python, git, azure_cli));
    }
    out
}

/// The JSON text of one project entry.
pub open spec fn project_info_json(p: ProjectInfo) -> Seq<char> {
    "{\"name\":"@ + json_quoted(p.name@) + ",\"path\":"@ + json_quoted(p.path@) + ",\"created\":"@
        + json_quoted(p.created@) + "}"@
}

/// The JSON texts of a sequence of project entries.
pub open spec fn project_entries_json(ps: Seq<ProjectInfo>) -> Seq<Seq<char>> {
    ps.map_values(|p: ProjectInfo| project_info_json(p))
}

/// The JSON text the configuration is persisted as.
pub open spec fn config_json_spec(c: RappConfig) -> Seq<char> {
    "{\"rapp_home\":"@ + json_quoted(c.rapp_home@) + ",\"azure_configured\":"@ + bool_json(
        c.azure_configured,
    ) + ",\"projects\":["@ + joined(project_entries_json(c.projects@)) + "]}"@
}

/// Builds the JSON text of one project entry.
pub fn project_info_text(p: &ProjectInfo) -> (r: String)
    ensures
        r@ == project_info_json(*p),
{
    let mut out = String::from_str("{\"name\":");
    let q_name = crate::text::json_quote(p.name.as_str());
    out.append(q_name.as_str());
    out.append(",\"path\":");
    let q_path = crate::text::json_quote(p.path.as_str());
    out.append(q_path.as_str());
    out.append(",\"created\":");
    let q_created = crate::text::json_quote(p.created.as_str());
    out.append(q_created.as_str());
    out.append("}");
    proof {
        assert(out@ =~= project_info_json(*p));
    }
    out
}

/// Builds the JSON text the configuration is persisted as.
pub fn config_json(c: &RappConfig) -> (r: String)
    ensures
        r@ == config_json_spec(*c),
{
    let mut entries: Vec<String> = Vec::new();
    let mut i: usize = 0;
    while i < c.projects.len()
        invariant
            i <= c.projects@.len(),
            views_of(entries@) == project_entries_json(c.projects@.subrange(0, i as int)),
        decreases c.projects@.len() - i,
    {
        let entry = project_info_text(&c.projects[i]);
        let ghost pre = entries@;
        entries.push(entry);
        proof {
            let sub = c.projects@.subrange(0, i + 1 as int);
            assert(views_of(pre).len() == pre.len());
            assert(project_entries_json(c.projects@.subrange(0, i as int)).len() == i);
            assert(pre.len() == i);
            assert(entries@ == pre.push(entry));
            assert forall|k: int| 0 <= k < i + 1 implies views_of(entries@)[k]
                == project_entries_json(sub)[k] by {
                assert(sub[k] == c.projects@[k]);
                if k < i {
                    assert(views_of(pre)[k] == project_entries_json(
                        c.projects@.subrange(0, i as int),
                    )[k]);
                    assert(c.projects@.subrange(0, i as int)[k] == c.projects@[k]);
                } else {
                    assert(entries@[k] == entry);
                }
            }
            assert(views_of(entries@) =~= project_entries_json(sub));
        }
        i += 1;
    }
    proof {
        assert(c.projects@.subrange(0, c.projects@.len() as int) =~= c.projects@);
    }
    let mut out = String::from_str("{\"rapp_home\":");
    let q_home = crate::text::json_quote(c.rapp_home.as_str());
    out.append(q_home.as_str());
    out.append(",\"azure_configured\":");
    out.append(bool_json_str(c.azure_configured));
    out.append(",\"projects\":[");
    let js = crate::text::join_commas(&entries);
    out.append(js.as_str());
    out.append("]}");
    proof {
        assert(out@ =~= config_json_spec(*c));
    }
    out
}

/// The manifest written into a fresh project: its name as a JSON string
/// literal, the fixed version, and empty store dependencies.
pub open spec fn project_manifest_spec(name: Seq<char>) -> Seq<char> {
    "{\"name\":"@ + json_quoted(name)
        + ",\"version\":\"1.0.0\",\"dependencies\":{\"rapp_store\":{\"agents\":[],\"skills\":[]}}}"@
}

/// Builds the manifest text for a fresh project.
pub fn project_manifest(name: &str) -> (r: String)
    ensures
        r@ == project_manifest_spec(name@),
{
    let mut out = String::from_str("{\"name\":");
    let quoted = crate::text::json_quote(name);
    out.append(quoted.as_str());
    out.append(",\"version\":\"1.0.0\",\"dependencies\":{\"rapp_store\":{\"agents\":[],\"skills\":[]}}}");
    proof {
        assert(out@ =~= project_manifest_spec(name@));
    }
    out
}

/// The entry-point stub written into a fresh project.
pub fn project_main_stub() -> (r: String)
    ensures
        r@ == "#!/usr/bin/env python3\nprint('Hello from RAPP!')"@,
{
    String::from_str("#!/usr/bin/env python3\nprint('Hello from RAPP!')")
}

} // verus!
