//! Details of an API key: its plan, its lifetime, and the projects and
//! scripts it owns.
//!
//! `GET /v3/keys/{api_key}/details`, authenticated with the API key, which
//! also appears in the path.

use vstd::prelude::*;
use vstd::string::StringExecFns;
use vstd::string::StrSliceExecFns;
use crate::combinator::{
    ApiError, LuarmorResponse, read_envelope, res_view, spec_outcome,
};
use crate::endpoint::{Endpoint, Method, pairs_view};
use crate::json::{Json, JVal, lemma_jvals, spec_field};
use crate::models::v3::{
    MAX_TIMESTAMP, spec_bool_field, spec_num_bool_field, spec_str_field, spec_timestamp_field, bool_field,
    num_bool_field, str_field, timestamp_field,
};

verus! {

/// The details request for one API key.
#[derive(Clone, Copy, Debug, PartialEq, Eq)]
pub struct ApiKeyDetails<'a> {
    pub api_key: &'a str,
}

impl<'a> ApiKeyDetails<'a> {
    /// Describes the details request for `api_key`.
    pub fn new(api_key: &'a str) -> (r: Self)
        ensures
            r.api_key == api_key,
    {
        ApiKeyDetails { api_key }
    }
}

impl<'a> Endpoint for ApiKeyDetails<'a> {
    open spec fn spec_method(&self) -> Method {
        Method::Get
    }

    open spec fn spec_path(&self) -> Seq<char> {
        "/v3/keys/"@ + self.api_key@ + "/details"@
    }

    open spec fn spec_query(&self) -> Seq<(Seq<char>, Seq<char>)> {
        Seq::empty()
    }

    open spec fn spec_body(&self) -> Option<JVal> {
        None
    }

    open spec fn spec_ignore_errors(&self) -> bool {
        false
    }

    fn method(&self) -> (m: Method) {
        Method::Get
    }

    fn path(&self) -> (p: String) {
        let mut p = String::from_str("/v3/keys/");
        p.append(self.api_key);
        p.append("/details");
        p
    }

    fn query_params(&self) -> (q: Vec<(String, String)>) {
        let q: Vec<(String, String)> = Vec::new();
        proof {
            assert(pairs_view(q@) =~= Seq::<(Seq<char>, Seq<char>)>::empty());
        }
        q
    }

    fn body(&self) -> (b: Option<Json>) {
        None
    }

    fn ignore_errors(&self) -> (b: bool) {
        false
    }
}

/// The plan tier of an API key, decoded from its single-letter wire code.
/// A code the library does not know passes through opaquely.
#[derive(Clone, Copy, Debug, PartialEq, Eq, PartialOrd, Ord, Hash)]
pub enum KeyPlan {
    Basic,
    Premium,
    Pro,
    Other(char),
}

/// The plan a wire value decodes to: a string of exactly one character,
/// with `b`, `p` and `r` naming the known tiers.
pub open spec fn spec_plan_of(v: JVal) -> Option<KeyPlan> {
    match v {
        JVal::Str(s) => if s.len() == 1 {
            if s[0] == 'b' {
                Some(KeyPlan::Basic)
            } else if s[0] == 'p' {
                Some(KeyPlan::Premium)
            } else if s[0] == 'r' {
                Some(KeyPlan::Pro)
            } else {
                Some(KeyPlan::Other(s[0]))
            }
        } else {
            None
        },
        _ => None,
    }
}

/// Decodes a plan tier.
pub fn decode_plan(v: &Json) -> (r: Option<KeyPlan>)
    ensures
        r == spec_plan_of(v@),
{
    match v.as_str() {
        Some(s) => {
            let n = s.as_str().unicode_len();
            if n == 1 {
                let c = s.as_str().get_char(0);
                if c == 'b' {
                    Some(KeyPlan::Basic)
                } else if c == 'p' {
                    Some(KeyPlan::Premium)
                } else if c == 'r' {
                    Some(KeyPlan::Pro)
                } else {
                    Some(KeyPlan::Other(c))
                }
            } else {
                None
            }
        },
        None => None,
    }
}

/// The platform a project runs on.
#[derive(Clone, Copy, Debug, Default, PartialEq, Eq, PartialOrd, Ord, Hash)]
pub enum ProjectPlatform {
    #[default]
    Roblox,
}

/// The platform a wire value decodes to.
pub open spec fn spec_platform_of(v: JVal) -> Option<ProjectPlatform> {
    match v {
        JVal::Str(s) => if s == "roblox"@ {
            Some(ProjectPlatform::Roblox)
        } else {
            None
        },
        _ => None,
    }
}

/// Decodes a platform.
pub fn decode_platform(v: &Json) -> (r: Option<ProjectPlatform>)
    ensures
        r == spec_platform_of(v@),
{
    match v.as_str() {
        Some(s) => if crate::json::str_eq(s.as_str(), "roblox") {
            Some(ProjectPlatform::Roblox)
        } else {
            None
        },
        None => None,
    }
}

/// How long a user must wait between HWID resets: never enforced, or a
/// timestamp-valued setting.
#[derive(Clone, Copy, Debug, PartialEq, Eq, PartialOrd, Ord, Hash)]
pub enum ResetHwidCooldown {
    Never,
    Specified(i64),
}

/// The cooldown a wire value decodes to: any negative number means never,
/// and anything else must be a timestamp naming a calendar date.
pub open spec fn spec_cooldown_of(v: JVal) -> Option<ResetHwidCooldown> {
    match v {
        JVal::Int(i) => if i < 0 {
            Some(ResetHwidCooldown::Never)
        } else if i <= MAX_TIMESTAMP {
            Some(ResetHwidCooldown::Specified(i as i64))
        } else {
            None
        },
        _ => None,
    }
}

/// Decodes a reset cooldown.
pub fn decode_cooldown(v: &Json) -> (r: Option<ResetHwidCooldown>)
    ensures
        r == spec_cooldown_of(v@),
{
    match v.as_i64() {
        Some(i) => if i < 0 {
            Some(ResetHwidCooldown::Never)
        } else if i <= MAX_TIMESTAMP {
            Some(ResetHwidCooldown::Specified(i))
        } else {
            None
        },
        None => None,
    }
}

/// The settings of a project.
#[derive(Clone, Copy, Debug, PartialEq, Eq, PartialOrd, Ord, Hash)]
pub struct ProjectSettings {
    pub reset_hwid_cooldown: ResetHwidCooldown,
}

/// The settings a wire object decodes to.
pub open spec fn spec_settings_of(j: JVal) -> Option<ProjectSettings> {
    match spec_field(j, "reset_hwid_cooldown"@) {
        Some(v) => match spec_cooldown_of(v) {
            Some(c) => Some(ProjectSettings { reset_hwid_cooldown: c }),
            None => None,
        },
        None => None,
    }
}

/// Decodes project settings.
pub fn decode_settings(j: &Json) -> (r: Option<ProjectSettings>)
    ensures
        r == spec_settings_of(j@),
{
    match j.field("reset_hwid_cooldown") {
        Some(v) => match decode_cooldown(v) {
            Some(c) => Some(ProjectSettings { reset_hwid_cooldown: c }),
            None => None,
        },
        None => None,
    }
}

/// One script of a project.
#[derive(Clone, Debug, PartialEq, Eq, PartialOrd, Ord, Hash)]
pub struct Script {
    pub script_name: String,
    pub script_id: String,
    pub script_version: String,
    pub ffa: bool,
    pub silent: bool,
}

/// The mathematical form of [`Script`].
pub struct ScriptV {
    pub script_name: Seq<char>,
    pub script_id: Seq<char>,
    pub script_version: Seq<char>,
    pub ffa: bool,
    pub silent: bool,
}

impl View for Script {
    type V = ScriptV;

    open spec fn view(&self) -> ScriptV {
        ScriptV {
            script_name: self.script_name@,
            script_id: self.script_id@,
            script_version: self.script_version@,
            ffa: self.ffa,
            silent: self.silent,
        }
    }
}

/// The script record a wire object decodes to.
pub open spec fn spec_script_of(j: JVal) -> Option<ScriptV> {
    match (
        spec_str_field(j, "script_name"@),
        spec_str_field(j, "script_id"@),
        spec_str_field(j, "script_version"@),
        spec_bool_field(j, "ffa"@),
        spec_bool_field(j, "silent"@),
    ) {
        (Some(script_name), Some(script_id), Some(script_version), Some(ffa), Some(silent)) => Some(
            ScriptV { script_name, script_id, script_version, ffa, silent },
        ),
        _ => None,
    }
}

/// Decodes one script record.
pub fn decode_script(j: &Json) -> (r: Option<Script>)
    ensures
        match r {
            Some(s) => spec_script_of(j@) == Some(s@),
            None => spec_script_of(j@) is None,
        },
{
    let script_name = str_field(j, "script_name");
    let script_id = str_field(j, "script_id");
    let script_version = str_field(j, "script_version");
    let ffa = bool_field(j, "ffa");
    let silent = bool_field(j, "silent");
    match (script_name, script_id, script_version, ffa, silent) {
        (Some(script_name), Some(script_id), Some(script_version), Some(ffa), Some(silent)) => Some(
            Script { script_name, script_id, script_version, ffa, silent },
        ),
        _ => None,
    }
}

/// The script records a sequence of wire values decodes to: all of them, or
/// nothing if any one is malformed.
pub open spec fn spec_scripts_of(items: Seq<JVal>) -> Option<Seq<ScriptV>>
    decreases items.len(),
{
    if items.len() == 0 {
        Some(Seq::empty())
    } else {
        match (spec_script_of(items[0]), spec_scripts_of(items.drop_first())) {
            (Some(head), Some(tail)) => Some(seq![head] + tail),
            _ => None,
        }
    }
}

/// Decodes an array of script records.
pub fn decode_scripts(items: &Vec<Json>) -> (r: Option<Vec<Script>>)
    ensures
        match r {
            Some(v) => spec_scripts_of(Json::jvals(items@)) == Some(
                Seq::new(v@.len(), |k: int| v@[k]@),
            ),
            None => spec_scripts_of(Json::jvals(items@)) is None,
        },
{
    let ghost all = Json::jvals(items@);
    proof {
        lemma_jvals(items@);
        assert(all.skip(0) =~= all);
    }
    let n = items.len();
    let mut acc: Vec<Script> = Vec::new();
    let mut i: usize = 0;
    while i < n
        invariant
            n == items@.len(),
            i <= n,
            acc@.len() == i,
            all == Json::jvals(items@),
            all.len() == n,
            forall|k: int| 0 <= k < n ==> all[k] == items@[k]@,
            spec_scripts_of(all) == match spec_scripts_of(all.skip(i as int)) {
                Some(rest) => Some(Seq::new(acc@.len(), |k: int| acc@[k]@) + rest),
                None => None::<Seq<ScriptV>>,
            },
        decreases n - i,
    {
        assert(all.skip(i as int)[0] == all[i as int]);
        assert(all.skip(i as int).drop_first() =~= all.skip(i + 1 as int));
        match decode_script(&items[i]) {
            Some(s) => {
                let ghost old_acc = acc@;
                acc.push(s);
                proof {
                    assert(Seq::new(acc@.len(), |k: int| acc@[k]@) =~= Seq::new(
                        old_acc.len(),
                        |k: int| old_acc[k]@,
                    ) + seq![s@]);
                    assert(match spec_scripts_of(all.skip(i + 1 as int)) {
                        Some(rest) => seq![s@] + rest =~= seq![s@] + rest,
                        None => true,
                    });
                }
            },
            None => {
                return None;
            },
        }
        i = i + 1;
    }
    assert(all.skip(n as int) =~= Seq::<JVal>::empty());
    assert(Seq::new(acc@.len(), |k: int| acc@[k]@) + Seq::empty() =~= Seq::new(
        acc@.len(),
        |k: int| acc@[k]@,
    ));
    Some(acc)
}

/// One project of an API key.
#[derive(Clone, Debug, PartialEq, Eq, PartialOrd, Ord, Hash)]
pub struct Project {
    pub platform: ProjectPlatform,
    pub id: String,
    pub name: String,
    pub settings: ProjectSettings,
    pub scripts: Vec<Script>,
}

/// The mathematical form of [`Project`].
pub struct ProjectV {
    pub platform: ProjectPlatform,
    pub id: Seq<char>,
    pub name: Seq<char>,
    pub settings: ProjectSettings,
    pub scripts: Seq<ScriptV>,
}

impl View for Project {
    type V = ProjectV;

    open spec fn view(&self) -> ProjectV {
        ProjectV {
            platform: self.platform,
            id: self.id@,
            name: self.name@,
            settings: self.settings,
            scripts: Seq::new(self.scripts@.len(), |k: int| self.scripts@[k]@),
        }
    }
}

/// The project record a wire object decodes to.
pub open spec fn spec_project_of(j: JVal) -> Option<ProjectV> {
    match (
        spec_field(j, "platform"@),
        spec_str_field(j, "id"@),
        spec_str_field(j, "name"@),
        spec_field(j, "settings"@),
        spec_field(j, "scripts"@),
    ) {
        (Some(platform), Some(id), Some(name), Some(settings), Some(JVal::Arr(scripts))) => match (
            spec_platform_of(platform),
            spec_settings_of(settings),
            spec_scripts_of(scripts),
        ) {
            (Some(platform), Some(settings), Some(scripts)) => Some(
                ProjectV { platform, id, name, settings, scripts },
            ),
            _ => None,
        },
        _ => None,
    }
}

/// Decodes one project record.
pub fn decode_project(j: &Json) -> (r: Option<Project>)
    ensures
        match r {
            Some(p) => spec_project_of(j@) == Some(p@),
            None => spec_project_of(j@) is None,
        },
{
    let platform = match j.field("platform") {
        Some(v) => decode_platform(v),
        None => None,
    };
    let id = str_field(j, "id");
    let name = str_field(j, "name");
    let settings = match j.field("settings") {
        Some(v) => decode_settings(v),
        None => None,
    };
    let scripts = match j.field("scripts") {
        Some(v) => match v.as_arr() {
            Some(items) => decode_scripts(items),
            None => None,
        },
        None => None,
    };
    match (platform, id, name, settings, scripts) {
        (Some(platform), Some(id), Some(name), Some(settings), Some(scripts)) => {
            let p = Project { platform, id, name, settings, scripts };
            Some(p)
        },
        _ => None,
    }
}

/// The project records a sequence of wire values decodes to.
pub open spec fn spec_projects_of(items: Seq<JVal>) -> Option<Seq<ProjectV>>
    decreases items.len(),
{
    if items.len() == 0 {
        Some(Seq::empty())
    } else {
        match (spec_project_of(items[0]), spec_projects_of(items.drop_first())) {
            (Some(head), Some(tail)) => Some(seq![head] + tail),
            _ => None,
        }
    }
}

/// Decodes an array of project records.
pub fn decode_projects(items: &Vec<Json>) -> (r: Option<Vec<Project>>)
    ensures
        match r {
            Some(v) => spec_projects_of(Json::jvals(items@)) == Some(
                Seq::new(v@.len(), |k: int| v@[k]@),
            ),
            None => spec_projects_of(Json::jvals(items@)) is None,
        },
{
    let ghost all = Json::jvals(items@);
    proof {
        lemma_jvals(items@);
        assert(all.skip(0) =~= all);
    }
    let n = items.len();
    let mut acc: Vec<Project> = Vec::new();
    let mut i: usize = 0;
    while i < n
        invariant
            n == items@.len(),
            i <= n,
            acc@.len() == i,
            all == Json::jvals(items@),
            all.len() == n,
            forall|k: int| 0 <= k < n ==> all[k] == items@[k]@,
            spec_projects_of(all) == match spec_projects_of(all.skip(i as int)) {
                Some(rest) => Some(Seq::new(acc@.len(), |k: int| acc@[k]@) + rest),
                None => None::<Seq<ProjectV>>,
            },
        decreases n - i,
    {
        assert(all.skip(i as int)[0] == all[i as int]);
        assert(all.skip(i as int).drop_first() =~= all.skip(i + 1 as int));
        match decode_project(&items[i]) {
            Some(p) => {
                let ghost old_acc = acc@;
                acc.push(p);
                proof {
                    assert(Seq::new(acc@.len(), |k: int| acc@[k]@) =~= Seq::new(
                        old_acc.len(),
                        |k: int| old_acc[k]@,
                    ) + seq![p@]);
                }
            },
            None => {
                return None;
            },
        }
        i = i + 1;
    }
    assert(all.skip(n as int) =~= Seq::<JVal>::empty());
    assert(Seq::new(acc@.len(), |k: int| acc@[k]@) + Seq::empty() =~= Seq::new(
        acc@.len(),
        |k: int| acc@[k]@,
    ));
    Some(acc)
}

/// The details of an API key.
#[derive(Clone, Debug, PartialEq, Eq, PartialOrd, Ord, Hash)]
pub struct ApiKeyDetailsResponse {
    pub email: String,
    pub discord_id: String,
    pub expires_at: i64,
    pub registered_at: i64,
    pub enabled: bool,
    pub plan: KeyPlan,
    pub projects: Vec<Project>,
}

/// The mathematical form of [`ApiKeyDetailsResponse`].
pub struct DetailsV {
    pub email: Seq<char>,
    pub discord_id: Seq<char>,
    pub expires_at: i64,
    pub registered_at: i64,
    pub enabled: bool,
    pub plan: KeyPlan,
    pub projects: Seq<ProjectV>,
}

impl View for ApiKeyDetailsResponse {
    type V = DetailsV;

    open spec fn view(&self) -> DetailsV {
        DetailsV {
            email: self.email@,
            discord_id: self.discord_id@,
            expires_at: self.expires_at,
            registered_at: self.registered_at,
            enabled: self.enabled,
            plan: self.plan,
            projects: Seq::new(self.projects@.len(), |k: int| self.projects@[k]@),
        }
    }
}

/// The details record a response object decodes to. Timestamps are unix
/// seconds; `enabled` is a numeric flag.
pub open spec fn spec_details_of(j: JVal) -> Option<DetailsV> {
    match (
        spec_str_field(j, "email"@),
        spec_str_field(j, "discord_id"@),
        spec_timestamp_field(j, "expires_at"@),
        spec_timestamp_field(j, "registered_at"@),
        spec_num_bool_field(j, "enabled"@),
        spec_field(j, "plan"@),
        spec_field(j, "projects"@),
    ) {
        (
            Some(email),
            Some(discord_id),
            Some(expires_at),
            Some(registered_at),
            Some(enabled),
            Some(plan),
            Some(JVal::Arr(projects)),
        ) => match (spec_plan_of(plan), spec_projects_of(projects)) {
            (Some(plan), Some(projects)) => Some(
                DetailsV {
                    email,
                    discord_id,
                    expires_at,
                    registered_at,
                    enabled,
                    plan,
                    projects,
                },
            ),
            _ => None,
        },
        _ => None,
    }
}

/// Decodes the details record from a response object.
pub fn decode_details(j: &Json) -> (r: Option<ApiKeyDetailsResponse>)
    ensures
        match r {
            Some(d) => spec_details_of(j@) == Some(d@),
            None => spec_details_of(j@) is None,
        },
{
    let email = str_field(j, "email");
    let discord_id = str_field(j, "discord_id");
    let expires_at = timestamp_field(j, "expires_at");
    let registered_at = timestamp_field(j, "registered_at");
    let enabled = num_bool_field(j, "enabled");
    let plan = match j.field("plan") {
        Some(v) => decode_plan(v),
        None => None,
    };
    let projects = match j.field("projects") {
        Some(v) => match v.as_arr() {
            Some(items) => decode_projects(items),
            None => None,
        },
        None => None,
    };
    match (email, discord_id, expires_at, registered_at, enabled, plan, projects) {
        (
            Some(email),
            Some(discord_id),
            Some(expires_at),
            Some(registered_at),
            Some(enabled),
            Some(plan),
            Some(projects),
        ) => {
            let d = ApiKeyDetailsResponse {
                email,
                discord_id,
                expires_at,
                registered_at,
                enabled,
                plan,
                projects,
            };
            Some(d)
        },
        _ => None,
    }
}

/// What the details operation yields for a raw response.
pub open spec fn spec_details_outcome(body: Seq<char>, status: u16) -> Result<
    DetailsV,
    crate::combinator::ApiErrorV,
> {
    spec_outcome(body, status, false, |j: JVal| spec_details_of(j))
}

/// Decodes the raw response of the details operation.
pub fn details_response(status: u16, body: &str) -> (r: Result<ApiKeyDetailsResponse, ApiError>)
    ensures
        res_view(r) == spec_details_outcome(body@, status),
{
    match read_envelope(status, body, false) {
        Err(e) => Err(e),
        Ok((success, message, obj)) => {
            let data = decode_details(&obj);
            LuarmorResponse { success, message, data }.into_result(status, body)
        },
    }
}

} // verus!
