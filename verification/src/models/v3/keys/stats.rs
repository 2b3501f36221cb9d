//! Usage stats of an API key: execution counts and per-month totals.
//!
//! `GET /v3/keys/{api_key}/stats?noUsers={bool}`, authenticated with the
//! API key, which also appears in the path. With `noUsers` set, the server
//! leaves the user totals out, and the response matches
//! [`ApiKeyStatsNoUsersResponse`].

use vstd::prelude::*;
use vstd::string::StringExecFns;
use crate::combinator::{ApiError, LuarmorResponse, read_envelope, res_view, spec_outcome};
use crate::endpoint::{Endpoint, Method, pairs_view};
use crate::json::{Json, JVal, lemma_jvals, spec_field};
use crate::models::v3::{
    spec_timestamp_field, spec_u32_field, spec_u8_field, timestamp_field, u32_field, u8_field,
};

verus! {

/// The stats request for one API key.
#[derive(Clone, Copy, Debug, PartialEq, Eq)]
pub struct ApiKeyStats<'a> {
    pub api_key: &'a str,
    /// Leaves the user totals out of the answer when set.
    pub no_users: bool,
}

impl<'a> ApiKeyStats<'a> {
    /// Describes the stats request for `api_key`.
    pub fn new(api_key: &'a str, no_users: bool) -> (r: Self)
        ensures
            r.api_key == api_key,
            r.no_users == no_users,
    {
        ApiKeyStats { api_key, no_users }
    }
}

impl<'a> Endpoint for ApiKeyStats<'a> {
    open spec fn spec_method(&self) -> Method {
        Method::Get
    }

    open spec fn spec_path(&self) -> Seq<char> {
        "/v3/keys/"@ + self.api_key@ + "/stats?noUsers="@ + (if self.no_users {
            "true"@
        } else {
            "false"@
        })
    }

    open spec fn spec_query(&self) -> Seq<(Seq<char>, Seq<char>)> {
        Seq::empty()
    }

    open spec fn spec_body(&self) -> Option<JVal> {
        None
    }

    open spec fn spec_ignore_errors(&self) -> bool {
        false
    }

    fn method(&self) -> (m: Method) {
        Method::Get
    }

    fn path(&self) -> (p: String) {
        let mut p = String::from_str("/v3/keys/");
        p.append(self.api_key);
        p.append("/stats?noUsers=");
        if self.no_users {
            p.append("true");
        } else {
            p.append("false");
        }
        p
    }

    fn query_params(&self) -> (q: Vec<(String, String)>) {
        let q: Vec<(String, String)> = Vec::new();
        proof {
            assert(pairs_view(q@) =~= Seq::<(Seq<char>, Seq<char>)>::empty());
        }
        q
    }

    fn body(&self) -> (b: Option<Json>) {
        None
    }

    fn ignore_errors(&self) -> (b: bool) {
        false
    }
}

/// Execution counts of a key: a sampling frequency and the samples.
#[derive(Clone, Debug, Default, PartialEq, Eq, PartialOrd, Ord, Hash)]
pub struct ExecutionData {
    pub frequency: u32,
    pub executions: Vec<u32>,
}

/// The mathematical form of [`ExecutionData`].
pub struct ExecutionDataV {
    pub frequency: u32,
    pub executions: Seq<u32>,
}

impl View for ExecutionData {
    type V = ExecutionDataV;

    open spec fn view(&self) -> ExecutionDataV {
        ExecutionDataV { frequency: self.frequency, executions: self.executions@ }
    }
}

/// The `u32` a wire value decodes to.
pub open spec fn spec_u32_of(v: JVal) -> Option<u32> {
    match v {
        JVal::Int(i) => if 0 <= i <= u32::MAX {
            Some(i as u32)
        } else {
            None
        },
        _ => None,
    }
}

/// The `u32` values a sequence of wire values decodes to: all of them, or
/// nothing if any one is out of range or not a number.
pub open spec fn spec_u32s_of(items: Seq<JVal>) -> Option<Seq<u32>>
    decreases items.len(),
{
    if items.len() == 0 {
        Some(Seq::empty())
    } else {
        match (spec_u32_of(items[0]), spec_u32s_of(items.drop_first())) {
            (Some(head), Some(tail)) => Some(seq![head] + tail),
            _ => None,
        }
    }
}

/// Decodes an array of `u32` values.
pub fn decode_u32s(items: &Vec<Json>) -> (r: Option<Vec<u32>>)
    ensures
        match r {
            Some(v) => spec_u32s_of(Json::jvals(items@)) == Some(v@),
            None => spec_u32s_of(Json::jvals(items@)) is None,
        },
{
    let ghost all = Json::jvals(items@);
    proof {
        lemma_jvals(items@);
        assert(all.skip(0) =~= all);
    }
    let n = items.len();
    let mut acc: Vec<u32> = Vec::new();
    let mut i: usize = 0;
    while i < n
        invariant
            n == items@.len(),
            i <= n,
            acc@.len() == i,
            all == Json::jvals(items@),
            all.len() == n,
            forall|k: int| 0 <= k < n ==> all[k] == items@[k]@,
            spec_u32s_of(all) == match spec_u32s_of(all.skip(i as int)) {
                Some(rest) => Some(acc@ + rest),
                None => None::<Seq<u32>>,
            },
        decreases n - i,
    {
        assert(all.skip(i as int)[0] == all[i as int]);
        assert(all.skip(i as int).drop_first() =~= all.skip(i + 1 as int));
        let u = match items[i].as_u64() {
            Some(u) => if u <= u32::MAX as u64 {
                Some(u as u32)
            } else {
                None
            },
            None => None,
        };
        match u {
            Some(u) => {
                let ghost old_acc = acc@;
                acc.push(u);
                proof {
                    assert(acc@ =~= old_acc + seq![u]);
                }
            },
            None => {
                return None;
            },
        }
        i = i + 1;
    }
    assert(all.skip(n as int) =~= Seq::<JVal>::empty());
    assert(acc@ + Seq::<u32>::empty() =~= acc@);
    Some(acc)
}

/// The execution data a wire object decodes to.
pub open spec fn spec_execution_data_of(j: JVal) -> Option<ExecutionDataV> {
    match (spec_u32_field(j, "frequency"@), spec_field(j, "executions"@)) {
        (Some(frequency), Some(JVal::Arr(items))) => match spec_u32s_of(items) {
            Some(executions) => Some(ExecutionDataV { frequency, executions }),
            None => None,
        },
        _ => None,
    }
}

/// Decodes execution data.
pub fn decode_execution_data(j: &Json) -> (r: Option<ExecutionData>)
    ensures
        match r {
            Some(d) => spec_execution_data_of(j@) == Some(d@),
            None => spec_execution_data_of(j@) is None,
        },
{
    let frequency = u32_field(j, "frequency");
    let executions = match j.field("executions") {
        Some(v) => match v.as_arr() {
            Some(items) => decode_u32s(items),
            None => None,
        },
        None => None,
    };
    match (frequency, executions) {
        (Some(frequency), Some(executions)) => Some(ExecutionData { frequency, executions }),
        _ => None,
    }
}

/// The all-time totals of a key.
#[derive(Clone, Copy, Debug, Default, PartialEq, Eq, PartialOrd, Ord, Hash)]
pub struct ScriptDefaultStats {
    pub scripts: u8,
    pub users: u32,
    pub obfuscations: u32,
}

/// The default-stats record a wire object decodes to.
pub open spec fn spec_default_stats_of(j: JVal) -> Option<ScriptDefaultStats> {
    match (
        spec_u8_field(j, "scripts"@),
        spec_u32_field(j, "users"@),
        spec_u32_field(j, "obfuscations"@),
    ) {
        (Some(scripts), Some(users), Some(obfuscations)) => Some(
            ScriptDefaultStats { scripts, users, obfuscations },
        ),
        _ => None,
    }
}

/// Decodes the all-time totals.
pub fn decode_default_stats(j: &Json) -> (r: Option<ScriptDefaultStats>)
    ensures
        r == spec_default_stats_of(j@),
{
    let scripts = u8_field(j, "scripts");
    let users = u32_field(j, "users");
    let obfuscations = u32_field(j, "obfuscations");
    match (scripts, users, obfuscations) {
        (Some(scripts), Some(users), Some(obfuscations)) => Some(
            ScriptDefaultStats { scripts, users, obfuscations },
        ),
        _ => None,
    }
}

/// The monthly totals of a key, user counts included.
#[derive(Clone, Copy, Debug, PartialEq, Eq, PartialOrd, Ord, Hash)]
pub struct ScriptStats {
    pub obfuscations: u32,
    pub scripts: u8,
    pub users: u32,
    pub attacks_blocked: u32,
    pub default: ScriptDefaultStats,
    pub reset_at: i64,
}

/// The stats record a wire object decodes to.
pub open spec fn spec_script_stats_of(j: JVal) -> Option<ScriptStats> {
    match (
        spec_u32_field(j, "obfuscations"@),
        spec_u8_field(j, "scripts"@),
        spec_u32_field(j, "users"@),
        spec_u32_field(j, "attacks_blocked"@),
        spec_field(j, "default"@),
        spec_timestamp_field(j, "reset_at"@),
    ) {
        (
            Some(obfuscations),
            Some(scripts),
            Some(users),
            Some(attacks_blocked),
            Some(default),
            Some(reset_at),
        ) => match spec_default_stats_of(default) {
            Some(default) => Some(
                ScriptStats { obfuscations, scripts, users, attacks_blocked, default, reset_at },
            ),
            None => None,
        },
        _ => None,
    }
}

/// Decodes the monthly totals, user counts included.
pub fn decode_script_stats(j: &Json) -> (r: Option<ScriptStats>)
    ensures
        r == spec_script_stats_of(j@),
{
    let obfuscations = u32_field(j, "obfuscations");
    let scripts = u8_field(j, "scripts");
    let users = u32_field(j, "users");
    let attacks_blocked = u32_field(j, "attacks_blocked");
    let default = match j.field("default") {
        Some(v) => decode_default_stats(v),
        None => None,
    };
    let reset_at = timestamp_field(j, "reset_at");
    match (obfuscations, scripts, users, attacks_blocked, default, reset_at) {
        (
            Some(obfuscations),
            Some(scripts),
            Some(users),
            Some(attacks_blocked),
            Some(default),
            Some(reset_at),
        ) => Some(ScriptStats { obfuscations, scripts, users, attacks_blocked, default, reset_at }),
        _ => None,
    }
}

/// The monthly totals of a key, without the user counts.
#[derive(Clone, Copy, Debug, PartialEq, Eq, PartialOrd, Ord, Hash)]
pub struct ScriptStatsNoUsers {
    pub obfuscations: u32,
    pub scripts: u8,
    pub attacks_blocked: u32,
    pub default: ScriptDefaultStats,
    pub reset_at: i64,
}

/// The user-less stats record a wire object decodes to.
pub open spec fn spec_script_stats_no_users_of(j: JVal) -> Option<ScriptStatsNoUsers> {
    match (
        spec_u32_field(j, "obfuscations"@),
        spec_u8_field(j, "scripts"@),
        spec_u32_field(j, "attacks_blocked"@),
        spec_field(j, "default"@),
        spec_timestamp_field(j, "reset_at"@),
    ) {
        (Some(obfuscations), Some(scripts), Some(attacks_blocked), Some(default), Some(reset_at)) => match spec_default_stats_of(
            default,
        ) {
            Some(default) => Some(
                ScriptStatsNoUsers { obfuscations, scripts, attacks_blocked, default, reset_at },
            ),
            None => None,
        },
        _ => None,
    }
}

/// Decodes the monthly totals without user counts.
pub fn decode_script_stats_no_users(j: &Json) -> (r: Option<ScriptStatsNoUsers>)
    ensures
        r == spec_script_stats_no_users_of(j@),
{
    let obfuscations = u32_field(j, "obfuscations");
    let scripts = u8_field(j, "scripts");
    let attacks_blocked = u32_field(j, "attacks_blocked");
    let default = match j.field("default") {
        Some(v) => decode_default_stats(v),
        None => None,
    };
    let reset_at = timestamp_field(j, "reset_at");
    match (obfuscations, scripts, attacks_blocked, default, reset_at) {
        (Some(obfuscations), Some(scripts), Some(attacks_blocked), Some(default), Some(reset_at)) => Some(
            ScriptStatsNoUsers { obfuscations, scripts, attacks_blocked, default, reset_at },
        ),
        _ => None,
    }
}

/// The stats of an API key, user counts included.
#[derive(Clone, Debug, PartialEq, Eq, PartialOrd, Ord, Hash)]
pub struct ApiKeyStatsResponse {
    pub execution_data: ExecutionData,
    pub stats: ScriptStats,
}

/// The mathematical form of [`ApiKeyStatsResponse`].
pub struct StatsResponseV {
    pub execution_data: ExecutionDataV,
    pub stats: ScriptStats,
}

impl View for ApiKeyStatsResponse {
    type V = StatsResponseV;

    open spec fn view(&self) -> StatsResponseV {
        StatsResponseV { execution_data: self.execution_data@, stats: self.stats }
    }
}

/// The stats response a wire object decodes to.
pub open spec fn spec_stats_response_of(j: JVal) -> Option<StatsResponseV> {
    match (spec_field(j, "execution_data"@), spec_field(j, "stats"@)) {
        (Some(ed), Some(st)) => match (spec_execution_data_of(ed), spec_script_stats_of(st)) {
            (Some(execution_data), Some(stats)) => Some(StatsResponseV { execution_data, stats }),
            _ => None,
        },
        _ => None,
    }
}

/// Decodes the stats record from a response object.
pub fn decode_stats(j: &Json) -> (r: Option<ApiKeyStatsResponse>)
    ensures
        match r {
            Some(d) => spec_stats_response_of(j@) == Some(d@),
            None => spec_stats_response_of(j@) is None,
        },
{
    let execution_data = match j.field("execution_data") {
        Some(v) => decode_execution_data(v),
        None => None,
    };
    let stats = match j.field("stats") {
        Some(v) => decode_script_stats(v),
        None => None,
    };
    match (execution_data, stats) {
        (Some(execution_data), Some(stats)) => Some(ApiKeyStatsResponse { execution_data, stats }),
        _ => None,
    }
}

/// The stats of an API key, without the user counts.
#[derive(Clone, Debug, PartialEq, Eq, PartialOrd, Ord, Hash)]
pub struct ApiKeyStatsNoUsersResponse {
    pub execution_data: ExecutionData,
    pub stats: ScriptStatsNoUsers,
}

/// The mathematical form of [`ApiKeyStatsNoUsersResponse`].
pub struct StatsNoUsersResponseV {
    pub execution_data: ExecutionDataV,
    pub stats: ScriptStatsNoUsers,
}

impl View for ApiKeyStatsNoUsersResponse {
    type V = StatsNoUsersResponseV;

    open spec fn view(&self) -> StatsNoUsersResponseV {
        StatsNoUsersResponseV { execution_data: self.execution_data@, stats: self.stats }
    }
}

/// The user-less stats response a wire object decodes to.
pub open spec fn spec_stats_no_users_response_of(j: JVal) -> Option<StatsNoUsersResponseV> {
    match (spec_field(j, "execution_data"@), spec_field(j, "stats"@)) {
        (Some(ed), Some(st)) => match (
            spec_execution_data_of(ed),
            spec_script_stats_no_users_of(st),
        ) {
            (Some(execution_data), Some(stats)) => Some(
                StatsNoUsersResponseV { execution_data, stats },
            ),
            _ => None,
        },
        _ => None,
    }
}

/// What the stats operation yields for a raw response when the user totals
/// were left out.
pub open spec fn spec_stats_no_users_outcome(body: Seq<char>, status: u16) -> Result<
    StatsNoUsersResponseV,
    crate::combinator::ApiErrorV,
> {
    spec_outcome(body, status, false, |j: JVal| spec_stats_no_users_response_of(j))
}

/// Decodes the user-less stats record from a response object.
pub fn decode_stats_no_users(j: &Json) -> (r: Option<ApiKeyStatsNoUsersResponse>)
    ensures
        match r {
            Some(d) => spec_stats_no_users_response_of(j@) == Some(d@),
            None => spec_stats_no_users_response_of(j@) is None,
        },
{
    let execution_data = match j.field("execution_data") {
        Some(v) => decode_execution_data(v),
        None => None,
    };
    let stats = match j.field("stats") {
        Some(v) => decode_script_stats_no_users(v),
        None => None,
    };
    match (execution_data, stats) {
        (Some(execution_data), Some(stats)) => Some(
            ApiKeyStatsNoUsersResponse { execution_data, stats },
        ),
        _ => None,
    }
}

/// What the stats operation yields for a raw response.
pub open spec fn spec_stats_outcome(body: Seq<char>, status: u16) -> Result<
    StatsResponseV,
    crate::combinator::ApiErrorV,
> {
    spec_outcome(body, status, false, |j: JVal| spec_stats_response_of(j))
}

/// Decodes the raw response of the stats operation.
pub fn stats_response(status: u16, body: &str) -> (r: Result<ApiKeyStatsResponse, ApiError>)
    ensures
        res_view(r) == spec_stats_outcome(body@, status),
{
    match read_envelope(status, body, false) {
        Err(e) => Err(e),
        Ok((success, message, obj)) => {
            let data = decode_stats(&obj);
            LuarmorResponse { success, message, data }.into_result(status, body)
        },
    }
}

/// Decodes the raw response of the stats operation when the user totals
/// were left out.
pub fn stats_no_users_response(status: u16, body: &str) -> (r: Result<
    ApiKeyStatsNoUsersResponse,
    ApiError,
>)
    ensures
        res_view(r) == spec_stats_no_users_outcome(body@, status),
{
    match read_envelope(status, body, false) {
        Err(e) => Err(e),
        Ok((success, message, obj)) => {
            let data = decode_stats_no_users(&obj);
            LuarmorResponse { success, message, data }.into_result(status, body)
        },
    }
}

} // verus!
