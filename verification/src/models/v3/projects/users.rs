//! User and key management within a project.
//!
//! A "user" is one licence key and whatever is linked to it: a hardware id,
//! a Discord ID, a ban record. The operations here create, fetch, update,
//! delete, reset, link, blacklist and unblacklist such keys.
//!
//! Wire conventions of the user record: an empty string means an absent
//! value; `banned` is a numeric flag; `auth_expire` is a unix timestamp
//! where any negative number means the key never expires.

use vstd::prelude::*;
use vstd::string::StringExecFns;
use crate::combinator::{ApiError, LuarmorResponse, read_envelope, res_view, spec_outcome};
use crate::endpoint::{Endpoint, Method, pairs_view};
use crate::json::{Json, JVal, lemma_jfields, lemma_jvals, spec_field, str_eq};
use crate::models::v3::{
    MAX_TIMESTAMP, jval_opt_bool, jval_opt_i32, jval_opt_i64, jval_opt_str, jval_opt_u32,
    json_opt_bool, json_opt_i32, json_opt_i64, json_opt_str, json_opt_u32, num_bool_field,
    opt_str_field, spec_num_bool_field, spec_opt_str_field, spec_str_field, spec_timestamp_field,
    spec_u32_field, spec_u64_field, str_field, timestamp_field, u32_field, u64_field,
};

verus! {

/// What kind of identifier a user's key is bound to.
#[derive(Clone, Copy, Debug, Default, PartialEq, Eq, PartialOrd, Ord, Hash)]
pub enum UserIdentifierType {
    HWID,
    /// No identifier, or one of a kind the library does not know.
    #[default]
    Unknown,
}

/// The identifier kind a wire value decodes to: any string other than
/// `HWID` is the unknown kind; a non-string is rejected.
pub open spec fn spec_identifier_type_of(v: JVal) -> Option<UserIdentifierType> {
    match v {
        JVal::Str(s) => if s == "HWID"@ {
            Some(UserIdentifierType::HWID)
        } else {
            Some(UserIdentifierType::Unknown)
        },
        _ => None,
    }
}

/// Decodes an identifier kind.
pub fn decode_identifier_type(v: &Json) -> (r: Option<UserIdentifierType>)
    ensures
        r == spec_identifier_type_of(v@),
{
    match v.as_str() {
        Some(s) => if str_eq(s.as_str(), "HWID") {
            Some(UserIdentifierType::HWID)
        } else {
            Some(UserIdentifierType::Unknown)
        },
        None => None,
    }
}

/// The standing of a user's key.
#[derive(Clone, Copy, Debug, PartialEq, Eq, PartialOrd, Ord, Hash)]
pub enum UserStatus {
    /// A hardware id is linked and the key is active.
    Active,
    /// The hardware id was reset and waits to be assigned on the next
    /// execution.
    Reset,
    /// The key is banned.
    Banned,
}

/// The status a wire value decodes to.
pub open spec fn spec_user_status_of(v: JVal) -> Option<UserStatus> {
    match v {
        JVal::Str(s) => if s == "active"@ {
            Some(UserStatus::Active)
        } else if s == "reset"@ {
            Some(UserStatus::Reset)
        } else if s == "banned"@ {
            Some(UserStatus::Banned)
        } else {
            None
        },
        _ => None,
    }
}

/// Decodes a user status.
pub fn decode_user_status(v: &Json) -> (r: Option<UserStatus>)
    ensures
        r == spec_user_status_of(v@),
{
    match v.as_str() {
        Some(s) => if str_eq(s.as_str(), "active") {
            Some(UserStatus::Active)
        } else if str_eq(s.as_str(), "reset") {
            Some(UserStatus::Reset)
        } else if str_eq(s.as_str(), "banned") {
            Some(UserStatus::Banned)
        } else {
            None
        },
        None => None,
    }
}

/// When a user's key expires: never, or at a given unix timestamp.
#[derive(Clone, Copy, Debug, PartialEq, Eq, PartialOrd, Ord, Hash)]
pub enum UserExpiration {
    Never,
    Specified(i64),
}

/// The expiration a wire value decodes to: any negative number means the
/// key never expires, and anything else must name a calendar date.
pub open spec fn spec_expiration_of(v: JVal) -> Option<UserExpiration> {
    match v {
        JVal::Int(i) => if i < 0 {
            Some(UserExpiration::Never)
        } else if i <= MAX_TIMESTAMP {
            Some(UserExpiration::Specified(i as i64))
        } else {
            None
        },
        _ => None,
    }
}

/// Decodes an expiration.
pub fn decode_expiration(v: &Json) -> (r: Option<UserExpiration>)
    ensures
        r == spec_expiration_of(v@),
{
    match v.as_i64() {
        Some(i) => if i < 0 {
            Some(UserExpiration::Never)
        } else if i <= MAX_TIMESTAMP {
            Some(UserExpiration::Specified(i))
        } else {
            None
        },
        None => None,
    }
}

/// One user record: a key and everything linked to it.
#[derive(Clone, Debug, PartialEq, Eq, PartialOrd, Ord, Hash)]
pub struct User {
    pub user_key: Option<String>,
    pub identifier: Option<String>,
    pub identifier_type: UserIdentifierType,
    pub discord_id: Option<String>,
    pub status: UserStatus,
    /// Unix timestamp of the last HWID reset.
    pub last_reset: i64,
    pub total_resets: u32,
    pub auth_expire: UserExpiration,
    pub banned: bool,
    pub ban_reason: Option<String>,
    /// Unix timestamp the ban runs to.
    pub ban_expire: i64,
    pub unban_token: Option<String>,
    pub total_executions: u64,
    pub note: Option<String>,
    pub ban_ip: Option<String>,
}

/// The mathematical form of [`User`].
pub struct UserV {
    pub user_key: Option<Seq<char>>,
    pub identifier: Option<Seq<char>>,
    pub identifier_type: UserIdentifierType,
    pub discord_id: Option<Seq<char>>,
    pub status: UserStatus,
    pub last_reset: i64,
    pub total_resets: u32,
    pub auth_expire: UserExpiration,
    pub banned: bool,
    pub ban_reason: Option<Seq<char>>,
    pub ban_expire: i64,
    pub unban_token: Option<Seq<char>>,
    pub total_executions: u64,
    pub note: Option<Seq<char>>,
    pub ban_ip: Option<Seq<char>>,
}

impl View for User {
    type V = UserV;

    open spec fn view(&self) -> UserV {
        UserV {
            user_key: self.user_key.deep_view(),
            identifier: self.identifier.deep_view(),
            identifier_type: self.identifier_type,
            discord_id: self.discord_id.deep_view(),
            status: self.status,
            last_reset: self.last_reset,
            total_resets: self.total_resets,
            auth_expire: self.auth_expire,
            banned: self.banned,
            ban_reason: self.ban_reason.deep_view(),
            ban_expire: self.ban_expire,
            unban_token: self.unban_token.deep_view(),
            total_executions: self.total_executions,
            note: self.note.deep_view(),
            ban_ip: self.ban_ip.deep_view(),
        }
    }
}

/// The user record a wire object decodes to. String fields use the
/// empty-string sentinel for an absent value.
pub open spec fn spec_user_of(j: JVal) -> Option<UserV> {
    match (
        (
            spec_opt_str_field(j, "user_key"@),
            spec_opt_str_field(j, "identifier"@),
            spec_field(j, "identifier_type"@),
            spec_opt_str_field(j, "discord_id"@),
            spec_field(j, "status"@),
        ),
        (
            spec_timestamp_field(j, "last_reset"@),
            spec_u32_field(j, "total_resets"@),
            spec_field(j, "auth_expire"@),
            spec_num_bool_field(j, "banned"@),
            spec_opt_str_field(j, "ban_reason"@),
        ),
        (
            spec_timestamp_field(j, "ban_expire"@),
            spec_opt_str_field(j, "unban_token"@),
            spec_u64_field(j, "total_executions"@),
            spec_opt_str_field(j, "note"@),
            spec_opt_str_field(j, "ban_ip"@),
        ),
    ) {
        (
            (Some(user_key), Some(identifier), Some(identifier_type), Some(discord_id), Some(status)),
            (Some(last_reset), Some(total_resets), Some(auth_expire), Some(banned), Some(ban_reason)),
            (Some(ban_expire), Some(unban_token), Some(total_executions), Some(note), Some(ban_ip)),
        ) => match (
            spec_identifier_type_of(identifier_type),
            spec_user_status_of(status),
            spec_expiration_of(auth_expire),
        ) {
            (Some(identifier_type), Some(status), Some(auth_expire)) => Some(
                UserV {
                    user_key,
                    identifier,
                    identifier_type,
                    discord_id,
                    status,
                    last_reset,
                    total_resets,
                    auth_expire,
                    banned,
                    ban_reason,
                    ban_expire,
                    unban_token,
                    total_executions,
                    note,
                    ban_ip,
                },
            ),
            _ => None,
        },
        _ => None,
    }
}

/// Decodes one user record.
pub fn decode_user(j: &Json) -> (r: Option<User>)
    ensures
        match r {
            Some(u) => spec_user_of(j@) == Some(u@),
            None => spec_user_of(j@) is None,
        },
{
    let user_key = opt_str_field(j, "user_key");
    let identifier = opt_str_field(j, "identifier");
    let identifier_type = match j.field("identifier_type") {
        Some(v) => decode_identifier_type(v),
        None => None,
    };
    let discord_id = opt_str_field(j, "discord_id");
    let status = match j.field("status") {
        Some(v) => decode_user_status(v),
        None => None,
    };
    let last_reset = timestamp_field(j, "last_reset");
    let total_resets = u32_field(j, "total_resets");
    let auth_expire = match j.field("auth_expire") {
        Some(v) => decode_expiration(v),
        None => None,
    };
    let banned = num_bool_field(j, "banned");
    let ban_reason = opt_str_field(j, "ban_reason");
    let ban_expire = timestamp_field(j, "ban_expire");
    let unban_token = opt_str_field(j, "unban_token");
    let total_executions = u64_field(j, "total_executions");
    let note = opt_str_field(j, "note");
    let ban_ip = opt_str_field(j, "ban_ip");
    match (
        (user_key, identifier, identifier_type, discord_id, status),
        (last_reset, total_resets, auth_expire, banned, ban_reason),
        (ban_expire, unban_token, total_executions, note, ban_ip),
    ) {
        (
            (Some(user_key), Some(identifier), Some(identifier_type), Some(discord_id), Some(status)),
            (Some(last_reset), Some(total_resets), Some(auth_expire), Some(banned), Some(ban_reason)),
            (Some(ban_expire), Some(unban_token), Some(total_executions), Some(note), Some(ban_ip)),
        ) => {
            let u = User {
                user_key,
                identifier,
                identifier_type,
                discord_id,
                status,
                last_reset,
                total_resets,
                auth_expire,
                banned,
                ban_reason,
                ban_expire,
                unban_token,
                total_executions,
                note,
                ban_ip,
            };
            Some(u)
        },
        _ => None,
    }
}

/// The user records a sequence of wire values decodes to: all of them, or
/// nothing if any one is malformed.
pub open spec fn spec_users_of(items: Seq<JVal>) -> Option<Seq<UserV>>
    decreases items.len(),
{
    if items.len() == 0 {
        Some(Seq::empty())
    } else {
        match (spec_user_of(items[0]), spec_users_of(items.drop_first())) {
            (Some(head), Some(tail)) => Some(seq![head] + tail),
            _ => None,
        }
    }
}

/// Decodes an array of user records.
pub fn decode_users(items: &Vec<Json>) -> (r: Option<Vec<User>>)
    ensures
        match r {
            Some(v) => spec_users_of(Json::jvals(items@)) == Some(
                Seq::new(v@.len(), |k: int| v@[k]@),
            ),
            None => spec_users_of(Json::jvals(items@)) is None,
        },
{
    let ghost all = Json::jvals(items@);
    proof {
        lemma_jvals(items@);
        assert(all.skip(0) =~= all);
    }
    let n = items.len();
    let mut acc: Vec<User> = Vec::new();
    let mut i: usize = 0;
    while i < n
        invariant
            n == items@.len(),
            i <= n,
            acc@.len() == i,
            all == Json::jvals(items@),
            all.len() == n,
            forall|k: int| 0 <= k < n ==> all[k] == items@[k]@,
            spec_users_of(all) == match spec_users_of(all.skip(i as int)) {
                Some(rest) => Some(Seq::new(acc@.len(), |k: int| acc@[k]@) + rest),
                None => None::<Seq<UserV>>,
            },
        decreases n - i,
    {
        assert(all.skip(i as int)[0] == all[i as int]);
        assert(all.skip(i as int).drop_first() =~= all.skip(i + 1 as int));
        match decode_user(&items[i]) {
            Some(u) => {
                let ghost old_acc = acc@;
                acc.push(u);
                proof {
                    assert(Seq::new(acc@.len(), |k: int| acc@[k]@) =~= Seq::new(
                        old_acc.len(),
                        |k: int| old_acc[k]@,
                    ) + seq![u@]);
                }
            },
            None => {
                return None;
            },
        }
        i = i + 1;
    }
    assert(all.skip(n as int) =~= Seq::<JVal>::empty());
    assert(Seq::new(acc@.len(), |k: int| acc@[k]@) + Seq::empty() =~= Seq::new(
        acc@.len(),
        |k: int| acc@[k]@,
    ));
    Some(acc)
}

/// The payload of a successful user query: the matching user records.
#[derive(Clone, Debug, PartialEq, Eq, PartialOrd, Ord, Hash)]
pub struct GetUsersResponse {
    pub users: Vec<User>,
}

/// The mathematical form of [`GetUsersResponse`].
pub struct GetUsersResponseV {
    pub users: Seq<UserV>,
}

impl View for GetUsersResponse {
    type V = GetUsersResponseV;

    open spec fn view(&self) -> GetUsersResponseV {
        GetUsersResponseV { users: Seq::new(self.users@.len(), |k: int| self.users@[k]@) }
    }
}

/// The user-query payload a response object decodes to.
pub open spec fn spec_users_response_of(j: JVal) -> Option<GetUsersResponseV> {
    match spec_field(j, "users"@) {
        Some(JVal::Arr(items)) => match spec_users_of(items) {
            Some(users) => Some(GetUsersResponseV { users }),
            None => None,
        },
        _ => None,
    }
}

/// Decodes the user-query payload from a response object.
pub fn decode_users_response(j: &Json) -> (r: Option<GetUsersResponse>)
    ensures
        match r {
            Some(d) => spec_users_response_of(j@) == Some(d@),
            None => spec_users_response_of(j@) is None,
        },
{
    match j.field("users") {
        Some(v) => match v.as_arr() {
            Some(items) => match decode_users(items) {
                Some(users) => Some(GetUsersResponse { users }),
                None => None,
            },
            None => None,
        },
        None => None,
    }
}

/// The payload of a successful key creation: the newly generated key.
#[derive(Clone, Debug, Default, PartialEq, Eq, PartialOrd, Ord, Hash)]
pub struct CreateUserResponse {
    pub user_key: String,
}

/// The mathematical form of [`CreateUserResponse`].
pub struct CreateUserResponseV {
    pub user_key: Seq<char>,
}

impl View for CreateUserResponse {
    type V = CreateUserResponseV;

    open spec fn view(&self) -> CreateUserResponseV {
        CreateUserResponseV { user_key: self.user_key@ }
    }
}

/// The creation payload a response object decodes to.
pub open spec fn spec_create_user_response_of(j: JVal) -> Option<CreateUserResponseV> {
    match spec_str_field(j, "user_key"@) {
        Some(user_key) => Some(CreateUserResponseV { user_key }),
        None => None,
    }
}

/// Decodes the creation payload from a response object.
pub fn decode_create_user_response(j: &Json) -> (r: Option<CreateUserResponse>)
    ensures
        match r {
            Some(d) => spec_create_user_response_of(j@) == Some(d@),
            None => spec_create_user_response_of(j@) is None,
        },
{
    match str_field(j, "user_key") {
        Some(user_key) => Some(CreateUserResponse { user_key }),
        None => None,
    }
}

/// The digit character of one decimal digit.
pub open spec fn spec_digit(d: int) -> char {
    if d == 0 {
        '0'
    } else if d == 1 {
        '1'
    } else if d == 2 {
        '2'
    } else if d == 3 {
        '3'
    } else if d == 4 {
        '4'
    } else if d == 5 {
        '5'
    } else if d == 6 {
        '6'
    } else if d == 7 {
        '7'
    } else if d == 8 {
        '8'
    } else {
        '9'
    }
}

/// The decimal digits of a number, most significant first, without leading
/// zeros.
pub open spec fn spec_decimal(n: int) -> Seq<char>
    recommends
        0 <= n,
    decreases n,
{
    if n < 10 {
        seq![spec_digit(n)]
    } else {
        spec_decimal(n / 10) + seq![spec_digit(n % 10)]
    }
}

/// The single-character text of one decimal digit.
fn digit_str(d: u32) -> (r: &'static str)
    requires
        d < 10,
    ensures
        r@ == seq![spec_digit(d as int)],
{
    proof {
        reveal_strlit("0");
        reveal_strlit("1");
        reveal_strlit("2");
        reveal_strlit("3");
        reveal_strlit("4");
        reveal_strlit("5");
        reveal_strlit("6");
        reveal_strlit("7");
        reveal_strlit("8");
        reveal_strlit("9");
        assert("0"@ =~= seq!['0']);
        assert("1"@ =~= seq!['1']);
        assert("2"@ =~= seq!['2']);
        assert("3"@ =~= seq!['3']);
        assert("4"@ =~= seq!['4']);
        assert("5"@ =~= seq!['5']);
        assert("6"@ =~= seq!['6']);
        assert("7"@ =~= seq!['7']);
        assert("8"@ =~= seq!['8']);
        assert("9"@ =~= seq!['9']);
    }
    match d {
        0 => "0",
        1 => "1",
        2 => "2",
        3 => "3",
        4 => "4",
        5 => "5",
        6 => "6",
        7 => "7",
        8 => "8",
        _ => "9",
    }
}

/// Renders a number as its plain decimal digits, most significant first,
/// with no sign and no leading zeros.
fn u32_string(x: u32) -> (r: String)
    ensures
        r@ == spec_decimal(x as int),
    decreases x,
{
    if x < 10 {
        digit_str(x).to_owned()
    } else {
        let mut s = u32_string(x / 10);
        s.append(digit_str(x % 10));
        s
    }
}

/// The key-creation request.
///
/// Creating a key is a side effect on the remote service: the server
/// generates and stores a fresh `user_key` and returns it. A key created
/// without an identifier and without a Discord ID is unassigned: whoever
/// redeems it first binds their hardware id to it.
#[derive(Clone, Copy, Debug, PartialEq, Eq)]
pub struct CreateUser<'a> {
    pub project_id: &'a str,
    /// The hardware id to bind the key to.
    pub identifier: Option<&'a str>,
    /// Unix timestamp of the expiry date; an omitted value means the key
    /// never expires.
    pub auth_expire: Option<i64>,
    /// A note shown beside the key on the panel.
    pub note: Option<&'a str>,
    /// The Discord ID to link; without one the user cannot reset their own
    /// hardware id.
    pub discord_id: Option<&'a str>,
    /// Days of validity counted from the key's first activation.
    pub key_days: Option<u32>,
}

impl<'a> CreateUser<'a> {
    /// Describes the creation of one unassigned, never-expiring key.
    pub fn new(project_id: &'a str) -> (r: Self)
        ensures
            r.project_id == project_id,
            r.identifier is None,
            r.auth_expire is None,
            r.note is None,
            r.discord_id is None,
            r.key_days is None,
    {
        CreateUser {
            project_id,
            identifier: None,
            auth_expire: None,
            note: None,
            discord_id: None,
            key_days: None,
        }
    }
}

impl<'a> Endpoint for CreateUser<'a> {
    open spec fn spec_method(&self) -> Method {
        Method::Post
    }

    open spec fn spec_path(&self) -> Seq<char> {
        "/v3/projects/"@ + self.project_id@ + "/users"@
    }

    open spec fn spec_query(&self) -> Seq<(Seq<char>, Seq<char>)> {
        Seq::empty()
    }

    open spec fn spec_body(&self) -> Option<JVal> {
        Some(
            JVal::Obj(
                seq![
                    ("identifier"@, jval_opt_str(self.identifier)),
                    ("auth_expire"@, jval_opt_i64(self.auth_expire)),
                    ("note"@, jval_opt_str(self.note)),
                    ("discord_id"@, jval_opt_str(self.discord_id)),
                    ("key_days"@, jval_opt_u32(self.key_days)),
                ],
            ),
        )
    }

    open spec fn spec_ignore_errors(&self) -> bool {
        false
    }

    fn method(&self) -> (m: Method) {
        Method::Post
    }

    fn path(&self) -> (p: String) {
        let mut p = String::from_str("/v3/projects/");
        p.append(self.project_id);
        p.append("/users");
        p
    }

    fn query_params(&self) -> (q: Vec<(String, String)>) {
        let q: Vec<(String, String)> = Vec::new();
        proof {
            assert(pairs_view(q@) =~= Seq::<(Seq<char>, Seq<char>)>::empty());
        }
        q
    }

    fn body(&self) -> (b: Option<Json>) {
        let mut fields: Vec<(String, Json)> = Vec::new();
        fields.push(("identifier".to_owned(), json_opt_str(self.identifier)));
        fields.push(("auth_expire".to_owned(), json_opt_i64(self.auth_expire)));
        fields.push(("note".to_owned(), json_opt_str(self.note)));
        fields.push(("discord_id".to_owned(), json_opt_str(self.discord_id)));
        fields.push(("key_days".to_owned(), json_opt_u32(self.key_days)));
        proof {
            lemma_jfields(fields@);
            assert(Json::jfields(fields@) =~= self.spec_body()->Some_0->Obj_0);
        }
        Some(Json::Obj(fields))
    }

    fn ignore_errors(&self) -> (b: bool) {
        false
    }
}

/// What the key-creation operation yields for a raw response.
pub open spec fn spec_create_user_outcome(body: Seq<char>, status: u16) -> Result<
    CreateUserResponseV,
    crate::combinator::ApiErrorV,
> {
    spec_outcome(body, status, false, |j: JVal| spec_create_user_response_of(j))
}

/// Decodes the raw response of the key-creation operation.
pub fn create_user_response(status: u16, body: &str) -> (r: Result<CreateUserResponse, ApiError>)
    ensures
        res_view(r) == spec_create_user_outcome(body@, status),
{
    match read_envelope(status, body, false) {
        Err(e) => Err(e),
        Ok((success, message, obj)) => {
            let data = decode_create_user_response(&obj);
            LuarmorResponse { success, message, data }.into_result(status, body)
        },
    }
}

/// The user-query request: fetches all users of a project that match every
/// given filter.
///
/// A user's key can be found through their Discord ID only after they have
/// linked it.
#[derive(Clone, Copy, Debug, PartialEq, Eq)]
pub struct GetUsers<'a> {
    pub project_id: &'a str,
    /// Filter on one exact user key.
    pub user_key: Option<&'a str>,
    /// Filter on one exact Discord ID.
    pub discord_id: Option<&'a str>,
    /// Filter on one exact hardware id.
    pub identifier: Option<&'a str>,
    /// Filter on a string found anywhere in a record.
    pub search: Option<&'a str>,
    /// Pagination start index.
    pub from: Option<u32>,
    /// Pagination end index.
    pub until: Option<u32>,
}

impl<'a> GetUsers<'a> {
    /// Describes an unfiltered query of every user of `project_id`.
    pub fn new(project_id: &'a str) -> (r: Self)
        ensures
            r.project_id == project_id,
            r.user_key is None,
            r.discord_id is None,
            r.identifier is None,
            r.search is None,
            r.from is None,
            r.until is None,
    {
        GetUsers {
            project_id,
            user_key: None,
            discord_id: None,
            identifier: None,
            search: None,
            from: None,
            until: None,
        }
    }
}

impl<'a> Endpoint for GetUsers<'a> {
    open spec fn spec_method(&self) -> Method {
        Method::Get
    }

    open spec fn spec_path(&self) -> Seq<char> {
        "/v3/projects/"@ + self.project_id@ + "/users"@
    }

    /// Only the filters that are set appear, in the documented order:
    /// `user_key`, `discord_id`, `identifier`, `search`, `from`, `until`.
    open spec fn spec_query(&self) -> Seq<(Seq<char>, Seq<char>)> {
        (match self.user_key {
            Some(x) => seq![("user_key"@, x@)],
            None => Seq::empty(),
        }) + (match self.discord_id {
            Some(x) => seq![("discord_id"@, x@)],
            None => Seq::empty(),
        }) + (match self.identifier {
            Some(x) => seq![("identifier"@, x@)],
            None => Seq::empty(),
        }) + (match self.search {
            Some(x) => seq![("search"@, x@)],
            None => Seq::empty(),
        }) + (match self.from {
            Some(x) => seq![("from"@, spec_decimal(x as int))],
            None => Seq::empty(),
        }) + (match self.until {
            Some(x) => seq![("until"@, spec_decimal(x as int))],
            None => Seq::empty(),
        })
    }

    open spec fn spec_body(&self) -> Option<JVal> {
        Some(
            JVal::Obj(
                seq![
                    ("user_key"@, jval_opt_str(self.user_key)),
                    ("discord_id"@, jval_opt_str(self.discord_id)),
                    ("identifier"@, jval_opt_str(self.identifier)),
                    ("search"@, jval_opt_str(self.search)),
                    ("from"@, jval_opt_u32(self.from)),
                    ("until"@, jval_opt_u32(self.until)),
                ],
            ),
        )
    }

    open spec fn spec_ignore_errors(&self) -> bool {
        false
    }

    fn method(&self) -> (m: Method) {
        Method::Get
    }

    fn path(&self) -> (p: String) {
        let mut p = String::from_str("/v3/projects/");
        p.append(self.project_id);
        p.append("/users");
        p
    }

    fn query_params(&self) -> (q: Vec<(String, String)>) {
        let mut q: Vec<(String, String)> = Vec::new();
        let ghost mut expected: Seq<(Seq<char>, Seq<char>)> = Seq::empty();
        proof {
            assert(pairs_view(q@) =~= expected);
        }
        if let Some(x) = self.user_key {
            let ghost before = expected;
            q.push(("user_key".to_owned(), x.to_owned()));
            proof {
                expected = before + seq![("user_key"@, x@)];
                assert(pairs_view(q@) =~= expected);
            }
        }
        if let Some(x) = self.discord_id {
            let ghost before = expected;
            q.push(("discord_id".to_owned(), x.to_owned()));
            proof {
                expected = before + seq![("discord_id"@, x@)];
                assert(pairs_view(q@) =~= expected);
            }
        }
        if let Some(x) = self.identifier {
            let ghost before = expected;
            q.push(("identifier".to_owned(), x.to_owned()));
            proof {
                expected = before + seq![("identifier"@, x@)];
                assert(pairs_view(q@) =~= expected);
            }
        }
        if let Some(x) = self.search {
            let ghost before = expected;
            q.push(("search".to_owned(), x.to_owned()));
            proof {
                expected = before + seq![("search"@, x@)];
                assert(pairs_view(q@) =~= expected);
            }
        }
        if let Some(x) = self.from {
            let ghost before = expected;
            q.push(("from".to_owned(), u32_string(x)));
            proof {
                expected = before + seq![("from"@, spec_decimal(x as int))];
                assert(pairs_view(q@) =~= expected);
            }
        }
        if let Some(x) = self.until {
            let ghost before = expected;
            q.push(("until".to_owned(), u32_string(x)));
            proof {
                expected = before + seq![("until"@, spec_decimal(x as int))];
                assert(pairs_view(q@) =~= expected);
            }
        }
        proof {
            assert(expected =~= self.spec_query());
        }
        q
    }

    fn body(&self) -> (b: Option<Json>) {
        let mut fields: Vec<(String, Json)> = Vec::new();
        fields.push(("user_key".to_owned(), json_opt_str(self.user_key)));
        fields.push(("discord_id".to_owned(), json_opt_str(self.discord_id)));
        fields.push(("identifier".to_owned(), json_opt_str(self.identifier)));
        fields.push(("search".to_owned(), json_opt_str(self.search)));
        fields.push(("from".to_owned(), json_opt_u32(self.from)));
        fields.push(("until".to_owned(), json_opt_u32(self.until)));
        proof {
            lemma_jfields(fields@);
            assert(Json::jfields(fields@) =~= self.spec_body()->Some_0->Obj_0);
        }
        Some(Json::Obj(fields))
    }

    fn ignore_errors(&self) -> (b: bool) {
        false
    }
}

/// What the user-query operation yields for a raw response.
pub open spec fn spec_users_outcome(body: Seq<char>, status: u16) -> Result<
    GetUsersResponseV,
    crate::combinator::ApiErrorV,
> {
    spec_outcome(body, status, false, |j: JVal| spec_users_response_of(j))
}

/// Decodes the raw response of the user-query operation.
pub fn users_response(status: u16, body: &str) -> (r: Result<GetUsersResponse, ApiError>)
    ensures
        res_view(r) == spec_users_outcome(body@, status),
{
    match read_envelope(status, body, false) {
        Err(e) => Err(e),
        Ok((success, message, obj)) => {
            let data = decode_users_response(&obj);
            LuarmorResponse { success, message, data }.into_result(status, body)
        },
    }
}

/// The user-update request: edits fields of one existing key.
#[derive(Clone, Copy, Debug, PartialEq, Eq)]
pub struct UpdateUser<'a> {
    pub project_id: &'a str,
    /// The key to update.
    pub user_key: &'a str,
    /// A new hardware id to bind the key to.
    pub identifier: Option<&'a str>,
    /// Unix timestamp of the new expiry date.
    pub auth_expire: Option<i64>,
    /// A new note.
    pub note: Option<&'a str>,
    /// A new Discord ID.
    pub discord_id: Option<&'a str>,
}

impl<'a> UpdateUser<'a> {
    /// Describes an update of `user_key` in `project_id` that changes
    /// nothing yet.
    pub fn new(project_id: &'a str, user_key: &'a str) -> (r: Self)
        ensures
            r.project_id == project_id,
            r.user_key == user_key,
            r.identifier is None,
            r.auth_expire is None,
            r.note is None,
            r.discord_id is None,
    {
        UpdateUser {
            project_id,
            user_key,
            identifier: None,
            auth_expire: None,
            note: None,
            discord_id: None,
        }
    }
}

impl<'a> Endpoint for UpdateUser<'a> {
    open spec fn spec_method(&self) -> Method {
        Method::Patch
    }

    open spec fn spec_path(&self) -> Seq<char> {
        "/v3/projects/"@ + self.project_id@ + "/users"@
    }

    open spec fn spec_query(&self) -> Seq<(Seq<char>, Seq<char>)> {
        Seq::empty()
    }

    open spec fn spec_body(&self) -> Option<JVal> {
        Some(
            JVal::Obj(
                seq![
                    ("user_key"@, JVal::Str(self.user_key@)),
                    ("identifier"@, jval_opt_str(self.identifier)),
                    ("auth_expire"@, jval_opt_i64(self.auth_expire)),
                    ("note"@, jval_opt_str(self.note)),
                    ("discord_id"@, jval_opt_str(self.discord_id)),
                ],
            ),
        )
    }

    open spec fn spec_ignore_errors(&self) -> bool {
        false
    }

    fn method(&self) -> (m: Method) {
        Method::Patch
    }

    fn path(&self) -> (p: String) {
        let mut p = String::from_str("/v3/projects/");
        p.append(self.project_id);
        p.append("/users");
        p
    }

    fn query_params(&self) -> (q: Vec<(String, String)>) {
        let q: Vec<(String, String)> = Vec::new();
        proof {
            assert(pairs_view(q@) =~= Seq::<(Seq<char>, Seq<char>)>::empty());
        }
        q
    }

    fn body(&self) -> (b: Option<Json>) {
        let mut fields: Vec<(String, Json)> = Vec::new();
        fields.push(("user_key".to_owned(), Json::Str(self.user_key.to_owned())));
        fields.push(("identifier".to_owned(), json_opt_str(self.identifier)));
        fields.push(("auth_expire".to_owned(), json_opt_i64(self.auth_expire)));
        fields.push(("note".to_owned(), json_opt_str(self.note)));
        fields.push(("discord_id".to_owned(), json_opt_str(self.discord_id)));
        proof {
            lemma_jfields(fields@);
            assert(Json::jfields(fields@) =~= self.spec_body()->Some_0->Obj_0);
        }
        Some(Json::Obj(fields))
    }

    fn ignore_errors(&self) -> (b: bool) {
        false
    }
}

/// The key-deletion request.
///
/// Deleting a key is irreversible: the user bound to it loses access.
#[derive(Clone, Copy, Debug, PartialEq, Eq)]
pub struct DeleteUser<'a> {
    pub project_id: &'a str,
    /// The key to delete.
    pub user_key: &'a str,
}

impl<'a> DeleteUser<'a> {
    /// Describes the deletion of `user_key` from `project_id`.
    pub fn new(project_id: &'a str, user_key: &'a str) -> (r: Self)
        ensures
            r.project_id == project_id,
            r.user_key == user_key,
    {
        DeleteUser { project_id, user_key }
    }
}

impl<'a> Endpoint for DeleteUser<'a> {
    open spec fn spec_method(&self) -> Method {
        Method::Delete
    }

    open spec fn spec_path(&self) -> Seq<char> {
        "/v3/projects/"@ + self.project_id@ + "/users?user_key="@ + self.user_key@
    }

    open spec fn spec_query(&self) -> Seq<(Seq<char>, Seq<char>)> {
        Seq::empty()
    }

    open spec fn spec_body(&self) -> Option<JVal> {
        None
    }

    open spec fn spec_ignore_errors(&self) -> bool {
        false
    }

    fn method(&self) -> (m: Method) {
        Method::Delete
    }

    fn path(&self) -> (p: String) {
        let mut p = String::from_str("/v3/projects/");
        p.append(self.project_id);
        p.append("/users?user_key=");
        p.append(self.user_key);
        p
    }

    fn query_params(&self) -> (q: Vec<(String, String)>) {
        let q: Vec<(String, String)> = Vec::new();
        proof {
            assert(pairs_view(q@) =~= Seq::<(Seq<char>, Seq<char>)>::empty());
        }
        q
    }

    fn body(&self) -> (b: Option<Json>) {
        None
    }

    fn ignore_errors(&self) -> (b: bool) {
        false
    }
}

/// The HWID-reset request: unbinds the hardware id of one key.
#[derive(Clone, Copy, Debug, PartialEq, Eq)]
pub struct ResetHwid<'a> {
    pub project_id: &'a str,
    /// The key whose hardware id is reset.
    pub user_key: &'a str,
    /// Ignores the reset cooldown when set.
    pub force: Option<bool>,
}

impl<'a> ResetHwid<'a> {
    /// Describes a reset of `user_key` that honours the cooldown.
    pub fn new(project_id: &'a str, user_key: &'a str) -> (r: Self)
        ensures
            r.project_id == project_id,
            r.user_key == user_key,
            r.force is None,
    {
        ResetHwid { project_id, user_key, force: None }
    }
}

impl<'a> Endpoint for ResetHwid<'a> {
    open spec fn spec_method(&self) -> Method {
        Method::Post
    }

    open spec fn spec_path(&self) -> Seq<char> {
        "/v3/projects/"@ + self.project_id@ + "/users/resethwid"@
    }

    open spec fn spec_query(&self) -> Seq<(Seq<char>, Seq<char>)> {
        Seq::empty()
    }

    open spec fn spec_body(&self) -> Option<JVal> {
        Some(
            JVal::Obj(
                seq![
                    ("user_key"@, JVal::Str(self.user_key@)),
                    ("force"@, jval_opt_bool(self.force)),
                ],
            ),
        )
    }

    open spec fn spec_ignore_errors(&self) -> bool {
        false
    }

    fn method(&self) -> (m: Method) {
        Method::Post
    }

    fn path(&self) -> (p: String) {
        let mut p = String::from_str("/v3/projects/");
        p.append(self.project_id);
        p.append("/users/resethwid");
        p
    }

    fn query_params(&self) -> (q: Vec<(String, String)>) {
        let q: Vec<(String, String)> = Vec::new();
        proof {
            assert(pairs_view(q@) =~= Seq::<(Seq<char>, Seq<char>)>::empty());
        }
        q
    }

    fn body(&self) -> (b: Option<Json>) {
        let mut fields: Vec<(String, Json)> = Vec::new();
        fields.push(("user_key".to_owned(), Json::Str(self.user_key.to_owned())));
        fields.push(("force".to_owned(), json_opt_bool(self.force)));
        proof {
            lemma_jfields(fields@);
            assert(Json::jfields(fields@) =~= self.spec_body()->Some_0->Obj_0);
        }
        Some(Json::Obj(fields))
    }

    fn ignore_errors(&self) -> (b: bool) {
        false
    }
}

/// The Discord-linking request: associates a Discord ID with one key.
#[derive(Clone, Copy, Debug, PartialEq, Eq)]
pub struct LinkDiscordId<'a> {
    pub project_id: &'a str,
    /// The key to link to.
    pub user_key: &'a str,
    /// The Discord ID to associate with the key.
    pub discord_id: Option<&'a str>,
    /// Overwrites a Discord ID that is already linked when set.
    pub force: Option<bool>,
}

impl<'a> LinkDiscordId<'a> {
    /// Describes a link of `discord_id` to `user_key` that fails rather
    /// than overwrite an existing link.
    pub fn new(project_id: &'a str, user_key: &'a str, discord_id: &'a str) -> (r: Self)
        ensures
            r.project_id == project_id,
            r.user_key == user_key,
            r.discord_id == Some(discord_id),
            r.force is None,
    {
        LinkDiscordId { project_id, user_key, discord_id: Some(discord_id), force: None }
    }
}

impl<'a> Endpoint for LinkDiscordId<'a> {
    open spec fn spec_method(&self) -> Method {
        Method::Post
    }

    open spec fn spec_path(&self) -> Seq<char> {
        "/v3/projects/"@ + self.project_id@ + "/users/linkdiscord"@
    }

    open spec fn spec_query(&self) -> Seq<(Seq<char>, Seq<char>)> {
        Seq::empty()
    }

    open spec fn spec_body(&self) -> Option<JVal> {
        Some(
            JVal::Obj(
                seq![
                    ("user_key"@, JVal::Str(self.user_key@)),
                    ("discord_id"@, jval_opt_str(self.discord_id)),
                    ("force"@, jval_opt_bool(self.force)),
                ],
            ),
        )
    }

    open spec fn spec_ignore_errors(&self) -> bool {
        false
    }

    fn method(&self) -> (m: Method) {
        Method::Post
    }

    fn path(&self) -> (p: String) {
        let mut p = String::from_str("/v3/projects/");
        p.append(self.project_id);
        p.append("/users/linkdiscord");
        p
    }

    fn query_params(&self) -> (q: Vec<(String, String)>) {
        let q: Vec<(String, String)> = Vec::new();
        proof {
            assert(pairs_view(q@) =~= Seq::<(Seq<char>, Seq<char>)>::empty());
        }
        q
    }

    fn body(&self) -> (b: Option<Json>) {
        let mut fields: Vec<(String, Json)> = Vec::new();
        fields.push(("user_key".to_owned(), Json::Str(self.user_key.to_owned())));
        fields.push(("discord_id".to_owned(), json_opt_str(self.discord_id)));
        fields.push(("force".to_owned(), json_opt_bool(self.force)));
        proof {
            lemma_jfields(fields@);
            assert(Json::jfields(fields@) =~= self.spec_body()->Some_0->Obj_0);
        }
        Some(Json::Obj(fields))
    }

    fn ignore_errors(&self) -> (b: bool) {
        false
    }
}

/// The blacklist request: bans one key, and with it any hardware id linked
/// to it.
#[derive(Clone, Copy, Debug, PartialEq, Eq)]
pub struct BlacklistUser<'a> {
    pub project_id: &'a str,
    /// The key to blacklist.
    pub user_key: &'a str,
    /// The reason shown to the user when they try to execute.
    pub ban_reason: Option<&'a str>,
    /// Unix timestamp of the ban's expiry; any negative value bans forever.
    pub ban_expire: Option<i32>,
}

impl<'a> BlacklistUser<'a> {
    /// Describes a permanent, reasonless blacklist of `user_key`.
    pub fn new(project_id: &'a str, user_key: &'a str) -> (r: Self)
        ensures
            r.project_id == project_id,
            r.user_key == user_key,
            r.ban_reason is None,
            r.ban_expire is None,
    {
        BlacklistUser { project_id, user_key, ban_reason: None, ban_expire: None }
    }
}

impl<'a> Endpoint for BlacklistUser<'a> {
    open spec fn spec_method(&self) -> Method {
        Method::Post
    }

    open spec fn spec_path(&self) -> Seq<char> {
        "/v3/projects/"@ + self.project_id@ + "/users/blacklist"@
    }

    open spec fn spec_query(&self) -> Seq<(Seq<char>, Seq<char>)> {
        Seq::empty()
    }

    open spec fn spec_body(&self) -> Option<JVal> {
        Some(
            JVal::Obj(
                seq![
                    ("user_key"@, JVal::Str(self.user_key@)),
                    ("ban_reason"@, jval_opt_str(self.ban_reason)),
                    ("ban_expire"@, jval_opt_i32(self.ban_expire)),
                ],
            ),
        )
    }

    open spec fn spec_ignore_errors(&self) -> bool {
        false
    }

    fn method(&self) -> (m: Method) {
        Method::Post
    }

    fn path(&self) -> (p: String) {
        let mut p = String::from_str("/v3/projects/");
        p.append(self.project_id);
        p.append("/users/blacklist");
        p
    }

    fn query_params(&self) -> (q: Vec<(String, String)>) {
        let q: Vec<(String, String)> = Vec::new();
        proof {
            assert(pairs_view(q@) =~= Seq::<(Seq<char>, Seq<char>)>::empty());
        }
        q
    }

    fn body(&self) -> (b: Option<Json>) {
        let mut fields: Vec<(String, Json)> = Vec::new();
        fields.push(("user_key".to_owned(), Json::Str(self.user_key.to_owned())));
        fields.push(("ban_reason".to_owned(), json_opt_str(self.ban_reason)));
        fields.push(("ban_expire".to_owned(), json_opt_i32(self.ban_expire)));
        proof {
            lemma_jfields(fields@);
            assert(Json::jfields(fields@) =~= self.spec_body()->Some_0->Obj_0);
        }
        Some(Json::Obj(fields))
    }

    fn ignore_errors(&self) -> (b: bool) {
        false
    }
}

/// The unblacklist request.
///
/// The unban token names the blacklisted key: a fresh random string
/// generated at each blacklisting, found on the user record.
#[derive(Clone, Copy, Debug, PartialEq, Eq)]
pub struct UnblacklistUser<'a> {
    pub project_id: &'a str,
    /// The unban token of the blacklisted key.
    pub unban_token: &'a str,
}

impl<'a> UnblacklistUser<'a> {
    /// Describes the unblacklisting that `unban_token` authorises.
    pub fn new(project_id: &'a str, unban_token: &'a str) -> (r: Self)
        ensures
            r.project_id == project_id,
            r.unban_token == unban_token,
    {
        UnblacklistUser { project_id, unban_token }
    }
}

impl<'a> Endpoint for UnblacklistUser<'a> {
    open spec fn spec_method(&self) -> Method {
        Method::Get
    }

    open spec fn spec_path(&self) -> Seq<char> {
        "/v3/projects/"@ + self.project_id@ + "/users/unban?unban_token="@ + self.unban_token@
    }

    open spec fn spec_query(&self) -> Seq<(Seq<char>, Seq<char>)> {
        Seq::empty()
    }

    open spec fn spec_body(&self) -> Option<JVal> {
        None
    }

    open spec fn spec_ignore_errors(&self) -> bool {
        false
    }

    fn method(&self) -> (m: Method) {
        Method::Get
    }

    fn path(&self) -> (p: String) {
        let mut p = String::from_str("/v3/projects/");
        p.append(self.project_id);
        p.append("/users/unban?unban_token=");
        p.append(self.unban_token);
        p
    }

    fn query_params(&self) -> (q: Vec<(String, String)>) {
        let q: Vec<(String, String)> = Vec::new();
        proof {
            assert(pairs_view(q@) =~= Seq::<(Seq<char>, Seq<char>)>::empty());
        }
        q
    }

    fn body(&self) -> (b: Option<Json>) {
        None
    }

    fn ignore_errors(&self) -> (b: bool) {
        false
    }
}

} // verus!
