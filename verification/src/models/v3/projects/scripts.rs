//! Script maintenance: uploading a new version of a script and switching
//! its modes.
//!
//! `PUT /v3/projects/{project_id}/scripts/{script_id}`, authenticated with
//! the API key. Success carries no payload.

use vstd::prelude::*;
use vstd::string::StringExecFns;
use crate::endpoint::{Endpoint, Method, pairs_view};
use crate::json::{Json, JVal, lemma_jfields};
use crate::models::v3::{jval_opt_bool, json_opt_bool};

verus! {

/// The update request for one script.
///
/// Updating replaces the script's source on the remote service; the change
/// is visible to every user at their next execution.
#[derive(Clone, Copy, Debug, PartialEq, Eq)]
pub struct UpdateScript<'a> {
    pub project_id: &'a str,
    pub script_id: &'a str,
    /// The raw Lua source to upload.
    pub script: &'a str,
    /// Disables the service's console outputs.
    pub silent: Option<bool>,
    /// Free-for-all: lets anyone execute the script, without a key.
    pub ffa: Option<bool>,
    /// Keeps clients connected through a heartbeat.
    pub heartbeat: Option<bool>,
    /// Drops some inline checks to run faster, at a small cost in security.
    pub lightning: Option<bool>,
}

impl<'a> UpdateScript<'a> {
    /// Describes an update of `script_id` in `project_id` to the given
    /// source, with every mode left as the server has it.
    pub fn new(project_id: &'a str, script_id: &'a str, script: &'a str) -> (r: Self)
        ensures
            r.project_id == project_id,
            r.script_id == script_id,
            r.script == script,
            r.silent is None,
            r.ffa is None,
            r.heartbeat == Some(true),
            r.lightning is None,
    {
        UpdateScript {
            project_id,
            script_id,
            script,
            silent: None,
            ffa: None,
            heartbeat: Some(true),
            lightning: None,
        }
    }
}

impl<'a> Endpoint for UpdateScript<'a> {
    open spec fn spec_method(&self) -> Method {
        Method::Put
    }

    open spec fn spec_path(&self) -> Seq<char> {
        "/v3/projects/"@ + self.project_id@ + "/scripts/"@ + self.script_id@
    }

    open spec fn spec_query(&self) -> Seq<(Seq<char>, Seq<char>)> {
        Seq::empty()
    }

    open spec fn spec_body(&self) -> Option<JVal> {
        Some(
            JVal::Obj(
                seq![
                    ("project_id"@, JVal::Str(self.project_id@)),
                    ("script_id"@, JVal::Str(self.script_id@)),
                    ("script"@, JVal::Str(self.script@)),
                    ("silent"@, jval_opt_bool(self.silent)),
                    ("ffa"@, jval_opt_bool(self.ffa)),
                    ("heartbeat"@, jval_opt_bool(self.heartbeat)),
                    ("lightning"@, jval_opt_bool(self.lightning)),
                ],
            ),
        )
    }

    open spec fn spec_ignore_errors(&self) -> bool {
        false
    }

    fn method(&self) -> (m: Method) {
        Method::Put
    }

    fn path(&self) -> (p: String) {
        let mut p = String::from_str("/v3/projects/");
        p.append(self.project_id);
        p.append("/scripts/");
        p.append(self.script_id);
        p
    }

    fn query_params(&self) -> (q: Vec<(String, String)>) {
        let q: Vec<(String, String)> = Vec::new();
        proof {
            assert(pairs_view(q@) =~= Seq::<(Seq<char>, Seq<char>)>::empty());
        }
        q
    }

    fn body(&self) -> (b: Option<Json>) {
        let mut fields: Vec<(String, Json)> = Vec::new();
        fields.push(("project_id".to_owned(), Json::Str(self.project_id.to_owned())));
        fields.push(("script_id".to_owned(), Json::Str(self.script_id.to_owned())));
        fields.push(("script".to_owned(), Json::Str(self.script.to_owned())));
        fields.push(("silent".to_owned(), json_opt_bool(self.silent)));
        fields.push(("ffa".to_owned(), json_opt_bool(self.ffa)));
        fields.push(("heartbeat".to_owned(), json_opt_bool(self.heartbeat)));
        fields.push(("lightning".to_owned(), json_opt_bool(self.lightning)));
        proof {
            lemma_jfields(fields@);
            assert(Json::jfields(fields@) =~= self.spec_body()->Some_0->Obj_0);
        }
        Some(Json::Obj(fields))
    }

    fn ignore_errors(&self) -> (b: bool) {
        false
    }
}

} // verus!
