//! The payload codec: the typed records of the API and their conversion to
//! and from the wire format.
//!
//! Each record has a mathematical view, and a spec function says exactly
//! which JSON documents decode to which views. The executable decoders and
//! the encoder are verified against those spec functions.

use vstd::prelude::*;
use vstd::string::StrSliceExecFns;

use crate::error::Error;
use crate::json::flat_string_object;
use crate::json::json_get;
use crate::json::json_object;
use crate::json::json_of_text;
use crate::json::json_parse;
use crate::json::json_rep;
use crate::json::json_string;
use crate::json::json_to_text;
use crate::json::jmap_insert;
use crate::json::jmap_new;
use crate::json::Json;

verus! {

/// One CI-tracked repository, as the projects endpoint describes it.
#[derive(Debug, PartialEq)]
pub struct Project {
    pub project_id: usize,
    pub account_id: usize,
    pub slug: String,
    pub account_name: String,
}

/// The abstract value of a [`Project`].
pub struct ProjectView {
    pub project_id: u64,
    pub account_id: u64,
    pub slug: Seq<char>,
    pub account_name: Seq<char>,
}

impl View for Project {
    type V = ProjectView;

    open spec fn view(&self) -> ProjectView {
        ProjectView {
            project_id: self.project_id as u64,
            account_id: self.account_id as u64,
            slug: self.slug@,
            account_name: self.account_name@,
        }
    }
}

/// The input to project creation: the repository provider tag and the
/// repository name in `owner/repo` form.
#[derive(Debug, PartialEq)]
pub struct AddProject {
    pub repository_provider: String,
    pub repository_name: String,
}

/// The abstract value of an [`AddProject`].
pub struct AddProjectView {
    pub repository_provider: Seq<char>,
    pub repository_name: Seq<char>,
}

impl View for AddProject {
    type V = AddProjectView;

    open spec fn view(&self) -> AddProjectView {
        AddProjectView {
            repository_provider: self.repository_provider@,
            repository_name: self.repository_name@,
        }
    }
}

/// The error payload the remote may answer failures with. It is part of the
/// data model for forward compatibility; no failure path of the client
/// promises to surface it.
#[derive(Debug, PartialEq)]
pub struct ErrorResponse {
    pub message: String,
}

/// The abstract value of an [`ErrorResponse`].
pub struct ErrorResponseView {
    pub message: Seq<char>,
}

impl View for ErrorResponse {
    type V = ErrorResponseView;

    open spec fn view(&self) -> ErrorResponseView {
        ErrorResponseView { message: self.message@ }
    }
}

/// The number under a key of an object, where the key is present and holds
/// a number representable as `u64`.
pub open spec fn obj_u64(m: Map<Seq<char>, Json>, k: Seq<char>) -> Option<u64> {
    if m.contains_key(k) {
        match m[k] {
            Json::UInt(n) => Some(n),
            _ => None,
        }
    } else {
        None
    }
}

/// The characters under a key of an object, where the key is present and
/// holds a string.
pub open spec fn obj_str(m: Map<Seq<char>, Json>, k: Seq<char>) -> Option<Seq<char>> {
    if m.contains_key(k) {
        match m[k] {
            Json::Str(s) => Some(s),
            _ => None,
        }
    } else {
        None
    }
}

/// The project a JSON document describes: an object with the four wire
/// fields, the identifiers within range of the in-memory type, and a
/// non-empty slug. A missing or mistyped field decodes to nothing — the
/// client never fabricates default values.
pub open spec fn project_of_json(j: Json) -> Option<ProjectView> {
    match j {
        Json::Obj(m) => match (
            obj_u64(m, "projectId"@),
            obj_u64(m, "accountId"@),
            obj_str(m, "slug"@),
            obj_str(m, "accountName"@),
        ) {
            (Some(pid), Some(aid), Some(slug), Some(account_name)) => {
                if pid <= usize::MAX && aid <= usize::MAX && slug.len() > 0 {
                    Some(
                        ProjectView {
                            project_id: pid,
                            account_id: aid,
                            slug: slug,
                            account_name: account_name,
                        },
                    )
                } else {
                    None
                }
            },
            _ => None,
        },
        _ => None,
    }
}

/// The project sequence a JSON document describes: an array each of whose
/// elements describes a project, in the order of the array.
pub open spec fn projects_of_json(j: Json) -> Option<Seq<ProjectView>> {
    match j {
        Json::Arr(elts) => {
            if forall|i: int| 0 <= i < elts.len() ==> (#[trigger] project_of_json(elts[i])) is Some {
                Some(Seq::new(elts.len(), |i: int| project_of_json(elts[i]).unwrap()))
            } else {
                None
            }
        },
        _ => None,
    }
}

/// The project sequence a response body describes, through the parser.
pub open spec fn projects_of_text(t: Seq<char>) -> Option<Seq<ProjectView>> {
    match json_of_text(t) {
        Some(j) => projects_of_json(j),
        None => None,
    }
}

/// The single project a response body describes, through the parser.
pub open spec fn project_of_text(t: Seq<char>) -> Option<ProjectView> {
    match json_of_text(t) {
        Some(j) => project_of_json(j),
        None => None,
    }
}

/// The document that encodes a creation request: one object with the two
/// wire fields, both strings.
pub open spec fn add_project_json(a: AddProjectView) -> Json {
    Json::Obj(
        Map::empty().insert("repositoryProvider"@, Json::Str(a.repository_provider)).insert(
            "repositoryName"@,
            Json::Str(a.repository_name),
        ),
    )
}

/// The creation request a JSON document describes.
pub open spec fn add_project_of_json(j: Json) -> Option<AddProjectView> {
    match j {
        Json::Obj(m) => match (obj_str(m, "repositoryProvider"@), obj_str(m, "repositoryName"@)) {
            (Some(provider), Some(name)) => Some(
                AddProjectView { repository_provider: provider, repository_name: name },
            ),
            _ => None,
        },
        _ => None,
    }
}

/// The creation request a body describes, through the parser.
pub open spec fn add_project_of_text(t: Seq<char>) -> Option<AddProjectView> {
    match json_of_text(t) {
        Some(j) => add_project_of_json(j),
        None => None,
    }
}

/// The error payload a JSON document describes: an object with a string
/// `message` field.
pub open spec fn error_response_of_json(j: Json) -> Option<ErrorResponseView> {
    match j {
        Json::Obj(m) => match obj_str(m, "message"@) {
            Some(message) => Some(ErrorResponseView { message: message }),
            None => None,
        },
        _ => None,
    }
}

/// The error payload a body describes, through the parser.
pub open spec fn error_response_of_text(t: Seq<char>) -> Option<ErrorResponseView> {
    match json_of_text(t) {
        Some(j) => error_response_of_json(j),
        None => None,
    }
}

/// Decodes one parsed JSON value into a project record.
fn project_of_value(v: &serde_json::Value) -> (r: Result<Project, Error>)
    ensures
        match r {
            Ok(p) => project_of_json(json_rep(*v)) == Some(p@),
            Err(e) => project_of_json(json_rep(*v)) is None && e is DecodeFailure,
        },
{
    let fields = (
        json_get(v, "projectId"),
        json_get(v, "accountId"),
        json_get(v, "slug"),
        json_get(v, "accountName"),
    );
    if let (Some(pid_v), Some(aid_v), Some(slug_v), Some(an_v)) = fields {
        if let (Some(pid), Some(aid), Some(slug), Some(account_name)) = (
            pid_v.as_u64(),
            aid_v.as_u64(),
            slug_v.as_str(),
            an_v.as_str(),
        ) {
            if pid <= usize::MAX as u64 && aid <= usize::MAX as u64 && slug.unicode_len() > 0 {
                return Ok(
                    Project {
                        project_id: pid as usize,
                        account_id: aid as usize,
                        slug: slug.to_owned(),
                        account_name: account_name.to_owned(),
                    },
                );
            }
        }
    }
    Err(Error::DecodeFailure(String::from_str("missing or mistyped field in a project record")))
}

/// Decodes a response body into the ordered sequence of projects it lists.
pub fn decode_projects(body: &str) -> (r: Result<Vec<Project>, Error>)
    ensures
        match r {
            Ok(v) => projects_of_text(body@) == Some(v@.map_values(|p: Project| p@)),
            Err(e) => projects_of_text(body@) is None && e is DecodeFailure,
        },
{
    let parsed = match json_parse(body) {
        Ok(v) => v,
        Err(d) => { return Err(Error::DecodeFailure(d)) },
    };
    let arr = match parsed.as_array() {
        Some(a) => a,
        None => {
            return Err(
                Error::DecodeFailure(String::from_str("expected a JSON array of project records")),
            );
        },
    };
    let ghost elts = arr@.map_values(|e| json_rep(e));
    let mut out: Vec<Project> = Vec::new();
    let mut i: usize = 0;
    while i < arr.len()
        invariant
            i <= arr.len(),
            json_rep(parsed) == Json::Arr(elts),
            elts == arr@.map_values(|e| json_rep(e)),
            json_of_text(body@) == Some(json_rep(parsed)),
            out@.len() == i,
            forall|j: int| 0 <= j < i ==> (#[trigger] project_of_json(elts[j])) == Some(out@[j]@),
        decreases arr.len() - i,
    {
        let p = match project_of_value(&arr[i]) {
            Ok(p) => p,
            Err(e) => {
                assert(project_of_json(elts[i as int]) is None);
                return Err(e);
            },
        };
        out.push(p);
        i += 1;
    }
    proof {
        let s = projects_of_json(Json::Arr(elts));
        assert(s matches Some(ps) && ps =~= out@.map_values(|p: Project| p@));
    }
    Ok(out)
}

/// Decodes a response body into the single project it describes.
pub fn decode_project(body: &str) -> (r: Result<Project, Error>)
    ensures
        match r {
            Ok(p) => project_of_text(body@) == Some(p@),
            Err(e) => project_of_text(body@) is None && e is DecodeFailure,
        },
{
    let parsed = match json_parse(body) {
        Ok(v) => v,
        Err(d) => { return Err(Error::DecodeFailure(d)) },
    };
    project_of_value(&parsed)
}

/// Encodes a creation request to the wire format. Encoding a request never
/// fails, and the produced text parses back to exactly the document that
/// encodes the request.
pub fn encode_add_project(p: &AddProject) -> (r: Result<String, Error>)
    ensures
        r is Ok,
        r matches Ok(t) ==> json_of_text(t@) == Some(add_project_json(p@)),
{
    let mut m = jmap_new();
    jmap_insert(&mut m, "repositoryProvider", json_string(p.repository_provider.as_str()));
    jmap_insert(&mut m, "repositoryName", json_string(p.repository_name.as_str()));
    let v = json_object(m);
    assert(flat_string_object(json_rep(v)));
    match json_to_text(&v) {
        Ok(t) => Ok(t),
        Err(d) => Err(Error::DecodeFailure(d)),
    }
}

/// Decodes the wire format of a creation request back into the record.
pub fn decode_add_project(body: &str) -> (r: Result<AddProject, Error>)
    ensures
        match r {
            Ok(a) => add_project_of_text(body@) == Some(a@),
            Err(e) => add_project_of_text(body@) is None && e is DecodeFailure,
        },
{
    let parsed = match json_parse(body) {
        Ok(v) => v,
        Err(d) => { return Err(Error::DecodeFailure(d)) },
    };
    let fields = (json_get(&parsed, "repositoryProvider"), json_get(&parsed, "repositoryName"));
    if let (Some(provider_v), Some(name_v)) = fields {
        if let (Some(provider), Some(name)) = (provider_v.as_str(), name_v.as_str()) {
            return Ok(
                AddProject {
                    repository_provider: provider.to_owned(),
                    repository_name: name.to_owned(),
                },
            );
        }
    }
    Err(Error::DecodeFailure(String::from_str("missing or mistyped field in a creation request")))
}

/// Decodes a failure body into the error payload it describes.
pub fn decode_error_response(body: &str) -> (r: Result<ErrorResponse, Error>)
    ensures
        match r {
            Ok(e) => error_response_of_text(body@) == Some(e@),
            Err(e) => error_response_of_text(body@) is None && e is DecodeFailure,
        },
{
    let parsed = match json_parse(body) {
        Ok(v) => v,
        Err(d) => { return Err(Error::DecodeFailure(d)) },
    };
    if let Some(message_v) = json_get(&parsed, "message") {
        if let Some(message) = message_v.as_str() {
            return Ok(ErrorResponse { message: message.to_owned() });
        }
    }
    Err(Error::DecodeFailure(String::from_str("missing or mistyped message field")))
}

/// Encode/decode inverse law: any text that carries the encoding of a
/// creation request with non-empty provider and name decodes back to an
/// equal record.
pub proof fn lemma_add_project_round_trip(a: AddProjectView, t: Seq<char>)
    requires
        a.repository_provider.len() > 0,
        a.repository_name.len() > 0,
        json_of_text(t) == Some(add_project_json(a)),
    ensures
        add_project_of_text(t) == Some(a),
{
    reveal_strlit("repositoryProvider");
    reveal_strlit("repositoryName");
    assert("repositoryProvider"@.len() != "repositoryName"@.len());
}

/// Every project a body decodes to has a non-empty slug.
pub proof fn lemma_projects_nonempty_slug(t: Seq<char>, s: Seq<ProjectView>)
    requires
        projects_of_text(t) == Some(s),
    ensures
        forall|i: int| 0 <= i < s.len() ==> (#[trigger] s[i]).slug.len() > 0,
{
    let j = json_of_text(t).unwrap();
    let elts = j->Arr_0;
    assert forall|i: int| 0 <= i < s.len() implies (#[trigger] s[i]).slug.len() > 0 by {
        assert(project_of_json(elts[i]) is Some);
        assert(s[i] == project_of_json(elts[i]).unwrap());
    }
}

} // verus!
