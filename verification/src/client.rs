//! The client facade: a session holding the bearer token and the target
//! configuration, and the three operations, each one straight-line pipeline
//! of build, dispatch, classify and decode.

use vstd::prelude::*;
use vstd::string::StringExecFns;

use crate::classify::create_outcome;
use crate::classify::delete_outcome;
use crate::classify::list_outcome;
use crate::codec::encode_add_project;
use crate::codec::decode_projects;
use crate::codec::project_of_text;
use crate::codec::projects_of_text;
use crate::codec::AddProject;
use crate::codec::Project;
use crate::error::Error;
use crate::transport::http_delete;
use crate::transport::http_get;
use crate::transport::http_post_json;

verus! {

/// The base URL every session starts with.
pub open spec fn default_base_url() -> Seq<char> {
    "https://ci.appveyor.com/api/"@
}

/// A session against the AppVeyor API. It holds the bearer token, the base
/// URL of the service, the test-mode flag, and the payload that test mode
/// serves in place of a network exchange. No network or file handle is held
/// between calls: each operation opens its own exchange.
#[derive(Debug, PartialEq)]
pub struct AppVeyor {
    token: String,
    test_mode: bool,
    base_url: String,
    fixture: String,
}

/// The abstract state of a session.
pub struct AppVeyorView {
    pub token: Seq<char>,
    pub test_mode: bool,
    pub base_url: Seq<char>,
    pub fixture: Seq<char>,
}

impl View for AppVeyor {
    type V = AppVeyorView;

    closed spec fn view(&self) -> AppVeyorView {
        AppVeyorView {
            token: self.token@,
            test_mode: self.test_mode,
            base_url: self.base_url@,
            fixture: self.fixture@,
        }
    }
}

/// Builds the URL of the projects collection: the base URL followed by the
/// fixed collection path.
fn projects_url(base: &str) -> (r: String)
    ensures
        r@ == base@ + "projects"@,
{
    let mut url = base.to_owned();
    url.append("projects");
    url
}

/// Builds the URL of one project: the collection path followed by the
/// account name and the project slug.
fn project_url(base: &str, account_name: &str, project_slug: &str) -> (r: String)
    ensures
        r@ == base@ + "projects/"@ + account_name@ + "/"@ + project_slug@,
{
    let mut url = base.to_owned();
    url.append("projects/");
    url.append(account_name);
    url.append("/");
    url.append(project_slug);
    url
}

impl AppVeyor {
    /// Creates a new session using the API token provided, against the
    /// default base URL, with test mode off.
    pub fn new(token: &str) -> (r: AppVeyor)
        ensures
            r@.token == token@,
            r@.test_mode == false,
            r@.base_url == default_base_url(),
            r@.fixture.len() == 0,
    {
        AppVeyor {
            token: token.to_owned(),
            test_mode: false,
            base_url: String::from_str("https://ci.appveyor.com/api/"),
            fixture: String::new(),
        }
    }

    /// Turns test mode on: from then on, listing projects decodes the
    /// installed fixture payload instead of opening a network exchange.
    pub fn enable_test_mode(&mut self)
        ensures
            final(self)@ == (AppVeyorView { test_mode: true, ..old(self)@ }),
    {
        self.test_mode = true;
    }

    /// Installs the payload that test mode serves. Reading a fixture file is
    /// the external test collaborator's business; the session only holds the
    /// content it was given.
    pub fn set_fixture(&mut self, content: &str)
        ensures
            final(self)@ == (AppVeyorView { fixture: content@, ..old(self)@ }),
    {
        self.fixture = content.to_owned();
    }

    /// Points the session at another base URL, for a test or staging target.
    pub fn set_base_url(&mut self, base_url: &str)
        ensures
            final(self)@ == (AppVeyorView { base_url: base_url@, ..old(self)@ }),
    {
        self.base_url = base_url.to_owned();
    }

    /// Returns the list of projects, in the order the server (or, in test
    /// mode, the fixture payload) gives them.
    pub fn get_projects(&self) -> (r: Result<Vec<Project>, Error>)
        ensures
            self@.test_mode ==> match r {
                Ok(v) => projects_of_text(self@.fixture) == Some(
                    v@.map_values(|p: Project| p@),
                ),
                Err(e) => projects_of_text(self@.fixture) is None && e is DecodeFailure,
            },
            !self@.test_mode ==> (r matches Ok(v) ==> exists|b: Seq<char>|
                #[trigger] projects_of_text(b) == Some(v@.map_values(|p: Project| p@))),
    {
        if self.test_mode {
            decode_projects(self.fixture.as_str())
        } else {
            let url = projects_url(self.base_url.as_str());
            match http_get(url.as_str(), self.token.as_str()) {
                Ok((status, body)) => list_outcome(status, body.as_str()),
                Err(e) => Err(e),
            }
        }
    }

    /// Adds a project for the given repository provider and repository
    /// name. The request record is encoded to the wire format and posted to
    /// the projects endpoint; on the expected status the body decodes to
    /// the created project.
    pub fn add_project(&self, repository_provider: String, repository_name: String) -> (r: Result<
        Project,
        Error,
    >)
        ensures
            r matches Ok(p) ==> exists|b: Seq<char>| #[trigger] project_of_text(b) == Some(p@),
            r matches Ok(p) ==> p@.slug.len() > 0,
    {
        let request = AddProject { repository_provider, repository_name };
        let body = match encode_add_project(&request) {
            Ok(b) => b,
            Err(e) => { return Err(e) },
        };
        let url = projects_url(self.base_url.as_str());
        match http_post_json(url.as_str(), self.token.as_str(), body.as_str()) {
            Ok((status, response)) => create_outcome(status, response.as_str()),
            Err(e) => Err(e),
        }
    }

    /// Deletes the project of the given account name and project slug. Only
    /// the no-content status is success; there is no body to decode, so a
    /// failure is a bad status or a transport failure.
    pub fn delete_project(&self, account_name: String, project_slug: String) -> (r: Result<
        (),
        Error,
    >)
        ensures
            r matches Err(e) ==> (e is BadStatus || e is NetworkFailure),
    {
        let url = project_url(self.base_url.as_str(), account_name.as_str(), project_slug.as_str());
        match http_delete(url.as_str(), self.token.as_str()) {
            Ok(status) => delete_outcome(status),
            Err(e) => Err(e),
        }
    }
}

} // verus!
