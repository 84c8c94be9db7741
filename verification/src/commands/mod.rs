//! The commands of the tools, each written as a step function: given the
//! command's arguments and the answers received so far, it says what to print
//! and whether to send the next request, finish, or fail. The caller performs
//! the requests and hands their parsed answers back.

use vstd::prelude::*;
use crate::client::{
    client_for, lemma_built_requests_sent_by, sent_by, ApiRequest, ClientView, RequestView,
    YouTrackClient,
};
use crate::error::{ErrorView, YouTrackError};
use crate::models::{BundleElement, CustomField, Project, ProjectCustomField};
use crate::table::lines_view;

pub mod customfields;
pub mod projects;
pub mod version;

verus! {

/// A parsed answer of the API, of the kind that the request asked for.
#[derive(Debug)]
pub enum Response {
    Projects(Vec<Project>),
    CustomFields(Vec<CustomField>),
    ProjectCustomFields(Vec<ProjectCustomField>),
    CustomField(CustomField),
    ProjectCustomField(ProjectCustomField),
    BundleElement(BundleElement),
}

/// The kind of answer that a request expects, which tells the caller into
/// what to parse the body.
#[derive(Debug, Clone, Copy, PartialEq, Eq, Structural)]
pub enum Expect {
    Projects,
    CustomFields,
    ProjectCustomFields,
    CustomField,
    ProjectCustomField,
    BundleElement,
}

/// What a command does after printing: send a request, finish, or fail.
#[derive(Debug)]
pub enum Next {
    Fetch(ApiRequest, Expect),
    Finish,
    Fail(YouTrackError),
}

/// One step of a command: the lines to print now, then what comes next.
#[derive(Debug)]
pub struct Action {
    pub print: Vec<String>,
    pub next: Next,
}

/// The value of what comes next.
pub enum NextView {
    Fetch(RequestView, Expect),
    Finish,
    Fail(ErrorView),
}

/// The value of a step.
pub struct ActionView {
    pub print: Seq<Seq<char>>,
    pub next: NextView,
}

impl View for Action {
    type V = ActionView;

    open spec fn view(&self) -> ActionView {
        ActionView {
            print: lines_view(self.print@),
            next: match self.next {
                Next::Fetch(r, e) => NextView::Fetch(r@, e),
                Next::Finish => NextView::Finish,
                Next::Fail(e) => NextView::Fail(e@),
            },
        }
    }
}

/// Print `print`, then send `req` and expect an answer of kind `e`.
pub open spec fn fetch_after(print: Seq<Seq<char>>, req: RequestView, e: Expect) -> ActionView {
    ActionView { print, next: NextView::Fetch(req, e) }
}

/// Send `req` and expect an answer of kind `e`.
pub open spec fn fetch(req: RequestView, e: Expect) -> ActionView {
    fetch_after(Seq::empty(), req, e)
}

/// Print `lines` and finish.
pub open spec fn finish(lines: Seq<Seq<char>>) -> ActionView {
    ActionView { print: lines, next: NextView::Finish }
}

/// Print `print`, then fail with `e`.
pub open spec fn fail_after(print: Seq<Seq<char>>, e: ErrorView) -> ActionView {
    ActionView { print, next: NextView::Fail(e) }
}

/// Fail with `e`.
pub open spec fn fail(e: ErrorView) -> ActionView {
    fail_after(Seq::empty(), e)
}

impl Action {
    /// Send `req` and expect an answer of kind `e`, printing `print` first.
    pub fn fetch_after(print: Vec<String>, req: ApiRequest, e: Expect) -> (a: Action)
        ensures
            a@ == fetch_after(lines_view(print@), req@, e),
    {
        Action { print, next: Next::Fetch(req, e) }
    }

    /// Send `req` and expect an answer of kind `e`.
    pub fn fetch(req: ApiRequest, e: Expect) -> (a: Action)
        ensures
            a@ == fetch(req@, e),
    {
        let a = Action { print: Vec::new(), next: Next::Fetch(req, e) };
        assert(lines_view(a.print@) =~= Seq::<Seq<char>>::empty());
        a
    }

    /// Print `lines` and finish.
    pub fn finish(lines: Vec<String>) -> (a: Action)
        ensures
            a@ == finish(lines_view(lines@)),
    {
        Action { print: lines, next: Next::Finish }
    }

    /// Print `print`, then fail with `e`.
    pub fn fail_after(print: Vec<String>, e: YouTrackError) -> (a: Action)
        ensures
            a@ == fail_after(lines_view(print@), e@),
    {
        Action { print, next: Next::Fail(e) }
    }

    /// Fail with `e`.
    pub fn fail(e: YouTrackError) -> (a: Action)
        ensures
            a@ == fail(e@),
    {
        let a = Action { print: Vec::new(), next: Next::Fail(e) };
        assert(lines_view(a.print@) =~= Seq::<Seq<char>>::empty());
        a
    }
}

/// The client that the command-line arguments give: the API key must be
/// present, then the base URL, then the key must fit in a header.
pub open spec fn client_from_args(base_url: Option<Seq<char>>, api_key: Option<Seq<char>>) -> Result<
    ClientView,
    ErrorView,
> {
    match api_key {
        None => Err(ErrorView::MissingApiKey),
        Some(k) => match base_url {
            None => Err(ErrorView::MissingBaseUrl),
            Some(b) => client_for(b, k),
        },
    }
}

/// Builds the client from the base URL argument and the API key taken from
/// the environment.
pub fn build_client(base_url: Option<&str>, api_key: Option<&str>) -> (r: Result<YouTrackClient, YouTrackError>)
    ensures
        crate::client::result_view(r) == client_from_args(base_url.deep_view(), api_key.deep_view()),
{
    let key = match api_key {
        Some(k) => k,
        None => return Err(YouTrackError::MissingApiKey),
    };
    let url = match base_url {
        Some(u) => u,
        None => return Err(YouTrackError::MissingBaseUrl),
    };
    YouTrackClient::new(url, key)
}

/// Every command comes to an end: a step never asks for another request once
/// the command has received as many answers as its longest path needs (two
/// for listing or describing custom fields, three for creating a field or a
/// value, one for the project commands).
pub proof fn lemma_commands_end(
    base_url: Option<Seq<char>>,
    api_key: Option<Seq<char>>,
    project: Option<Seq<char>>,
    name: Seq<char>,
    other: Seq<char>,
    auto_attach: Option<bool>,
    skip: Option<u32>,
    top: Option<u32>,
    rs: Seq<Response>,
)
    ensures
        rs.len() >= 2 ==> !(customfields::list_command(base_url, api_key, project, skip, top, rs).next is Fetch),
        rs.len() >= 2 ==> !(customfields::describe_command(base_url, api_key, project, name, rs).next is Fetch),
        rs.len() >= 3 ==> !(customfields::create_command(base_url, api_key, project, name, other, auto_attach, rs).next is Fetch),
        rs.len() >= 3 ==> !(customfields::create_value_command(base_url, api_key, project, name, other, rs).next is Fetch),
        rs.len() >= 1 ==> !(projects::list_command(base_url, api_key, skip, top, rs).next is Fetch),
        rs.len() >= 1 ==> !(projects::describe_command(base_url, api_key, name, rs).next is Fetch),
{
}

/// Every request that a command asks for is one that its client sends: it
/// carries the client's credentials and `Accept: application/json`, and goes
/// below `/admin/` of the API root given on the command line.
pub proof fn lemma_commands_send_client_requests(
    base_url: Option<Seq<char>>,
    api_key: Option<Seq<char>>,
    project: Option<Seq<char>>,
    name: Seq<char>,
    other: Seq<char>,
    auto_attach: Option<bool>,
    skip: Option<u32>,
    top: Option<u32>,
    rs: Seq<Response>,
)
    ensures
        client_from_args(base_url, api_key) matches Ok(c) ==> {
            &&& customfields::list_command(base_url, api_key, project, skip, top, rs).next matches NextView::Fetch(r, _)
                ==> sent_by(c, r)
            &&& customfields::describe_command(base_url, api_key, project, name, rs).next matches NextView::Fetch(r, _)
                ==> sent_by(c, r)
            &&& customfields::create_command(base_url, api_key, project, name, other, auto_attach, rs).next matches NextView::Fetch(r, _)
                ==> sent_by(c, r)
            &&& customfields::create_value_command(base_url, api_key, project, name, other, rs).next matches NextView::Fetch(r, _)
                ==> sent_by(c, r)
            &&& projects::list_command(base_url, api_key, skip, top, rs).next matches NextView::Fetch(r, _)
                ==> sent_by(c, r)
            &&& projects::describe_command(base_url, api_key, name, rs).next matches NextView::Fetch(r, _)
                ==> sent_by(c, r)
        },
{
    if let Ok(c) = client_from_args(base_url, api_key) {
        lemma_built_requests_sent_by(c);
    }
}

} // verus!
