//! The `projects` commands: list and describe.

use vstd::prelude::*;
use crate::client::{first_match, list_projects_req, project_short_names, ClientView, YouTrackClient};
use crate::commands::{build_client, client_from_args, fail, fetch, finish, Action, ActionView, Expect, Response};
use crate::error::{ErrorView, YouTrackError};
use crate::models::{
    bool_or_dash, bool_text_or_dash, leader_login_of, or_dash, project_description, text_or_dash,
    Project,
};
use crate::table::{cells_view, column_width, column_width_of, lines_view, one_line, push_cell};
use crate::text::{decimal, pad_right};
use crate::client::{Method, DEFAULT_PROJECT_FIELDS};
use crate::commands::NextView;

verus! {

/// The NAME cells of a table of projects.
pub open spec fn project_name_cells(ps: Seq<Project>) -> Seq<Seq<char>> {
    ps.map_values(|p: Project| or_dash(p.name.deep_view()))
}

/// The SHORT cells of a table of projects.
pub open spec fn project_short_cells(ps: Seq<Project>) -> Seq<Seq<char>> {
    ps.map_values(|p: Project| or_dash(p.short_name.deep_view()))
}

/// The LEADER cells of a table of projects.
pub open spec fn project_leader_cells(ps: Seq<Project>) -> Seq<Seq<char>> {
    ps.map_values(|p: Project| or_dash(leader_login_of(p)))
}

/// The lines that list projects: a header, then one row per project with its
/// name, short name, leader's login, whether it is archived, and its id; the
/// first three columns are as wide as their widest cell (at least 4, 5 and 6).
pub open spec fn projects_table(ps: Seq<Project>) -> Seq<Seq<char>> {
    if ps.len() == 0 {
        seq!["No projects found."@]
    } else {
        let names = project_name_cells(ps);
        let shorts = project_short_cells(ps);
        let leaders = project_leader_cells(ps);
        let nw = column_width(names, 4);
        let sw = column_width(shorts, 5);
        let lw = column_width(leaders, 6);
        seq![
            pad_right("NAME"@, nw) + "  "@ + pad_right("SHORT"@, sw) + "  "@ + pad_right("LEADER"@, lw)
                + "  "@ + "ARCHIVED  ID"@,
        ] + Seq::new(
            ps.len(),
            |i: int|
                pad_right(names[i], nw) + "  "@ + pad_right(shorts[i], sw) + "  "@ + pad_right(
                    leaders[i],
                    lw,
                ) + "  "@ + pad_right(bool_or_dash(ps[i].archived), 8) + "  "@ + or_dash(
                    ps[i].id.deep_view(),
                ),
        )
    }
}

/// The table that lists projects.
pub fn projects_lines(projects: &Vec<Project>) -> (lines: Vec<String>)
    ensures
        lines_view(lines@) == projects_table(projects@),
{
    let mut lines: Vec<String> = Vec::new();
    if projects.len() == 0 {
        lines.push(String::from_str("No projects found."));
        assert(lines_view(lines@) =~= projects_table(projects@));
        return lines;
    }
    let ghost names_v = project_name_cells(projects@);
    let ghost shorts_v = project_short_cells(projects@);
    let ghost leaders_v = project_leader_cells(projects@);
    let mut names: Vec<&str> = Vec::new();
    let mut shorts: Vec<&str> = Vec::new();
    let mut leaders: Vec<&str> = Vec::new();
    let mut i: usize = 0;
    while i < projects.len()
        invariant
            i <= projects.len(),
            names_v == project_name_cells(projects@),
            shorts_v == project_short_cells(projects@),
            leaders_v == project_leader_cells(projects@),
            names@.len() == i,
            shorts@.len() == i,
            leaders@.len() == i,
            forall|j: int| 0 <= j < i ==> (#[trigger] names@[j])@ == names_v[j],
            forall|j: int| 0 <= j < i ==> (#[trigger] shorts@[j])@ == shorts_v[j],
            forall|j: int| 0 <= j < i ==> (#[trigger] leaders@[j])@ == leaders_v[j],
        decreases projects.len() - i,
    {
        let p = &projects[i];
        let name = match &p.name {
            Some(n) => Some(n.as_str()),
            None => None,
        };
        let short = match &p.short_name {
            Some(n) => Some(n.as_str()),
            None => None,
        };
        names.push(text_or_dash(name));
        shorts.push(text_or_dash(short));
        leaders.push(text_or_dash(p.leader_login()));
        i = i + 1;
    }
    assert(cells_view(names@) =~= names_v);
    assert(cells_view(shorts@) =~= shorts_v);
    assert(cells_view(leaders@) =~= leaders_v);
    let nw = column_width_of(&names, 4);
    let sw = column_width_of(&shorts, 5);
    let lw = column_width_of(&leaders, 6);
    let mut header = String::new();
    push_cell(&mut header, "NAME", nw);
    push_cell(&mut header, "SHORT", sw);
    push_cell(&mut header, "LEADER", lw);
    header.append("ARCHIVED  ID");
    lines.push(header);
    let mut k: usize = 0;
    while k < projects.len()
        invariant
            k <= projects.len(),
            names@.len() == projects.len(),
            shorts@.len() == projects.len(),
            leaders@.len() == projects.len(),
            forall|j: int| 0 <= j < projects.len() ==> (#[trigger] names@[j])@ == names_v[j],
            forall|j: int| 0 <= j < projects.len() ==> (#[trigger] shorts@[j])@ == shorts_v[j],
            forall|j: int| 0 <= j < projects.len() ==> (#[trigger] leaders@[j])@ == leaders_v[j],
            names_v == project_name_cells(projects@),
            shorts_v == project_short_cells(projects@),
            leaders_v == project_leader_cells(projects@),
            nw as nat == column_width(names_v, 4),
            sw as nat == column_width(shorts_v, 5),
            lw as nat == column_width(leaders_v, 6),
            lines_view(lines@) == projects_table(projects@).subrange(0, k + 1),
        decreases projects.len() - k,
    {
        let mut row = String::new();
        push_cell(&mut row, names[k], nw);
        push_cell(&mut row, shorts[k], sw);
        push_cell(&mut row, leaders[k], lw);
        let archived = bool_text_or_dash(projects[k].archived);
        push_cell(&mut row, archived.as_str(), 8);
        let id = match &projects[k].id {
            Some(s) => Some(s.as_str()),
            None => None,
        };
        row.append(text_or_dash(id));
        assert(row@ == projects_table(projects@)[k + 1]);
        let ghost before = lines_view(lines@);
        lines.push(row);
        assert(lines_view(lines@) =~= before.push(projects_table(projects@)[k + 1]));
        k = k + 1;
        assert(lines_view(lines@) =~= projects_table(projects@).subrange(0, k + 1));
    }
    assert(lines_view(lines@) =~= projects_table(projects@));
    lines
}

/// The steps of `projects list` once the client is built: fetch the
/// projects (paginated) and print their table.
pub open spec fn list_steps(c: ClientView, skip: Option<u32>, top: Option<u32>, rs: Seq<Response>) -> ActionView {
    if rs.len() == 0 {
        fetch(list_projects_req(c, skip, top), Expect::Projects)
    } else if rs.len() == 1 {
        match rs[0] {
            Response::Projects(ps) => finish(projects_table(ps@)),
            _ => fail(ErrorView::UnexpectedResponse),
        }
    } else {
        fail(ErrorView::UnexpectedResponse)
    }
}

/// `projects list`: the client must build, then [`list_steps`].
pub open spec fn list_command(
    base_url: Option<Seq<char>>,
    api_key: Option<Seq<char>>,
    skip: Option<u32>,
    top: Option<u32>,
    rs: Seq<Response>,
) -> ActionView {
    match client_from_args(base_url, api_key) {
        Err(e) => fail(e),
        Ok(c) => list_steps(c, skip, top, rs),
    }
}

/// The next step of `projects list [--skip N] [--top N]`, given the answers
/// received so far.
pub fn execute_list(
    base_url: Option<&str>,
    api_key: Option<&str>,
    skip: Option<u32>,
    top: Option<u32>,
    responses: &Vec<Response>,
) -> (a: Action)
    ensures
        a@ == list_command(base_url.deep_view(), api_key.deep_view(), skip, top, responses@),
{
    let client = match build_client(base_url, api_key) {
        Ok(c) => c,
        Err(e) => return Action::fail(e),
    };
    if responses.len() == 0 {
        Action::fetch(client.list_projects(skip, top), Expect::Projects)
    } else if responses.len() == 1 {
        match &responses[0] {
            Response::Projects(ps) => Action::finish(projects_lines(ps)),
            _ => Action::fail(YouTrackError::UnexpectedResponse),
        }
    } else {
        Action::fail(YouTrackError::UnexpectedResponse)
    }
}

/// The steps of `projects describe` once the client is built: fetch all
/// projects and print the description of the first whose short name matches
/// case-insensitively, or fail when none does.
pub open spec fn describe_steps(c: ClientView, name: Seq<char>, rs: Seq<Response>) -> ActionView {
    if rs.len() == 0 {
        fetch(list_projects_req(c, None, None), Expect::Projects)
    } else if rs.len() == 1 {
        match rs[0] {
            Response::Projects(ps) => match first_match(project_short_names(ps@), name) {
                Some(i) => finish(seq![project_description(ps@[i])]),
                None => fail(ErrorView::ProjectNotFound(name)),
            },
            _ => fail(ErrorView::UnexpectedResponse),
        }
    } else {
        fail(ErrorView::UnexpectedResponse)
    }
}

/// `projects describe`: the client must build, then [`describe_steps`].
pub open spec fn describe_command(
    base_url: Option<Seq<char>>,
    api_key: Option<Seq<char>>,
    name: Seq<char>,
    rs: Seq<Response>,
) -> ActionView {
    match client_from_args(base_url, api_key) {
        Err(e) => fail(e),
        Ok(c) => describe_steps(c, name, rs),
    }
}

/// The next step of `projects describe NAME`, given the answers received so
/// far.
pub fn execute_describe(
    base_url: Option<&str>,
    api_key: Option<&str>,
    name: &str,
    responses: &Vec<Response>,
) -> (a: Action)
    ensures
        a@ == describe_command(base_url.deep_view(), api_key.deep_view(), name@, responses@),
{
    let client = match build_client(base_url, api_key) {
        Ok(c) => c,
        Err(e) => return Action::fail(e),
    };
    if responses.len() == 0 {
        Action::fetch(client.list_projects(None, None), Expect::Projects)
    } else if responses.len() == 1 {
        match &responses[0] {
            Response::Projects(ps) => match YouTrackClient::project_position(ps, name) {
                Some(i) => Action::finish(one_line(ps[i].to_display_string())),
                None => Action::fail(YouTrackError::ProjectNotFound(String::from_str(name))),
            },
            _ => Action::fail(YouTrackError::UnexpectedResponse),
        }
    } else {
        Action::fail(YouTrackError::UnexpectedResponse)
    }
}

/// Listing projects asks for the page that the arguments name: once the
/// client is built, the first step fetches the projects with the `fields`
/// selector first, then `$skip` with the skip in decimal exactly when a skip
/// is given, and `$top` with the limit in decimal exactly when a limit is
/// given, each in its own role.
pub proof fn lemma_list_projects_asks_for_the_page(
    base_url: Option<Seq<char>>,
    api_key: Option<Seq<char>>,
    skip: Option<u32>,
    top: Option<u32>,
)
    ensures
        client_from_args(base_url, api_key) matches Ok(c) ==> (list_command(
            base_url,
            api_key,
            skip,
            top,
            Seq::empty(),
        ).next matches NextView::Fetch(r, e) && e == Expect::Projects && r.method == Method::Get
            && r.url == c.base_url + "/admin/"@ + "projects"@
            && r.query.len() == 1 + (if skip is Some { 1int } else { 0 }) + (if top is Some { 1int } else { 0 })
            && r.query[0] == ("fields"@, DEFAULT_PROJECT_FIELDS@)
            && (skip matches Some(s) ==> r.query[1] == ("$skip"@, decimal(s as nat)))
            && (top matches Some(t) ==> r.query.last() == ("$top"@, decimal(t as nat)))),
{
}

} // verus!
