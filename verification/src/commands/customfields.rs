//! The `customfields` commands: list, describe, create, and create a value.

use vstd::prelude::*;
use crate::client::{
    add_value_to_custom_field_result, add_value_to_project_custom_field_result,
    attach_custom_field_req, create_custom_field_req, custom_field_names,
    describe_custom_fields_req, describe_project_custom_fields_req, first_match,
    list_custom_fields_req, list_project_custom_fields_req, list_projects_req,
    project_field_names, project_id_for, ClientView, YouTrackClient,
};
use crate::commands::{
    build_client, client_from_args, fail, fail_after, fetch, fetch_after, finish, Action,
    ActionView, Expect, Response,
};
use crate::error::{ErrorView, YouTrackError};
use crate::models::{custom_field_description, project_custom_field_description, BundleElement,
    bool_or_dash, bool_text_or_dash, field_type_id_of, or_dash, project_field_name_of,
    project_field_type_id_of, text_or_dash, CustomField, ProjectCustomField,
};
use crate::table::{column_width, column_width_of, lines_view, one_line, push_cell};
use crate::text::{decimal, has_suffix, pad_right};
use crate::client::{BodyView, Method, DEFAULT_CUSTOM_FIELD_FIELDS};
use crate::commands::NextView;

verus! {

/// The NAME cells of a table of global custom fields.
pub open spec fn global_name_cells(fs: Seq<CustomField>) -> Seq<Seq<char>> {
    fs.map_values(|f: CustomField| or_dash(f.name.deep_view()))
}

/// The TYPE cells of a table of global custom fields.
pub open spec fn global_type_cells(fs: Seq<CustomField>) -> Seq<Seq<char>> {
    fs.map_values(|f: CustomField| or_dash(field_type_id_of(f)))
}

/// The lines that list global custom fields: a header, then one row per
/// field with its name, type and id, in columns as wide as their widest
/// cell (at least 4).
pub open spec fn global_fields_table(fs: Seq<CustomField>) -> Seq<Seq<char>> {
    if fs.len() == 0 {
        seq!["No custom fields found."@]
    } else {
        let names = global_name_cells(fs);
        let types = global_type_cells(fs);
        let nw = column_width(names, 4);
        let tw = column_width(types, 4);
        seq![pad_right("NAME"@, nw) + "  "@ + pad_right("TYPE"@, tw) + "  "@ + "ID"@] + Seq::new(
            fs.len(),
            |i: int|
                pad_right(names[i], nw) + "  "@ + pad_right(types[i], tw) + "  "@ + or_dash(
                    fs[i].id.deep_view(),
                ),
        )
    }
}

/// The NAME cells of a table of project custom fields.
pub open spec fn project_name_cells(fs: Seq<ProjectCustomField>) -> Seq<Seq<char>> {
    fs.map_values(|f: ProjectCustomField| or_dash(project_field_name_of(f)))
}

/// The TYPE cells of a table of project custom fields.
pub open spec fn project_type_cells(fs: Seq<ProjectCustomField>) -> Seq<Seq<char>> {
    fs.map_values(|f: ProjectCustomField| or_dash(project_field_type_id_of(f)))
}

/// The lines that list the custom fields of a project: a header, then one row
/// per field with its name, type, whether it is public, and its id.
pub open spec fn project_fields_table(project: Seq<char>, fs: Seq<ProjectCustomField>) -> Seq<Seq<char>> {
    if fs.len() == 0 {
        seq!["No custom fields found for project '"@ + project + "'."@]
    } else {
        let names = project_name_cells(fs);
        let types = project_type_cells(fs);
        let nw = column_width(names, 4);
        let tw = column_width(types, 4);
        seq![pad_right("NAME"@, nw) + "  "@ + pad_right("TYPE"@, tw) + "  "@ + "PUBLIC  ID"@]
            + Seq::new(
            fs.len(),
            |i: int|
                pad_right(names[i], nw) + "  "@ + pad_right(types[i], tw) + "  "@ + pad_right(
                    bool_or_dash(fs[i].is_public),
                    6,
                ) + "  "@ + or_dash(fs[i].id.deep_view()),
        )
    }
}

/// The table that lists global custom fields.
pub fn global_fields_lines(fields: &Vec<CustomField>) -> (lines: Vec<String>)
    ensures
        lines_view(lines@) == global_fields_table(fields@),
{
    let mut lines: Vec<String> = Vec::new();
    if fields.len() == 0 {
        lines.push(String::from_str("No custom fields found."));
        assert(lines_view(lines@) =~= global_fields_table(fields@));
        return lines;
    }
    let ghost names_v = global_name_cells(fields@);
    let ghost types_v = global_type_cells(fields@);
    let mut names: Vec<&str> = Vec::new();
    let mut types: Vec<&str> = Vec::new();
    let mut i: usize = 0;
    while i < fields.len()
        invariant
            i <= fields.len(),
            names_v == global_name_cells(fields@),
            types_v == global_type_cells(fields@),
            names@.len() == i,
            types@.len() == i,
            forall|j: int| 0 <= j < i ==> (#[trigger] names@[j])@ == names_v[j],
            forall|j: int| 0 <= j < i ==> (#[trigger] types@[j])@ == types_v[j],
        decreases fields.len() - i,
    {
        let f = &fields[i];
        let name = match &f.name {
            Some(n) => Some(n.as_str()),
            None => None,
        };
        names.push(text_or_dash(name));
        types.push(text_or_dash(f.field_type_id()));
        i = i + 1;
    }
    assert(crate::table::cells_view(names@) =~= names_v);
    assert(crate::table::cells_view(types@) =~= types_v);
    let nw = column_width_of(&names, 4);
    let tw = column_width_of(&types, 4);
    let mut header = String::new();
    push_cell(&mut header, "NAME", nw);
    push_cell(&mut header, "TYPE", tw);
    header.append("ID");
    lines.push(header);
    let mut k: usize = 0;
    while k < fields.len()
        invariant
            k <= fields.len(),
            names@.len() == fields.len(),
            types@.len() == fields.len(),
            forall|j: int| 0 <= j < fields.len() ==> (#[trigger] names@[j])@ == names_v[j],
            forall|j: int| 0 <= j < fields.len() ==> (#[trigger] types@[j])@ == types_v[j],
            names_v == global_name_cells(fields@),
            types_v == global_type_cells(fields@),
            nw as nat == column_width(names_v, 4),
            tw as nat == column_width(types_v, 4),
            lines_view(lines@) == global_fields_table(fields@).subrange(0, k + 1),
        decreases fields.len() - k,
    {
        let mut row = String::new();
        push_cell(&mut row, names[k], nw);
        push_cell(&mut row, types[k], tw);
        let id = match &fields[k].id {
            Some(s) => Some(s.as_str()),
            None => None,
        };
        row.append(text_or_dash(id));
        assert(row@ == global_fields_table(fields@)[k + 1]);
        let ghost before = lines_view(lines@);
        lines.push(row);
        assert(lines_view(lines@) =~= before.push(global_fields_table(fields@)[k + 1]));
        k = k + 1;
        assert(lines_view(lines@) =~= global_fields_table(fields@).subrange(0, k + 1));
    }
    assert(lines_view(lines@) =~= global_fields_table(fields@));
    lines
}

/// The table that lists the custom fields of project `project`.
pub fn project_fields_lines(project: &str, fields: &Vec<ProjectCustomField>) -> (lines: Vec<String>)
    ensures
        lines_view(lines@) == project_fields_table(project@, fields@),
{
    let mut lines: Vec<String> = Vec::new();
    if fields.len() == 0 {
        let mut msg = String::from_str("No custom fields found for project '");
        msg.append(project);
        msg.append("'.");
        lines.push(msg);
        assert(lines_view(lines@) =~= project_fields_table(project@, fields@));
        return lines;
    }
    let ghost names_v = project_name_cells(fields@);
    let ghost types_v = project_type_cells(fields@);
    let mut names: Vec<&str> = Vec::new();
    let mut types: Vec<&str> = Vec::new();
    let mut i: usize = 0;
    while i < fields.len()
        invariant
            i <= fields.len(),
            names_v == project_name_cells(fields@),
            types_v == project_type_cells(fields@),
            names@.len() == i,
            types@.len() == i,
            forall|j: int| 0 <= j < i ==> (#[trigger] names@[j])@ == names_v[j],
            forall|j: int| 0 <= j < i ==> (#[trigger] types@[j])@ == types_v[j],
        decreases fields.len() - i,
    {
        let f = &fields[i];
        names.push(text_or_dash(f.field_name()));
        types.push(text_or_dash(f.field_type_id()));
        i = i + 1;
    }
    assert(crate::table::cells_view(names@) =~= names_v);
    assert(crate::table::cells_view(types@) =~= types_v);
    let nw = column_width_of(&names, 4);
    let tw = column_width_of(&types, 4);
    let mut header = String::new();
    push_cell(&mut header, "NAME", nw);
    push_cell(&mut header, "TYPE", tw);
    header.append("PUBLIC  ID");
    lines.push(header);
    let mut k: usize = 0;
    while k < fields.len()
        invariant
            k <= fields.len(),
            names@.len() == fields.len(),
            types@.len() == fields.len(),
            forall|j: int| 0 <= j < fields.len() ==> (#[trigger] names@[j])@ == names_v[j],
            forall|j: int| 0 <= j < fields.len() ==> (#[trigger] types@[j])@ == types_v[j],
            names_v == project_name_cells(fields@),
            types_v == project_type_cells(fields@),
            nw as nat == column_width(names_v, 4),
            tw as nat == column_width(types_v, 4),
            lines_view(lines@) == project_fields_table(project@, fields@).subrange(0, k + 1),
        decreases fields.len() - k,
    {
        let mut row = String::new();
        push_cell(&mut row, names[k], nw);
        push_cell(&mut row, types[k], tw);
        let public = bool_text_or_dash(fields[k].is_public);
        push_cell(&mut row, public.as_str(), 6);
        let id = match &fields[k].id {
            Some(s) => Some(s.as_str()),
            None => None,
        };
        row.append(text_or_dash(id));
        assert(row@ == project_fields_table(project@, fields@)[k + 1]);
        let ghost before = lines_view(lines@);
        lines.push(row);
        assert(lines_view(lines@) =~= before.push(project_fields_table(project@, fields@)[k + 1]));
        k = k + 1;
        assert(lines_view(lines@) =~= project_fields_table(project@, fields@).subrange(0, k + 1));
    }
    assert(lines_view(lines@) =~= project_fields_table(project@, fields@));
    lines
}

// ── list ─────────────────────────────────────────────────────────────

/// The steps of `customfields list` once the client is built: without a
/// project, fetch the global fields (paginated) and print their table; with
/// one, fetch all projects, resolve the project's id by short name, fetch
/// that project's fields (paginated) and print their table.
pub open spec fn list_steps(
    c: ClientView,
    project: Option<Seq<char>>,
    skip: Option<u32>,
    top: Option<u32>,
    rs: Seq<Response>,
) -> ActionView {
    match project {
        None => if rs.len() == 0 {
            fetch(list_custom_fields_req(c, skip, top), Expect::CustomFields)
        } else if rs.len() == 1 {
            match rs[0] {
                Response::CustomFields(fs) => finish(global_fields_table(fs@)),
                _ => fail(ErrorView::UnexpectedResponse),
            }
        } else {
            fail(ErrorView::UnexpectedResponse)
        },
        Some(p) => if rs.len() == 0 {
            fetch(list_projects_req(c, None, None), Expect::Projects)
        } else {
            match rs[0] {
                Response::Projects(ps) => match project_id_for(ps@, p) {
                    Err(e) => fail(e),
                    Ok(id) => if rs.len() == 1 {
                        fetch(
                            list_project_custom_fields_req(c, id, skip, top),
                            Expect::ProjectCustomFields,
                        )
                    } else if rs.len() == 2 {
                        match rs[1] {
                            Response::ProjectCustomFields(fs) => finish(project_fields_table(p, fs@)),
                            _ => fail(ErrorView::UnexpectedResponse),
                        }
                    } else {
                        fail(ErrorView::UnexpectedResponse)
                    },
                },
                _ => fail(ErrorView::UnexpectedResponse),
            }
        },
    }
}

/// `customfields list`: the client must build from the arguments, then
/// [`list_steps`].
pub open spec fn list_command(
    base_url: Option<Seq<char>>,
    api_key: Option<Seq<char>>,
    project: Option<Seq<char>>,
    skip: Option<u32>,
    top: Option<u32>,
    rs: Seq<Response>,
) -> ActionView {
    match client_from_args(base_url, api_key) {
        Err(e) => fail(e),
        Ok(c) => list_steps(c, project, skip, top, rs),
    }
}

/// The next step of `customfields list [--project P] [--skip N] [--top N]`,
/// given the answers received so far.
pub fn execute_list(
    base_url: Option<&str>,
    api_key: Option<&str>,
    project: Option<&str>,
    skip: Option<u32>,
    top: Option<u32>,
    responses: &Vec<Response>,
) -> (a: Action)
    ensures
        a@ == list_command(base_url.deep_view(), api_key.deep_view(), project.deep_view(), skip, top, responses@),
{
    let client = match build_client(base_url, api_key) {
        Ok(c) => c,
        Err(e) => return Action::fail(e),
    };
    match project {
        None => {
            if responses.len() == 0 {
                Action::fetch(client.list_custom_fields(skip, top), Expect::CustomFields)
            } else if responses.len() == 1 {
                match &responses[0] {
                    Response::CustomFields(fs) => Action::finish(global_fields_lines(fs)),
                    _ => Action::fail(YouTrackError::UnexpectedResponse),
                }
            } else {
                Action::fail(YouTrackError::UnexpectedResponse)
            }
        },
        Some(p) => {
            if responses.len() == 0 {
                return Action::fetch(client.list_projects(None, None), Expect::Projects);
            }
            match &responses[0] {
                Response::Projects(ps) => match YouTrackClient::resolve_project_id(ps, p) {
                    Err(e) => Action::fail(e),
                    Ok(id) => {
                        if responses.len() == 1 {
                            Action::fetch(
                                client.list_project_custom_fields(id.as_str(), skip, top),
                                Expect::ProjectCustomFields,
                            )
                        } else if responses.len() == 2 {
                            match &responses[1] {
                                Response::ProjectCustomFields(fs) => Action::finish(
                                    project_fields_lines(p, fs),
                                ),
                                _ => Action::fail(YouTrackError::UnexpectedResponse),
                            }
                        } else {
                            Action::fail(YouTrackError::UnexpectedResponse)
                        }
                    },
                },
                _ => Action::fail(YouTrackError::UnexpectedResponse),
            }
        },
    }
}

// ── describe ─────────────────────────────────────────────────────────

/// The steps of `customfields describe` once the client is built: fetch all
/// global fields (or, with a project, all projects, then all fields of the
/// project), and print the description of the first field whose name
/// matches case-insensitively, or fail when none does.
pub open spec fn describe_steps(c: ClientView, project: Option<Seq<char>>, name: Seq<char>, rs: Seq<Response>) -> ActionView {
    match project {
        None => if rs.len() == 0 {
            fetch(describe_custom_fields_req(c), Expect::CustomFields)
        } else if rs.len() == 1 {
            match rs[0] {
                Response::CustomFields(fs) => match first_match(custom_field_names(fs@), name) {
                    Some(i) => finish(seq![custom_field_description(fs@[i])]),
                    None => fail(ErrorView::CustomFieldNotFound(name)),
                },
                _ => fail(ErrorView::UnexpectedResponse),
            }
        } else {
            fail(ErrorView::UnexpectedResponse)
        },
        Some(p) => if rs.len() == 0 {
            fetch(list_projects_req(c, None, None), Expect::Projects)
        } else {
            match rs[0] {
                Response::Projects(ps) => match project_id_for(ps@, p) {
                    Err(e) => fail(e),
                    Ok(id) => if rs.len() == 1 {
                        fetch(describe_project_custom_fields_req(c, id), Expect::ProjectCustomFields)
                    } else if rs.len() == 2 {
                        match rs[1] {
                            Response::ProjectCustomFields(fs) => match first_match(project_field_names(fs@), name) {
                                Some(i) => finish(seq![project_custom_field_description(fs@[i])]),
                                None => fail(ErrorView::ProjectCustomFieldNotFound { field: name, project: p }),
                            },
                            _ => fail(ErrorView::UnexpectedResponse),
                        }
                    } else {
                        fail(ErrorView::UnexpectedResponse)
                    },
                },
                _ => fail(ErrorView::UnexpectedResponse),
            }
        },
    }
}

/// `customfields describe`: the client must build, then [`describe_steps`].
pub open spec fn describe_command(
    base_url: Option<Seq<char>>,
    api_key: Option<Seq<char>>,
    project: Option<Seq<char>>,
    name: Seq<char>,
    rs: Seq<Response>,
) -> ActionView {
    match client_from_args(base_url, api_key) {
        Err(e) => fail(e),
        Ok(c) => describe_steps(c, project, name, rs),
    }
}

/// The next step of `customfields describe [--project P] NAME`, given the
/// answers received so far.
pub fn execute_describe(
    base_url: Option<&str>,
    api_key: Option<&str>,
    project: Option<&str>,
    name: &str,
    responses: &Vec<Response>,
) -> (a: Action)
    ensures
        a@ == describe_command(base_url.deep_view(), api_key.deep_view(), project.deep_view(), name@, responses@),
{
    let client = match build_client(base_url, api_key) {
        Ok(c) => c,
        Err(e) => return Action::fail(e),
    };
    match project {
        None => {
            if responses.len() == 0 {
                Action::fetch(client.describe_custom_fields_request(), Expect::CustomFields)
            } else if responses.len() == 1 {
                match &responses[0] {
                    Response::CustomFields(fs) => match YouTrackClient::custom_field_position(fs, name) {
                        Some(i) => Action::finish(one_line(fs[i].to_display_string())),
                        None => Action::fail(YouTrackError::CustomFieldNotFound(String::from_str(name))),
                    },
                    _ => Action::fail(YouTrackError::UnexpectedResponse),
                }
            } else {
                Action::fail(YouTrackError::UnexpectedResponse)
            }
        },
        Some(p) => {
            if responses.len() == 0 {
                return Action::fetch(client.list_projects(None, None), Expect::Projects);
            }
            match &responses[0] {
                Response::Projects(ps) => match YouTrackClient::resolve_project_id(ps, p) {
                    Err(e) => Action::fail(e),
                    Ok(id) => {
                        if responses.len() == 1 {
                            Action::fetch(
                                client.describe_project_custom_fields_request(id.as_str()),
                                Expect::ProjectCustomFields,
                            )
                        } else if responses.len() == 2 {
                            match &responses[1] {
                                Response::ProjectCustomFields(fs) => match YouTrackClient::project_custom_field_position(fs, name) {
                                    Some(i) => Action::finish(one_line(fs[i].to_display_string())),
                                    None => Action::fail(YouTrackError::ProjectCustomFieldNotFound {
                                        field: String::from_str(name),
                                        project: String::from_str(p),
                                    }),
                                },
                                _ => Action::fail(YouTrackError::UnexpectedResponse),
                            }
                        } else {
                            Action::fail(YouTrackError::UnexpectedResponse)
                        }
                    },
                },
                _ => Action::fail(YouTrackError::UnexpectedResponse),
            }
        },
    }
}

// ── create ───────────────────────────────────────────────────────────

/// The lines printed once a global custom field has been created.
pub open spec fn created_lines(cf: CustomField) -> Seq<Seq<char>> {
    seq!["Created custom field:"@, custom_field_description(cf)]
}

/// The lines printed once the new field has been attached to project `p`.
pub open spec fn attached_lines(p: Seq<char>, pcf: ProjectCustomField) -> Seq<Seq<char>> {
    seq![""@, "Attached to project '"@ + p + "':"@, project_custom_field_description(pcf)]
}

/// The steps of `customfields create` once the client is built: create the
/// global field and print it; with a project, then take the new field's id,
/// fetch all projects, resolve the project's id by short name, attach the
/// field to it and print the attachment.
pub open spec fn create_steps(
    c: ClientView,
    project: Option<Seq<char>>,
    name: Seq<char>,
    field_type: Seq<char>,
    auto_attach: Option<bool>,
    rs: Seq<Response>,
) -> ActionView {
    if rs.len() == 0 {
        fetch(create_custom_field_req(c, name, field_type, auto_attach), Expect::CustomField)
    } else {
        match rs[0] {
            Response::CustomField(cf) => match project {
                None => if rs.len() == 1 {
                    finish(created_lines(cf))
                } else {
                    fail(ErrorView::UnexpectedResponse)
                },
                Some(p) => match cf.id.deep_view() {
                    None => if rs.len() == 1 {
                        fail_after(created_lines(cf), ErrorView::CreatedFieldHasNoId)
                    } else {
                        fail(ErrorView::CreatedFieldHasNoId)
                    },
                    Some(cf_id) => if rs.len() == 1 {
                        fetch_after(created_lines(cf), list_projects_req(c, None, None), Expect::Projects)
                    } else {
                        match rs[1] {
                            Response::Projects(ps) => match project_id_for(ps@, p) {
                                Err(e) => fail(e),
                                Ok(pid) => if rs.len() == 2 {
                                    fetch(attach_custom_field_req(c, pid, cf_id), Expect::ProjectCustomField)
                                } else if rs.len() == 3 {
                                    match rs[2] {
                                        Response::ProjectCustomField(pcf) => finish(attached_lines(p, pcf)),
                                        _ => fail(ErrorView::UnexpectedResponse),
                                    }
                                } else {
                                    fail(ErrorView::UnexpectedResponse)
                                },
                            },
                            _ => fail(ErrorView::UnexpectedResponse),
                        }
                    },
                },
            },
            _ => fail(ErrorView::UnexpectedResponse),
        }
    }
}

/// `customfields create`: the client must build, then [`create_steps`].
pub open spec fn create_command(
    base_url: Option<Seq<char>>,
    api_key: Option<Seq<char>>,
    project: Option<Seq<char>>,
    name: Seq<char>,
    field_type: Seq<char>,
    auto_attach: Option<bool>,
    rs: Seq<Response>,
) -> ActionView {
    match client_from_args(base_url, api_key) {
        Err(e) => fail(e),
        Ok(c) => create_steps(c, project, name, field_type, auto_attach, rs),
    }
}

/// The lines printed once a global custom field has been created.
fn created_field_lines(cf: &CustomField) -> (v: Vec<String>)
    ensures
        lines_view(v@) == created_lines(*cf),
{
    let mut v: Vec<String> = Vec::new();
    v.push(String::from_str("Created custom field:"));
    v.push(cf.to_display_string());
    assert(lines_view(v@) =~= created_lines(*cf));
    v
}

/// The lines printed once the new field has been attached to project `p`.
fn attached_field_lines(p: &str, pcf: &ProjectCustomField) -> (v: Vec<String>)
    ensures
        lines_view(v@) == attached_lines(p@, *pcf),
{
    let mut v: Vec<String> = Vec::new();
    v.push(String::from_str(""));
    let mut head = String::from_str("Attached to project '");
    head.append(p);
    head.append("':");
    v.push(head);
    v.push(pcf.to_display_string());
    assert(lines_view(v@) =~= attached_lines(p@, *pcf));
    v
}

/// The next step of `customfields create [--project P] NAME --type T
/// [--auto-attach B]`, given the answers received so far.
pub fn execute_create(
    base_url: Option<&str>,
    api_key: Option<&str>,
    project: Option<&str>,
    name: &str,
    field_type: &str,
    auto_attach: Option<bool>,
    responses: &Vec<Response>,
) -> (a: Action)
    ensures
        a@ == create_command(
            base_url.deep_view(),
            api_key.deep_view(),
            project.deep_view(),
            name@,
            field_type@,
            auto_attach,
            responses@,
        ),
{
    let client = match build_client(base_url, api_key) {
        Ok(c) => c,
        Err(e) => return Action::fail(e),
    };
    if responses.len() == 0 {
        return Action::fetch(
            client.create_custom_field(name, field_type, auto_attach),
            Expect::CustomField,
        );
    }
    let cf = match &responses[0] {
        Response::CustomField(cf) => cf,
        _ => return Action::fail(YouTrackError::UnexpectedResponse),
    };
    let p = match project {
        None => {
            if responses.len() == 1 {
                return Action::finish(created_field_lines(cf));
            } else {
                return Action::fail(YouTrackError::UnexpectedResponse);
            }
        },
        Some(p) => p,
    };
    let cf_id = match &cf.id {
        None => {
            if responses.len() == 1 {
                return Action::fail_after(created_field_lines(cf), YouTrackError::CreatedFieldHasNoId);
            } else {
                return Action::fail(YouTrackError::CreatedFieldHasNoId);
            }
        },
        Some(id) => id.as_str(),
    };
    if responses.len() == 1 {
        return Action::fetch_after(
            created_field_lines(cf),
            client.list_projects(None, None),
            Expect::Projects,
        );
    }
    let ps = match &responses[1] {
        Response::Projects(ps) => ps,
        _ => return Action::fail(YouTrackError::UnexpectedResponse),
    };
    let pid = match YouTrackClient::resolve_project_id(ps, p) {
        Err(e) => return Action::fail(e),
        Ok(pid) => pid,
    };
    if responses.len() == 2 {
        Action::fetch(client.attach_custom_field_to_project(pid.as_str(), cf_id), Expect::ProjectCustomField)
    } else if responses.len() == 3 {
        match &responses[2] {
            Response::ProjectCustomField(pcf) => Action::finish(attached_field_lines(p, pcf)),
            _ => Action::fail(YouTrackError::UnexpectedResponse),
        }
    } else {
        Action::fail(YouTrackError::UnexpectedResponse)
    }
}

// ── create-value ─────────────────────────────────────────────────────

/// The line printed once a bundle value has been created.
pub open spec fn created_value_line(el: BundleElement) -> Seq<char> {
    "Created value '"@ + or_dash(el.name.deep_view()) + "' (id: "@ + or_dash(el.id.deep_view()) + ")"@
}

/// The steps of `customfields create-value` once the client is built: fetch
/// all global fields with their bundles (or, with a project, all projects,
/// then all fields of the project), find the field by name, derive the
/// bundle endpoint from its type and bundle, post the value, and print it.
pub open spec fn create_value_steps(
    c: ClientView,
    project: Option<Seq<char>>,
    field: Seq<char>,
    value: Seq<char>,
    rs: Seq<Response>,
) -> ActionView {
    match project {
        None => if rs.len() == 0 {
            fetch(describe_custom_fields_req(c), Expect::CustomFields)
        } else {
            match rs[0] {
                Response::CustomFields(fs) => match add_value_to_custom_field_result(c, fs@, field, value) {
                    Err(e) => fail(e),
                    Ok(req) => if rs.len() == 1 {
                        fetch(req, Expect::BundleElement)
                    } else if rs.len() == 2 {
                        match rs[1] {
                            Response::BundleElement(el) => finish(seq![created_value_line(el)]),
                            _ => fail(ErrorView::UnexpectedResponse),
                        }
                    } else {
                        fail(ErrorView::UnexpectedResponse)
                    },
                },
                _ => fail(ErrorView::UnexpectedResponse),
            }
        },
        Some(p) => if rs.len() == 0 {
            fetch(list_projects_req(c, None, None), Expect::Projects)
        } else {
            match rs[0] {
                Response::Projects(ps) => match project_id_for(ps@, p) {
                    Err(e) => fail(e),
                    Ok(pid) => if rs.len() == 1 {
                        fetch(describe_project_custom_fields_req(c, pid), Expect::ProjectCustomFields)
                    } else {
                        match rs[1] {
                            Response::ProjectCustomFields(fs) => match add_value_to_project_custom_field_result(
                                c,
                                fs@,
                                p,
                                field,
                                value,
                            ) {
                                Err(e) => fail(e),
                                Ok(req) => if rs.len() == 2 {
                                    fetch(req, Expect::BundleElement)
                                } else if rs.len() == 3 {
                                    match rs[2] {
                                        Response::BundleElement(el) => finish(seq![created_value_line(el)]),
                                        _ => fail(ErrorView::UnexpectedResponse),
                                    }
                                } else {
                                    fail(ErrorView::UnexpectedResponse)
                                },
                            },
                            _ => fail(ErrorView::UnexpectedResponse),
                        }
                    },
                },
                _ => fail(ErrorView::UnexpectedResponse),
            }
        },
    }
}

/// `customfields create-value`: the client must build, then
/// [`create_value_steps`].
pub open spec fn create_value_command(
    base_url: Option<Seq<char>>,
    api_key: Option<Seq<char>>,
    project: Option<Seq<char>>,
    field: Seq<char>,
    value: Seq<char>,
    rs: Seq<Response>,
) -> ActionView {
    match client_from_args(base_url, api_key) {
        Err(e) => fail(e),
        Ok(c) => create_value_steps(c, project, field, value, rs),
    }
}

/// The line printed once a bundle value has been created.
fn created_value_text(el: &BundleElement) -> (s: String)
    ensures
        s@ == created_value_line(*el),
{
    let name = match &el.name {
        Some(n) => Some(n.as_str()),
        None => None,
    };
    let id = match &el.id {
        Some(i) => Some(i.as_str()),
        None => None,
    };
    let mut s = String::from_str("Created value '");
    s.append(text_or_dash(name));
    s.append("' (id: ");
    s.append(text_or_dash(id));
    s.append(")");
    s
}

/// The next step of `customfields create-value [--project P] --field F
/// VALUE`, given the answers received so far.
pub fn execute_create_value(
    base_url: Option<&str>,
    api_key: Option<&str>,
    project: Option<&str>,
    field_name: &str,
    value: &str,
    responses: &Vec<Response>,
) -> (a: Action)
    ensures
        a@ == create_value_command(
            base_url.deep_view(),
            api_key.deep_view(),
            project.deep_view(),
            field_name@,
            value@,
            responses@,
        ),
{
    let client = match build_client(base_url, api_key) {
        Ok(c) => c,
        Err(e) => return Action::fail(e),
    };
    match project {
        None => {
            if responses.len() == 0 {
                return Action::fetch(client.describe_custom_fields_request(), Expect::CustomFields);
            }
            let fs = match &responses[0] {
                Response::CustomFields(fs) => fs,
                _ => return Action::fail(YouTrackError::UnexpectedResponse),
            };
            let req = match client.add_value_to_custom_field(fs, field_name, value) {
                Err(e) => return Action::fail(e),
                Ok(req) => req,
            };
            if responses.len() == 1 {
                Action::fetch(req, Expect::BundleElement)
            } else if responses.len() == 2 {
                match &responses[1] {
                    Response::BundleElement(el) => Action::finish(one_line(created_value_text(el))),
                    _ => Action::fail(YouTrackError::UnexpectedResponse),
                }
            } else {
                Action::fail(YouTrackError::UnexpectedResponse)
            }
        },
        Some(p) => {
            if responses.len() == 0 {
                return Action::fetch(client.list_projects(None, None), Expect::Projects);
            }
            let ps = match &responses[0] {
                Response::Projects(ps) => ps,
                _ => return Action::fail(YouTrackError::UnexpectedResponse),
            };
            let pid = match YouTrackClient::resolve_project_id(ps, p) {
                Err(e) => return Action::fail(e),
                Ok(pid) => pid,
            };
            if responses.len() == 1 {
                return Action::fetch(
                    client.describe_project_custom_fields_request(pid.as_str()),
                    Expect::ProjectCustomFields,
                );
            }
            let fs = match &responses[1] {
                Response::ProjectCustomFields(fs) => fs,
                _ => return Action::fail(YouTrackError::UnexpectedResponse),
            };
            let req = match client.add_value_to_project_custom_field(fs, p, field_name, value) {
                Err(e) => return Action::fail(e),
                Ok(req) => req,
            };
            if responses.len() == 2 {
                Action::fetch(req, Expect::BundleElement)
            } else if responses.len() == 3 {
                match &responses[2] {
                    Response::BundleElement(el) => Action::finish(one_line(created_value_text(el))),
                    _ => Action::fail(YouTrackError::UnexpectedResponse),
                }
            } else {
                Action::fail(YouTrackError::UnexpectedResponse)
            }
        },
    }
}

// ── Laws ─────────────────────────────────────────────────────────────

/// Creating a field starts by posting exactly the field asked for: once the
/// client is built, the first step prints nothing and posts, to the global
/// custom fields below the administration root, a body whose name, field type
/// id and auto-attach choice are the command's own arguments.
pub proof fn lemma_create_posts_the_requested_field(
    base_url: Option<Seq<char>>,
    api_key: Option<Seq<char>>,
    project: Option<Seq<char>>,
    name: Seq<char>,
    field_type: Seq<char>,
    auto_attach: Option<bool>,
)
    ensures
        client_from_args(base_url, api_key) matches Ok(c) ==> {
            let a = create_command(base_url, api_key, project, name, field_type, auto_attach, Seq::empty());
            &&& a.print.len() == 0
            &&& a.next matches NextView::Fetch(r, e) && e == Expect::CustomField && r.method == Method::Post
                && r.url == c.base_url + "/admin/"@ + "customFieldSettings/customFields"@
                && r.body == Some(BodyView::CreateCustomField {
                    name,
                    field_type_id: Some(field_type),
                    is_auto_attached: auto_attach,
                })
        },
{
}

/// Listing global custom fields asks for the page that the arguments name:
/// once the client is built, the first step fetches the global custom fields
/// with the `fields` selector first, then `$skip` with the skip in decimal
/// exactly when a skip is given, and `$top` with the limit in decimal exactly
/// when a limit is given, each in its own role.
pub proof fn lemma_list_fields_asks_for_the_page(
    base_url: Option<Seq<char>>,
    api_key: Option<Seq<char>>,
    skip: Option<u32>,
    top: Option<u32>,
)
    ensures
        client_from_args(base_url, api_key) matches Ok(c) ==> (list_command(
            base_url,
            api_key,
            None,
            skip,
            top,
            Seq::empty(),
        ).next matches NextView::Fetch(r, e) && e == Expect::CustomFields && r.method == Method::Get
            && r.url == c.base_url + "/admin/"@ + "customFieldSettings/customFields"@
            && r.query.len() == 1 + (if skip is Some { 1int } else { 0 }) + (if top is Some { 1int } else { 0 })
            && r.query[0] == ("fields"@, DEFAULT_CUSTOM_FIELD_FIELDS@)
            && (skip matches Some(s) ==> r.query[1] == ("$skip"@, decimal(s as nat)))
            && (top matches Some(t) ==> r.query.last() == ("$top"@, decimal(t as nat)))),
{
}

/// Each field of a project has its own row in the table, in order, after the
/// header, and the row ends with the text of that field's own `is_public`
/// flag (`true`, `false`, or `-` when absent) padded to six characters, then
/// two spaces and the field's id.
pub proof fn lemma_project_table_public_column(project: Seq<char>, fs: Seq<ProjectCustomField>)
    ensures
        project_fields_table(project, fs).len() == (if fs.len() == 0 { 1 } else { fs.len() + 1 }),
        forall|i: int|
            0 <= i < fs.len() ==> has_suffix(
                #[trigger] project_fields_table(project, fs)[i + 1],
                pad_right(bool_or_dash(fs[i].is_public), 6) + "  "@ + or_dash(fs[i].id.deep_view()),
            ),
{
    if fs.len() > 0 {
        let names = project_name_cells(fs);
        let types = project_type_cells(fs);
        let nw = column_width(names, 4);
        let tw = column_width(types, 4);
        assert forall|i: int|
            0 <= i < fs.len() implies has_suffix(
                #[trigger] project_fields_table(project, fs)[i + 1],
                pad_right(bool_or_dash(fs[i].is_public), 6) + "  "@ + or_dash(fs[i].id.deep_view()),
            ) by {
            let row = project_fields_table(project, fs)[i + 1];
            let pre = pad_right(names[i], nw) + "  "@ + pad_right(types[i], tw) + "  "@;
            let suf = pad_right(bool_or_dash(fs[i].is_public), 6) + "  "@ + or_dash(fs[i].id.deep_view());
            assert(row =~= pre + suf);
            assert(row.subrange(row.len() - suf.len(), row.len() as int) =~= suf);
        }
    }
}

} // verus!
