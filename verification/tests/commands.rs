use youtrack_tools::client::Method;
use youtrack_tools::commands::customfields::{
    execute_create, execute_create_value, execute_describe, execute_list, global_fields_lines,
    project_fields_lines,
};
use youtrack_tools::commands::projects::{self, projects_lines};
use youtrack_tools::commands::{build_client, version, Action, Expect, Next, Response};
use youtrack_tools::error::YouTrackError;
use youtrack_tools::models::{
    BundleElement, CustomField, FieldType, Leader, Project, ProjectCustomField,
};

const URL: Option<&str> = Some("https://yt.example/api");
const KEY: Option<&str> = Some("perm:k");

fn s(v: &str) -> Option<String> {
    Some(v.to_string())
}

fn field(id: &str, name: Option<&str>, ty: Option<&str>) -> CustomField {
    CustomField {
        id: s(id),
        name: name.map(|n| n.to_string()),
        localized_name: None,
        field_type: ty.map(|t| FieldType { id: s(t) }),
        is_auto_attached: None,
        is_updateable: None,
        ordinal: None,
        aliases: None,
        field_defaults: None,
    }
}

fn project(id: Option<&str>, name: Option<&str>, short: Option<&str>, leader: Option<&str>, archived: Option<bool>) -> Project {
    Project {
        id: id.map(|v| v.to_string()),
        name: name.map(|v| v.to_string()),
        short_name: short.map(|v| v.to_string()),
        archived,
        description: None,
        leader: leader.map(|l| Leader { id: None, login: s(l), ring_id: None }),
    }
}

fn project_field(id: &str, name: &str, ty: &str, public: Option<bool>) -> ProjectCustomField {
    ProjectCustomField {
        id: s(id),
        field: Some(field("g", Some(name), Some(ty))),
        can_be_empty: None,
        empty_field_text: None,
        ordinal: None,
        is_public: public,
        bundle: None,
    }
}

fn fetched(a: &Action) -> (String, Expect) {
    match &a.next {
        Next::Fetch(r, e) => (r.url.clone(), *e),
        other => panic!("expected a request, got {other:?}"),
    }
}

fn finished(a: Action) -> Vec<String> {
    match a.next {
        Next::Finish => a.print,
        other => panic!("expected the end, got {other:?}"),
    }
}

fn failed(a: Action) -> String {
    match a.next {
        Next::Fail(e) => e.message(),
        other => panic!("expected a failure, got {other:?}"),
    }
}

#[test]
fn client_needs_key_then_url() {
    assert!(matches!(build_client(URL, None), Err(YouTrackError::MissingApiKey)));
    assert!(matches!(build_client(None, None), Err(YouTrackError::MissingApiKey)));
    assert!(matches!(build_client(None, KEY), Err(YouTrackError::MissingBaseUrl)));
    assert_eq!(build_client(URL, KEY).unwrap().base_url(), "https://yt.example/api");
}

#[test]
fn missing_settings_fail_every_command() {
    let none: Vec<Response> = vec![];
    assert_eq!(failed(execute_list(URL, None, None, None, None, &none)), "YOUTRACK_API_KEY env var is not set");
    assert_eq!(
        failed(projects::execute_list(None, KEY, None, None, &none)),
        "YouTrack base URL is not set. Use --base-url or set the YOUTRACK_BASE_URL env var"
    );
    assert_eq!(
        failed(execute_create(URL, Some("a\nb"), None, "n", "enum[1]", None, &none)),
        "invalid API key characters: failed to parse header value"
    );
}

#[test]
fn global_field_table() {
    let fields = vec![
        field("58-0", Some("Priority"), Some("enum[1]")),
        field("58-1", None, None),
        field("58-2", Some("Summary text"), Some("string")),
    ];
    assert_eq!(
        global_fields_lines(&fields),
        vec![
            "NAME          TYPE     ID".to_string(),
            "Priority      enum[1]  58-0".to_string(),
            "-             -        58-1".to_string(),
            "Summary text  string   58-2".to_string(),
        ]
    );
}

#[test]
fn table_widths_have_minimums() {
    let fields = vec![field("1", Some("A"), Some("x"))];
    assert_eq!(global_fields_lines(&fields), vec!["NAME  TYPE  ID".to_string(), "A     x     1".to_string()]);
    assert_eq!(global_fields_lines(&vec![]), vec!["No custom fields found.".to_string()]);
}

#[test]
fn table_width_counts_bytes_and_padding_counts_characters() {
    let fields = vec![field("1", Some("Größe"), Some("x"))];
    let name_width = "Größe".len();
    let expected_header = format!("{:<name_width$}  {:<4}  ID", "NAME", "TYPE");
    let expected_row = format!("{:<name_width$}  {:<4}  {}", "Größe", "x", "1");
    assert_eq!(global_fields_lines(&fields), vec![expected_header, expected_row]);
}

#[test]
fn project_field_table() {
    let fields = vec![project_field("92-1", "State", "state[1]", Some(true)), project_field("92-2", "Assignee", "user[1]", None)];
    assert_eq!(
        project_fields_lines("DEMO", &fields),
        vec![
            "NAME      TYPE      PUBLIC  ID".to_string(),
            "State     state[1]  true    92-1".to_string(),
            "Assignee  user[1]   -       92-2".to_string(),
        ]
    );
    assert_eq!(
        project_fields_lines("DEMO", &vec![]),
        vec!["No custom fields found for project 'DEMO'.".to_string()]
    );
}

#[test]
fn project_table() {
    let ps = vec![
        project(Some("0-0"), Some("Demo project"), Some("DEMO"), Some("admin"), Some(false)),
        project(Some("0-1"), None, Some("X"), None, None),
    ];
    assert_eq!(
        projects_lines(&ps),
        vec![
            "NAME          SHORT  LEADER  ARCHIVED  ID".to_string(),
            "Demo project  DEMO   admin   false     0-0".to_string(),
            "-             X      -       -         0-1".to_string(),
        ]
    );
    assert_eq!(projects_lines(&vec![]), vec!["No projects found.".to_string()]);
}

#[test]
fn list_global_fields_flow() {
    let mut rs: Vec<Response> = vec![];
    let first = execute_list(URL, KEY, None, Some(5), None, &rs);
    match &first.next {
        Next::Fetch(r, e) => {
            assert_eq!(r.method, Method::Get);
            assert_eq!(r.url, "https://yt.example/api/admin/customFieldSettings/customFields");
            assert_eq!(r.query[1], ("$skip".to_string(), "5".to_string()));
            assert_eq!(*e, Expect::CustomFields);
        }
        other => panic!("unexpected {other:?}"),
    }
    rs.push(Response::CustomFields(vec![]));
    assert_eq!(finished(execute_list(URL, KEY, None, Some(5), None, &rs)), vec!["No custom fields found.".to_string()]);
    rs.push(Response::CustomFields(vec![]));
    assert_eq!(failed(execute_list(URL, KEY, None, None, None, &rs)), "unexpected response");
}

#[test]
fn list_project_fields_flow() {
    let mut rs: Vec<Response> = vec![];
    let (url, e) = fetched(&execute_list(URL, KEY, Some("demo"), None, Some(2), &rs));
    assert_eq!(url, "https://yt.example/api/admin/projects");
    assert_eq!(e, Expect::Projects);
    rs.push(Response::Projects(vec![project(Some("0-9"), None, Some("DEMO"), None, None)]));
    let step = execute_list(URL, KEY, Some("demo"), None, Some(2), &rs);
    let (url, e) = fetched(&step);
    assert_eq!(url, "https://yt.example/api/admin/projects/0-9/customFields");
    assert_eq!(e, Expect::ProjectCustomFields);
    rs.push(Response::ProjectCustomFields(vec![]));
    assert_eq!(
        finished(execute_list(URL, KEY, Some("demo"), None, Some(2), &rs)),
        vec!["No custom fields found for project 'demo'.".to_string()]
    );
}

#[test]
fn list_for_unknown_project_fails() {
    let rs = vec![Response::Projects(vec![project(Some("0-9"), None, Some("DEMO"), None, None)])];
    assert_eq!(
        failed(execute_list(URL, KEY, Some("NOPE"), None, None, &rs)),
        "project with short name 'NOPE' not found"
    );
    let wrong = vec![Response::CustomFields(vec![])];
    assert_eq!(failed(execute_list(URL, KEY, Some("DEMO"), None, None, &wrong)), "unexpected response");
}

#[test]
fn describe_global_field_flow() {
    let mut rs: Vec<Response> = vec![];
    let (url, e) = fetched(&execute_describe(URL, KEY, None, "priority", &rs));
    assert_eq!(url, "https://yt.example/api/admin/customFieldSettings/customFields");
    assert_eq!(e, Expect::CustomFields);
    rs.push(Response::CustomFields(vec![field("58-0", Some("Priority"), Some("enum[1]"))]));
    let lines = finished(execute_describe(URL, KEY, None, "priority", &rs));
    assert_eq!(lines.len(), 1);
    assert!(lines[0].starts_with("ID:             58-0\nName:           Priority\n"));
    assert_eq!(failed(execute_describe(URL, KEY, None, "Other", &rs)), "custom field 'Other' not found");
}

#[test]
fn describe_project_field_flow() {
    let rs = vec![
        Response::Projects(vec![project(Some("0-9"), None, Some("DEMO"), None, None)]),
        Response::ProjectCustomFields(vec![project_field("92-1", "State", "state[1]", None)]),
    ];
    let lines = finished(execute_describe(URL, KEY, Some("DEMO"), "state", &rs));
    assert!(lines[0].starts_with("ID:               92-1\nField Name:       State\n"));
    assert_eq!(
        failed(execute_describe(URL, KEY, Some("DEMO"), "Type", &rs)),
        "custom field 'Type' not found in project 'DEMO'"
    );
}

#[test]
fn create_global_field_flow() {
    let mut rs: Vec<Response> = vec![];
    let first = execute_create(URL, KEY, None, "Severity", "enum[1]", Some(false), &rs);
    match &first.next {
        Next::Fetch(r, e) => {
            assert_eq!(r.method, Method::Post);
            assert_eq!(*e, Expect::CustomField);
        }
        other => panic!("unexpected {other:?}"),
    }
    rs.push(Response::CustomField(field("58-7", Some("Severity"), Some("enum[1]"))));
    let lines = finished(execute_create(URL, KEY, None, "Severity", "enum[1]", Some(false), &rs));
    assert_eq!(lines[0], "Created custom field:");
    assert!(lines[1].starts_with("ID:             58-7\n"));
}

#[test]
fn create_and_attach_flow() {
    let mut rs = vec![Response::CustomField(field("58-7", Some("Severity"), Some("enum[1]")))];
    let step = execute_create(URL, KEY, Some("DEMO"), "Severity", "enum[1]", None, &rs);
    assert_eq!(step.print[0], "Created custom field:");
    let (url, e) = fetched(&step);
    assert_eq!(url, "https://yt.example/api/admin/projects");
    assert_eq!(e, Expect::Projects);
    rs.push(Response::Projects(vec![project(Some("0-9"), None, Some("DEMO"), None, None)]));
    let attach = execute_create(URL, KEY, Some("DEMO"), "Severity", "enum[1]", None, &rs);
    assert!(attach.print.is_empty());
    match &attach.next {
        Next::Fetch(r, e) => {
            assert_eq!(r.url, "https://yt.example/api/admin/projects/0-9/customFields");
            assert_eq!(*e, Expect::ProjectCustomField);
        }
        other => panic!("unexpected {other:?}"),
    }
    rs.push(Response::ProjectCustomField(project_field("92-5", "Severity", "enum[1]", Some(true))));
    let lines = finished(execute_create(URL, KEY, Some("DEMO"), "Severity", "enum[1]", None, &rs));
    assert_eq!(lines[0], "");
    assert_eq!(lines[1], "Attached to project 'DEMO':");
    assert!(lines[2].starts_with("ID:               92-5\n"));
}

#[test]
fn created_field_without_id_cannot_be_attached() {
    let mut cf = field("x", Some("Severity"), None);
    cf.id = None;
    let rs = vec![Response::CustomField(cf)];
    let a = execute_create(URL, KEY, Some("DEMO"), "Severity", "enum[1]", None, &rs);
    assert_eq!(a.print[0], "Created custom field:");
    assert_eq!(failed(a), "created field has no ID");
}

#[test]
fn create_value_flow() {
    let mut with_bundle = field("58-0", Some("Priority"), Some("enum[1]"));
    with_bundle.field_defaults = Some(youtrack_tools::models::CustomFieldDefaults {
        id: None,
        can_be_empty: None,
        empty_field_text: None,
        is_public: None,
        bundle: Some(youtrack_tools::models::Bundle { id: s("b-1"), values: None }),
    });
    let mut rs = vec![Response::CustomFields(vec![with_bundle])];
    let (url, e) = fetched(&execute_create_value(URL, KEY, None, "Priority", "Blocker", &rs));
    assert_eq!(url, "https://yt.example/api/admin/customFieldSettings/bundles/enum/b-1/values");
    assert_eq!(e, Expect::BundleElement);
    rs.push(Response::BundleElement(BundleElement { id: s("67-3"), name: s("Blocker"), archived: None, ordinal: None }));
    assert_eq!(
        finished(execute_create_value(URL, KEY, None, "Priority", "Blocker", &rs)),
        vec!["Created value 'Blocker' (id: 67-3)".to_string()]
    );
}

#[test]
fn create_value_in_project_flow() {
    let mut pf = project_field("92-1", "Type", "enum[1]", None);
    pf.bundle = Some(youtrack_tools::models::Bundle { id: s("b-9"), values: None });
    let mut rs = vec![Response::Projects(vec![project(Some("0-9"), None, Some("DEMO"), None, None)])];
    let (url, _) = fetched(&execute_create_value(URL, KEY, Some("demo"), "type", "Task", &rs));
    assert_eq!(url, "https://yt.example/api/admin/projects/0-9/customFields");
    rs.push(Response::ProjectCustomFields(vec![pf]));
    let (url, _) = fetched(&execute_create_value(URL, KEY, Some("demo"), "type", "Task", &rs));
    assert_eq!(url, "https://yt.example/api/admin/customFieldSettings/bundles/enum/b-9/values");
    rs.push(Response::BundleElement(BundleElement { id: None, name: None, archived: None, ordinal: None }));
    assert_eq!(
        finished(execute_create_value(URL, KEY, Some("demo"), "type", "Task", &rs)),
        vec!["Created value '-' (id: -)".to_string()]
    );
}

#[test]
fn create_value_for_field_without_bundle_support() {
    let rs = vec![Response::CustomFields(vec![field("58-1", Some("Summary"), Some("string"))])];
    assert_eq!(
        failed(execute_create_value(URL, KEY, None, "summary", "x", &rs)),
        "field type 'string' does not support bundle values"
    );
}

#[test]
fn projects_list_and_describe_flows() {
    let none: Vec<Response> = vec![];
    let (url, e) = fetched(&projects::execute_list(URL, KEY, None, Some(3), &none));
    assert_eq!(url, "https://yt.example/api/admin/projects");
    assert_eq!(e, Expect::Projects);
    let rs = vec![Response::Projects(vec![project(Some("0-0"), Some("Demo"), Some("DEMO"), Some("root"), Some(true))])];
    let lines = finished(projects::execute_list(URL, KEY, None, None, &rs));
    assert_eq!(lines[1], "Demo  DEMO   root    true      0-0");
    let described = finished(projects::execute_describe(URL, KEY, "demo", &rs));
    assert!(described[0].starts_with("ID:          0-0\n"));
    assert_eq!(
        failed(projects::execute_describe(URL, KEY, "other", &rs)),
        "project with short name 'other' not found"
    );
}

#[test]
fn commands_stop_asking() {
    let many: Vec<Response> = (0..4).map(|_| Response::Projects(vec![])).collect();
    assert!(!matches!(execute_list(URL, KEY, Some("P"), None, None, &many).next, Next::Fetch(..)));
    assert!(!matches!(execute_create_value(URL, KEY, Some("P"), "f", "v", &many).next, Next::Fetch(..)));
    assert!(!matches!(projects::execute_describe(URL, KEY, "p", &many).next, Next::Fetch(..)));
}

#[test]
fn version_lines() {
    assert_eq!(
        version::execute("youtrack-tools", "0.1.0", "linux", "x86_64", "1.80.0"),
        vec![
            "youtrack-tools 0.1.0".to_string(),
            "os/arch: linux/x86_64".to_string(),
            "rustc:   1.80.0".to_string(),
        ]
    );
}

#[test]
fn every_error_has_its_message() {
    let cases: Vec<(YouTrackError, &str)> = vec![
        (YouTrackError::MissingApiKey, "YOUTRACK_API_KEY env var is not set"),
        (YouTrackError::ApiStatus { status: "500 Internal Server Error".into(), body: "oops".into() }, "YouTrack API returned 500 Internal Server Error: oops"),
        (YouTrackError::ProjectHasNoId("P".into()), "project 'P' has no ID"),
        (YouTrackError::NoFieldType("F".into()), "custom field 'F' has no field type"),
        (YouTrackError::NoBundle("F".into()), "custom field 'F' has no associated bundle"),
        (YouTrackError::NoBundleValues("date".into()), "field type 'date' does not support bundle values"),
        (YouTrackError::CreatedFieldHasNoId, "created field has no ID"),
        (YouTrackError::UnexpectedResponse, "unexpected response"),
    ];
    for (e, m) in cases {
        assert_eq!(e.message(), m);
    }
}
