use youtrack_tools::client::{
    api_error, bundle_type_from_lowercase, check_status, is_success_status, ApiRequest, Method, RequestBody,
    YouTrackClient, DESCRIBE_CUSTOM_FIELD_FIELDS, DESCRIBE_PROJECT_CUSTOM_FIELD_FIELDS,
    DEFAULT_CUSTOM_FIELD_FIELDS, DEFAULT_PROJECT_CUSTOM_FIELD_FIELDS, DEFAULT_PROJECT_FIELDS,
};
use youtrack_tools::error::YouTrackError;
use youtrack_tools::models::{
    Bundle, CustomField, CustomFieldDefaults, FieldType, Project, ProjectCustomField,
};

fn s(v: &str) -> Option<String> {
    Some(v.to_string())
}

fn client() -> YouTrackClient {
    YouTrackClient::new("https://example.youtrack.cloud/api/", "perm:abc").unwrap()
}

fn query(r: &ApiRequest) -> Vec<(&str, &str)> {
    r.query.iter().map(|(k, v)| (k.as_str(), v.as_str())).collect()
}

fn project(id: Option<&str>, short: Option<&str>) -> Project {
    Project {
        id: id.map(|v| v.to_string()),
        name: None,
        short_name: short.map(|v| v.to_string()),
        archived: None,
        description: None,
        leader: None,
    }
}

fn field(name: &str, ty: Option<&str>, bundle: Option<&str>) -> CustomField {
    CustomField {
        id: s(&format!("id-{name}")),
        name: s(name),
        localized_name: None,
        field_type: ty.map(|t| FieldType { id: s(t) }),
        is_auto_attached: None,
        is_updateable: None,
        ordinal: None,
        aliases: None,
        field_defaults: Some(CustomFieldDefaults {
            id: None,
            can_be_empty: None,
            empty_field_text: None,
            is_public: None,
            bundle: Some(Bundle { id: bundle.map(|b| b.to_string()), values: None }),
        }),
    }
}

fn project_field(name: &str, ty: Option<&str>, bundle: Option<&str>) -> ProjectCustomField {
    let mut f = field(name, ty, None);
    f.field_defaults = None;
    ProjectCustomField {
        id: None,
        field: Some(f),
        can_be_empty: None,
        empty_field_text: None,
        ordinal: None,
        is_public: None,
        bundle: bundle.map(|b| Bundle { id: s(b), values: None }),
    }
}

#[test]
fn new_trims_base_url_and_sets_bearer() {
    let c = client();
    assert_eq!(c.base_url(), "https://example.youtrack.cloud/api");
    assert_eq!(c.authorization(), "Bearer perm:abc");
}

#[test]
fn every_request_carries_the_client_headers() {
    let c = client();
    let expected = vec![
        ("authorization".to_string(), "Bearer perm:abc".to_string()),
        ("accept".to_string(), "application/json".to_string()),
    ];
    assert_eq!(c.request_headers(), expected);
    let requests = vec![
        c.list_custom_fields(None, None),
        c.describe_custom_fields_request(),
        c.list_projects(Some(1), Some(2)),
        c.list_project_custom_fields("0-1", None, None),
        c.describe_project_custom_fields_request("0-1"),
        c.create_custom_field("F", "enum[1]", None),
        c.attach_custom_field_to_project("0-1", "58-1"),
        c.post_bundle_value("state", "b", "Open"),
    ];
    for r in requests {
        assert_eq!(r.headers, expected);
        assert!(r.url.starts_with("https://example.youtrack.cloud/api/admin/"));
    }
}

#[test]
fn new_refuses_key_with_control_characters() {
    let r = YouTrackClient::new("https://x/api", "bad\nkey");
    match r {
        Err(e) => {
            assert!(matches!(e, YouTrackError::InvalidApiKey));
            assert_eq!(e.message(), "invalid API key characters: failed to parse header value");
        }
        Ok(_) => panic!("a newline cannot stand in a header"),
    }
    assert!(YouTrackClient::new("https://x/api", "del\u{7f}").is_err());
}

#[test]
fn new_accepts_tab_and_non_ascii_keys() {
    assert!(YouTrackClient::new("https://x/api", "a\tb").is_ok());
    assert!(YouTrackClient::new("https://x/api", "schlüssel").is_ok());
}

#[test]
fn list_custom_fields_request_without_pagination() {
    let r = client().list_custom_fields(None, None);
    assert_eq!(r.method, Method::Get);
    assert_eq!(r.url, "https://example.youtrack.cloud/api/admin/customFieldSettings/customFields");
    assert_eq!(query(&r), vec![("fields", DEFAULT_CUSTOM_FIELD_FIELDS)]);
    assert!(r.body.is_none());
}

#[test]
fn list_custom_fields_request_with_pagination() {
    let r = client().list_custom_fields(Some(20), Some(10));
    assert_eq!(
        query(&r),
        vec![("fields", DEFAULT_CUSTOM_FIELD_FIELDS), ("$skip", "20"), ("$top", "10")]
    );
    let only_top = client().list_custom_fields(None, Some(5));
    assert_eq!(query(&only_top), vec![("fields", DEFAULT_CUSTOM_FIELD_FIELDS), ("$top", "5")]);
}

#[test]
fn describe_requests() {
    let c = client();
    let r = c.describe_custom_fields_request();
    assert_eq!(query(&r), vec![("fields", DESCRIBE_CUSTOM_FIELD_FIELDS)]);
    let p = c.describe_project_custom_fields_request("0-7");
    assert_eq!(p.url, "https://example.youtrack.cloud/api/admin/projects/0-7/customFields");
    assert_eq!(query(&p), vec![("fields", DESCRIBE_PROJECT_CUSTOM_FIELD_FIELDS)]);
}

#[test]
fn project_requests() {
    let c = client();
    let r = c.list_projects(Some(1), None);
    assert_eq!(r.url, "https://example.youtrack.cloud/api/admin/projects");
    assert_eq!(query(&r), vec![("fields", DEFAULT_PROJECT_FIELDS), ("$skip", "1")]);
    let f = c.list_project_custom_fields("0-7", None, Some(3));
    assert_eq!(f.url, "https://example.youtrack.cloud/api/admin/projects/0-7/customFields");
    assert_eq!(query(&f), vec![("fields", DEFAULT_PROJECT_CUSTOM_FIELD_FIELDS), ("$top", "3")]);
}

#[test]
fn create_requests() {
    let c = client();
    let r = c.create_custom_field("Severity", "enum[1]", Some(true));
    assert_eq!(r.method, Method::Post);
    assert_eq!(r.url, "https://example.youtrack.cloud/api/admin/customFieldSettings/customFields");
    assert_eq!(query(&r), vec![("fields", DESCRIBE_CUSTOM_FIELD_FIELDS)]);
    match r.body {
        Some(RequestBody::CreateCustomField(b)) => {
            assert_eq!(b.name, "Severity");
            assert_eq!(b.field_type.id.as_deref(), Some("enum[1]"));
            assert_eq!(b.is_auto_attached, Some(true));
        }
        other => panic!("unexpected body {other:?}"),
    }
    let a = c.attach_custom_field_to_project("0-7", "58-9");
    assert_eq!(a.url, "https://example.youtrack.cloud/api/admin/projects/0-7/customFields");
    match a.body {
        Some(RequestBody::AttachProjectCustomField(b)) => assert_eq!(b.field.id, "58-9"),
        other => panic!("unexpected body {other:?}"),
    }
    let v = c.post_bundle_value("enum", "b-1", "Blocker");
    assert_eq!(v.url, "https://example.youtrack.cloud/api/admin/customFieldSettings/bundles/enum/b-1/values");
    assert_eq!(query(&v), vec![("fields", "$type,archived,id,name,ordinal")]);
    match v.body {
        Some(RequestBody::CreateBundleValue(b)) => assert_eq!(b.name, "Blocker"),
        other => panic!("unexpected body {other:?}"),
    }
}

#[test]
fn bundle_types_of_field_types() {
    assert_eq!(YouTrackClient::bundle_type_from_field_type("enum[1]").unwrap(), "enum");
    assert_eq!(YouTrackClient::bundle_type_from_field_type("Enum[*]").unwrap(), "enum");
    assert_eq!(YouTrackClient::bundle_type_from_field_type("state[1]").unwrap(), "state");
    assert_eq!(YouTrackClient::bundle_type_from_field_type("ownedField[1]").unwrap(), "ownedField");
    assert_eq!(YouTrackClient::bundle_type_from_field_type("owned[1]").unwrap(), "ownedField");
    assert_eq!(YouTrackClient::bundle_type_from_field_type("version[*]").unwrap(), "version");
    assert_eq!(YouTrackClient::bundle_type_from_field_type("BUILD[1]").unwrap(), "build");
}

#[test]
fn field_type_without_bundles_is_refused() {
    let e = YouTrackClient::bundle_type_from_field_type("string").unwrap_err();
    assert_eq!(e.message(), "field type 'string' does not support bundle values");
    let d = YouTrackClient::bundle_type_from_field_type("date and time").unwrap_err();
    assert_eq!(d.message(), "field type 'date and time' does not support bundle values");
}

#[test]
fn bundle_type_from_lowercase_text() {
    assert_eq!(bundle_type_from_lowercase("enum[1]"), Some("enum"));
    assert_eq!(bundle_type_from_lowercase("ownedfield[1]"), Some("ownedField"));
    assert_eq!(bundle_type_from_lowercase("Enum[1]"), None);
    assert_eq!(bundle_type_from_lowercase("integer"), None);
}

#[test]
fn project_lookup_is_case_insensitive_and_takes_the_first() {
    let all = vec![project(Some("0-1"), Some("ABC")), project(Some("0-2"), Some("demo")), project(Some("0-3"), Some("DEMO"))];
    let found = YouTrackClient::get_project_by_name(all, "Demo").unwrap();
    assert_eq!(found.id.as_deref(), Some("0-2"));
    let none = YouTrackClient::get_project_by_name(vec![project(Some("0-1"), None)], "x");
    assert!(none.is_none());
}

#[test]
fn custom_field_lookup() {
    let all = vec![field("Priority", Some("enum[1]"), Some("b")), field("State", Some("state[1]"), Some("s"))];
    let found = YouTrackClient::get_custom_field_by_name(all, "STATE").unwrap();
    assert_eq!(found.name.as_deref(), Some("State"));
    assert!(YouTrackClient::get_custom_field_by_name(vec![], "State").is_none());
    let pall = vec![project_field("Assignee", None, None), project_field("Type", Some("enum[1]"), Some("t"))];
    let pf = YouTrackClient::get_project_custom_field_by_name(pall, "type").unwrap();
    assert_eq!(pf.bundle_id(), Some("t"));
}

#[test]
fn resolving_project_ids() {
    let all = vec![project(Some("0-1"), Some("ABC")), project(None, Some("NOID"))];
    assert_eq!(YouTrackClient::resolve_project_id(&all, "abc").unwrap(), "0-1");
    let missing = YouTrackClient::resolve_project_id(&all, "XYZ").unwrap_err();
    assert_eq!(missing.message(), "project with short name 'XYZ' not found");
    let no_id = YouTrackClient::resolve_project_id(&all, "noid").unwrap_err();
    assert_eq!(no_id.message(), "project 'noid' has no ID");
}

#[test]
fn adding_a_value_to_a_global_field() {
    let c = client();
    let all = vec![
        field("Priority", Some("enum[1]"), Some("b-1")),
        field("Notes", Some("string"), None),
        field("Untyped", None, Some("b-3")),
        field("Stage", Some("state[1]"), None),
    ];
    let r = c.add_value_to_custom_field(&all, "priority", "Blocker").unwrap();
    assert_eq!(r.url, "https://example.youtrack.cloud/api/admin/customFieldSettings/bundles/enum/b-1/values");
    assert_eq!(
        c.add_value_to_custom_field(&all, "Nope", "x").unwrap_err().message(),
        "custom field 'Nope' not found"
    );
    assert_eq!(
        c.add_value_to_custom_field(&all, "Notes", "x").unwrap_err().message(),
        "field type 'string' does not support bundle values"
    );
    assert_eq!(
        c.add_value_to_custom_field(&all, "Untyped", "x").unwrap_err().message(),
        "custom field 'Untyped' has no field type"
    );
    assert_eq!(
        c.add_value_to_custom_field(&all, "Stage", "x").unwrap_err().message(),
        "custom field 'Stage' has no associated bundle"
    );
}

#[test]
fn adding_a_value_to_a_project_field() {
    let c = client();
    let all = vec![project_field("Type", Some("ownedField[1]"), Some("o-1")), project_field("Fix", Some("version[*]"), None)];
    let r = c.add_value_to_project_custom_field(&all, "DEMO", "type", "Docs").unwrap();
    assert_eq!(r.url, "https://example.youtrack.cloud/api/admin/customFieldSettings/bundles/ownedField/o-1/values");
    assert_eq!(
        c.add_value_to_project_custom_field(&all, "DEMO", "Other", "x").unwrap_err().message(),
        "custom field 'Other' not found in project 'DEMO'"
    );
    assert_eq!(
        c.add_value_to_project_custom_field(&all, "DEMO", "Fix", "x").unwrap_err().message(),
        "custom field 'Fix' has no associated bundle"
    );
}

#[test]
fn success_statuses() {
    assert!(is_success_status(200));
    assert!(is_success_status(204));
    assert!(is_success_status(299));
    assert!(!is_success_status(199));
    assert!(!is_success_status(300));
    assert!(!is_success_status(404));
}

#[test]
fn api_error_names_the_status() {
    let e = api_error(404, "{\"error\":\"not found\"}");
    assert_eq!(e.message(), "YouTrack API returned 404 Not Found: {\"error\":\"not found\"}");
    let u = api_error(599, "");
    assert_eq!(u.message(), "YouTrack API returned 599 <unknown status code>: ");
}

#[test]
fn status_check_decides_success_or_the_error() {
    assert!(check_status(200, "ignored").is_ok());
    assert!(check_status(201, "").is_ok());
    assert!(check_status(299, "").is_ok());
    let e = check_status(401, "{\"error\":\"Unauthorized\"}").unwrap_err();
    assert_eq!(e.message(), "YouTrack API returned 401 Unauthorized: {\"error\":\"Unauthorized\"}");
    let r = check_status(302, "moved").unwrap_err();
    assert_eq!(r.message(), "YouTrack API returned 302 Found: moved");
    assert!(check_status(199, "").is_err());
}
