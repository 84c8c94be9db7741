use youtrack_tools::models::{
    Bundle, BundleElement, CustomField, CustomFieldDefaults, FieldType, Leader, Project,
    ProjectCustomField,
};

fn s(v: &str) -> Option<String> {
    Some(v.to_string())
}

fn element(name: Option<&str>, archived: Option<bool>) -> BundleElement {
    BundleElement { id: None, name: name.map(|n| n.to_string()), archived, ordinal: None }
}

fn bare_field() -> CustomField {
    CustomField {
        id: None,
        name: None,
        localized_name: None,
        field_type: None,
        is_auto_attached: None,
        is_updateable: None,
        ordinal: None,
        aliases: None,
        field_defaults: None,
    }
}

#[test]
fn describe_field_without_anything() {
    let text = bare_field().to_display_string();
    assert_eq!(
        text,
        "ID:             -\n\
         Name:           -\n\
         Localized Name: -\n\
         Field Type:     -\n\
         Auto-Attached:  -\n\
         Updateable:     -\n\
         Ordinal:        -\n\
         Aliases:        -\n\
         Values:         -"
    );
}

#[test]
fn describe_field_with_bundle_values() {
    let cf = CustomField {
        id: s("58-3"),
        name: s("Priority"),
        localized_name: s("Priorität"),
        field_type: Some(FieldType { id: s("enum[1]") }),
        is_auto_attached: Some(true),
        is_updateable: Some(false),
        ordinal: Some(-3),
        aliases: s("prio"),
        field_defaults: Some(CustomFieldDefaults {
            id: s("d1"),
            can_be_empty: None,
            empty_field_text: None,
            is_public: None,
            bundle: Some(Bundle {
                id: s("b1"),
                values: Some(vec![
                    element(Some("Critical"), Some(false)),
                    element(Some("Old"), Some(true)),
                    element(None, None),
                ]),
            }),
        }),
    };
    assert_eq!(
        cf.to_display_string(),
        "ID:             58-3\n\
         Name:           Priority\n\
         Localized Name: Priorität\n\
         Field Type:     enum[1]\n\
         Auto-Attached:  true\n\
         Updateable:     false\n\
         Ordinal:        -3\n\
         Aliases:        prio\n\
         Values:\n\
         \x20 - Critical\n\
         \x20 - Old (archived)\n\
         \x20 - -\n"
    );
}

#[test]
fn describe_field_with_empty_value_list() {
    let mut cf = bare_field();
    cf.field_defaults = Some(CustomFieldDefaults {
        id: None,
        can_be_empty: None,
        empty_field_text: None,
        is_public: None,
        bundle: Some(Bundle { id: None, values: Some(vec![]) }),
    });
    assert!(cf.to_display_string().ends_with("Aliases:        -\nValues:\n"));
}

#[test]
fn describe_field_with_bundle_but_no_values() {
    let mut cf = bare_field();
    cf.field_defaults = Some(CustomFieldDefaults {
        id: None,
        can_be_empty: None,
        empty_field_text: None,
        is_public: None,
        bundle: Some(Bundle { id: s("b"), values: None }),
    });
    assert!(cf.to_display_string().ends_with("Values:         -"));
}

#[test]
fn describe_project() {
    let p = Project {
        id: s("0-1"),
        name: s("Demo"),
        short_name: s("DEMO"),
        archived: Some(false),
        description: None,
        leader: Some(Leader { id: s("1-1"), login: s("admin"), ring_id: None }),
    };
    assert_eq!(
        p.to_display_string(),
        "ID:          0-1\n\
         Name:        Demo\n\
         Short Name:  DEMO\n\
         Archived:    false\n\
         Description: -\n\
         Leader:      admin"
    );
}

#[test]
fn describe_project_without_leader_login() {
    let p = Project {
        id: None,
        name: None,
        short_name: None,
        archived: None,
        description: s("text"),
        leader: Some(Leader { id: s("1-1"), login: None, ring_id: None }),
    };
    assert!(p.to_display_string().ends_with("Description: text\nLeader:      -"));
}

#[test]
fn describe_project_custom_field() {
    let mut field = bare_field();
    field.name = s("State");
    field.localized_name = s("Zustand");
    field.field_type = Some(FieldType { id: s("state[1]") });
    let pcf = ProjectCustomField {
        id: s("92-1"),
        field: Some(field),
        can_be_empty: Some(true),
        empty_field_text: s("No state"),
        ordinal: Some(4),
        is_public: Some(true),
        bundle: Some(Bundle { id: s("b2"), values: Some(vec![element(Some("Open"), None)]) }),
    };
    assert_eq!(
        pcf.to_display_string(),
        "ID:               92-1\n\
         Field Name:       State\n\
         Localized Name:   Zustand\n\
         Field Type:       state[1]\n\
         Can Be Empty:     true\n\
         Empty Field Text: No state\n\
         Ordinal:          4\n\
         Public:           true\n\
         Values:\n\
         \x20 - Open\n"
    );
}

#[test]
fn describe_project_custom_field_without_bundle() {
    let pcf = ProjectCustomField {
        id: None,
        field: None,
        can_be_empty: None,
        empty_field_text: None,
        ordinal: None,
        is_public: None,
        bundle: None,
    };
    assert!(pcf.to_display_string().ends_with("Public:           -\nValues:           -"));
}

#[test]
fn accessors_of_nested_values() {
    let mut cf = bare_field();
    assert_eq!(cf.field_type_id(), None);
    cf.field_type = Some(FieldType { id: s("version[*]") });
    assert_eq!(cf.field_type_id(), Some("version[*]"));
    assert_eq!(cf.default_bundle_id(), None);
    let p = Project {
        id: None,
        name: None,
        short_name: None,
        archived: None,
        description: None,
        leader: None,
    };
    assert_eq!(p.leader_login(), None);
}
