//! The YouTrack resources that the client reads and the payloads it sends, and
//! the text in which the command-line tools describe them.

use vstd::prelude::*;
use crate::text::{bool_text, bool_to_text, i32_to_decimal, push_char, signed_decimal};

verus! {

/// The type of a custom field, such as `enum[1]` or `string`.
#[derive(Debug)]
pub struct FieldType {
    pub id: Option<String>,
}

/// One value of a bundle (the set of values an enumerated field can take).
#[derive(Debug)]
pub struct BundleElement {
    pub id: Option<String>,
    pub name: Option<String>,
    pub archived: Option<bool>,
    pub ordinal: Option<i32>,
}

/// A bundle: the values that a field of an enumerated type can take.
#[derive(Debug)]
pub struct Bundle {
    pub id: Option<String>,
    pub values: Option<Vec<BundleElement>>,
}

/// The default settings of a global custom field.
#[derive(Debug)]
pub struct CustomFieldDefaults {
    pub id: Option<String>,
    pub can_be_empty: Option<bool>,
    pub empty_field_text: Option<String>,
    pub is_public: Option<bool>,
    pub bundle: Option<Bundle>,
}

/// A global custom field.
#[derive(Debug)]
pub struct CustomField {
    pub id: Option<String>,
    pub name: Option<String>,
    pub localized_name: Option<String>,
    pub field_type: Option<FieldType>,
    pub is_auto_attached: Option<bool>,
    pub is_updateable: Option<bool>,
    pub ordinal: Option<i32>,
    pub aliases: Option<String>,
    pub field_defaults: Option<CustomFieldDefaults>,
}

/// The user who leads a project.
#[derive(Debug)]
pub struct Leader {
    pub id: Option<String>,
    pub login: Option<String>,
    pub ring_id: Option<String>,
}

/// A project.
#[derive(Debug)]
pub struct Project {
    pub id: Option<String>,
    pub name: Option<String>,
    pub short_name: Option<String>,
    pub archived: Option<bool>,
    pub description: Option<String>,
    pub leader: Option<Leader>,
}

/// A custom field as it is attached to one project.
#[derive(Debug)]
pub struct ProjectCustomField {
    pub id: Option<String>,
    pub field: Option<CustomField>,
    pub can_be_empty: Option<bool>,
    pub empty_field_text: Option<String>,
    pub ordinal: Option<i32>,
    pub is_public: Option<bool>,
    pub bundle: Option<Bundle>,
}

/// Body of the request that creates a global custom field.
#[derive(Debug)]
pub struct CreateCustomFieldRequest {
    pub name: String,
    pub field_type: FieldType,
    pub is_auto_attached: Option<bool>,
}

/// A reference to an existing global custom field, by its id.
#[derive(Debug)]
pub struct CustomFieldRef {
    pub id: String,
}

/// Body of the request that attaches a global custom field to a project.
#[derive(Debug)]
pub struct AttachProjectCustomFieldRequest {
    pub field: CustomFieldRef,
}

/// Body of the request that adds a value to a bundle.
#[derive(Debug)]
pub struct CreateBundleValueRequest {
    pub name: String,
}

// ── Text of optional values ──────────────────────────────────────────

/// The text of an optional string: the string itself, or `-` when absent.
pub open spec fn or_dash(o: Option<Seq<char>>) -> Seq<char> {
    match o {
        Some(s) => s,
        None => "-"@,
    }
}

/// The text of an optional boolean: `true`, `false`, or `-` when absent.
pub open spec fn bool_or_dash(o: Option<bool>) -> Seq<char> {
    match o {
        Some(b) => bool_text(b),
        None => "-"@,
    }
}

/// The text of an optional integer: its decimal rendering, or `-` when absent.
pub open spec fn int_or_dash(o: Option<i32>) -> Seq<char> {
    match o {
        Some(n) => signed_decimal(n as int),
        None => "-"@,
    }
}

/// The suffix that marks an archived bundle value.
pub open spec fn archived_suffix(o: Option<bool>) -> Seq<char> {
    match o {
        Some(true) => " (archived)"@,
        _ => ""@,
    }
}

/// The optional string, or `-` when it is absent.
pub fn text_or_dash<'a>(o: Option<&'a str>) -> (r: &'a str)
    ensures
        r@ == or_dash(o.deep_view()),
{
    match o {
        Some(s) => s,
        None => "-",
    }
}

/// The optional boolean as text, or `-` when it is absent.
pub fn bool_text_or_dash(o: Option<bool>) -> (r: String)
    ensures
        r@ == bool_or_dash(o),
{
    match o {
        Some(b) => bool_to_text(b),
        None => String::from_str("-"),
    }
}

/// The optional integer in decimal, or `-` when it is absent.
pub fn int_text_or_dash(o: Option<i32>) -> (r: String)
    ensures
        r@ == int_or_dash(o),
{
    match o {
        Some(n) => i32_to_decimal(n),
        None => String::from_str("-"),
    }
}

/// Appends `label`, `value` and a line break.
fn push_line(out: &mut String, label: &str, value: &str)
    ensures
        final(out)@ == old(out)@ + label@ + value@ + "\n"@,
{
    out.append(label);
    out.append(value);
    out.append("\n");
}

// ── Accessors used by the descriptions and tables ────────────────────

/// The id of the field type of a custom field, when both are present.
pub open spec fn field_type_id_of(cf: CustomField) -> Option<Seq<char>> {
    match cf.field_type {
        Some(ft) => ft.id.deep_view(),
        None => None,
    }
}

/// The values of a custom field's default bundle, when the field has
/// defaults, the defaults a bundle, and the bundle a list of values.
pub open spec fn default_bundle_values(cf: CustomField) -> Option<Seq<BundleElement>> {
    match cf.field_defaults {
        Some(d) => match d.bundle {
            Some(b) => match b.values {
                Some(vs) => Some(vs@),
                None => None,
            },
            None => None,
        },
        None => None,
    }
}

/// The values of an optional bundle, when the bundle has a list of values.
pub open spec fn bundle_values(b: Option<Bundle>) -> Option<Seq<BundleElement>> {
    match b {
        Some(b) => match b.values {
            Some(vs) => Some(vs@),
            None => None,
        },
        None => None,
    }
}

/// The login of a project's leader, when both are present.
pub open spec fn leader_login_of(p: Project) -> Option<Seq<char>> {
    match p.leader {
        Some(l) => l.login.deep_view(),
        None => None,
    }
}

/// The name of the global field behind a project custom field.
pub open spec fn project_field_name_of(pcf: ProjectCustomField) -> Option<Seq<char>> {
    match pcf.field {
        Some(f) => f.name.deep_view(),
        None => None,
    }
}

/// The field type id of the global field behind a project custom field.
pub open spec fn project_field_type_id_of(pcf: ProjectCustomField) -> Option<Seq<char>> {
    match pcf.field {
        Some(f) => field_type_id_of(f),
        None => None,
    }
}

/// The id of the default bundle of a custom field, when there is one.
pub open spec fn default_bundle_id_of(cf: CustomField) -> Option<Seq<char>> {
    match cf.field_defaults {
        Some(d) => match d.bundle {
            Some(b) => b.id.deep_view(),
            None => None,
        },
        None => None,
    }
}

impl CustomField {
    /// The id of this field's type, when the field has a type with an id.
    pub fn field_type_id(&self) -> (r: Option<&str>)
        ensures
            r.deep_view() == field_type_id_of(*self),
    {
        match &self.field_type {
            Some(ft) => match &ft.id {
                Some(id) => Some(id.as_str()),
                None => None,
            },
            None => None,
        }
    }

    /// The id of this field's default bundle, when there is one.
    pub fn default_bundle_id(&self) -> (r: Option<&str>)
        ensures
            r.deep_view() == default_bundle_id_of(*self),
    {
        match &self.field_defaults {
            Some(d) => match &d.bundle {
                Some(b) => match &b.id {
                    Some(id) => Some(id.as_str()),
                    None => None,
                },
                None => None,
            },
            None => None,
        }
    }
}

impl Project {
    /// The login of this project's leader, when there is one.
    pub fn leader_login(&self) -> (r: Option<&str>)
        ensures
            r.deep_view() == leader_login_of(*self),
    {
        match &self.leader {
            Some(l) => match &l.login {
                Some(login) => Some(login.as_str()),
                None => None,
            },
            None => None,
        }
    }
}

impl ProjectCustomField {
    /// The name of the global field behind this project field.
    pub fn field_name(&self) -> (r: Option<&str>)
        ensures
            r.deep_view() == project_field_name_of(*self),
    {
        match &self.field {
            Some(f) => match &f.name {
                Some(n) => Some(n.as_str()),
                None => None,
            },
            None => None,
        }
    }

    /// The type id of the global field behind this project field.
    pub fn field_type_id(&self) -> (r: Option<&str>)
        ensures
            r.deep_view() == project_field_type_id_of(*self),
    {
        match &self.field {
            Some(f) => f.field_type_id(),
            None => None,
        }
    }

    /// The id of the bundle of this project field, when there is one.
    pub fn bundle_id(&self) -> (r: Option<&str>)
        ensures
            r.deep_view() == (match self.bundle {
                Some(b) => b.id.deep_view(),
                None => None,
            }),
    {
        match &self.bundle {
            Some(b) => match &b.id {
                Some(id) => Some(id.as_str()),
                None => None,
            },
            None => None,
        }
    }
}

// ── Descriptions ─────────────────────────────────────────────────────

/// The line that lists one bundle value: its name, marked when archived.
pub open spec fn value_line(v: BundleElement) -> Seq<char> {
    "  - "@ + or_dash(v.name.deep_view()) + archived_suffix(v.archived) + "\n"@
}

/// The lines that list bundle values, in order.
pub open spec fn value_lines(vs: Seq<BundleElement>) -> Seq<char>
    decreases vs.len(),
{
    if vs.len() == 0 {
        Seq::empty()
    } else {
        value_lines(vs.drop_last()) + value_line(vs.last())
    }
}

/// The closing part of a description: the list of bundle values when there
/// is one, else the given line that stands for no values.
pub open spec fn values_block(vs: Option<Seq<BundleElement>>, absent: Seq<char>) -> Seq<char> {
    match vs {
        Some(vs) => "Values:\n"@ + value_lines(vs),
        None => absent,
    }
}

/// Appends the values block of a description.
fn push_values(out: &mut String, values: Option<&Vec<BundleElement>>, absent: &str)
    ensures
        final(out)@ == old(out)@ + values_block(
            match values {
                Some(vs) => Some(vs@),
                None => None,
            },
            absent@,
        ),
{
    match values {
        Some(vs) => {
            out.append("Values:\n");
            let ghost start = out@;
            let mut i: usize = 0;
            while i < vs.len()
                invariant
                    i <= vs.len(),
                    out@ == start + value_lines(vs@.subrange(0, i as int)),
                decreases vs.len() - i,
            {
                let v = &vs[i];
                let name = match &v.name {
                    Some(n) => Some(n.as_str()),
                    None => None,
                };
                out.append("  - ");
                out.append(text_or_dash(name));
                match v.archived {
                    Some(true) => out.append(" (archived)"),
                    _ => out.append(""),
                }
                out.append("\n");
                assert(vs@.subrange(0, i + 1).drop_last() =~= vs@.subrange(0, i as int));
                i = i + 1;
            }
            assert(vs@.subrange(0, vs.len() as int) =~= vs@);
        },
        None => {
            out.append(absent);
        },
    }
}

/// How a global custom field is described: one labelled line per property,
/// then the values of its default bundle.
pub open spec fn custom_field_description(cf: CustomField) -> Seq<char> {
    "ID:             "@ + or_dash(cf.id.deep_view()) + "\n"@
        + "Name:           "@ + or_dash(cf.name.deep_view()) + "\n"@
        + "Localized Name: "@ + or_dash(cf.localized_name.deep_view()) + "\n"@
        + "Field Type:     "@ + or_dash(field_type_id_of(cf)) + "\n"@
        + "Auto-Attached:  "@ + bool_or_dash(cf.is_auto_attached) + "\n"@
        + "Updateable:     "@ + bool_or_dash(cf.is_updateable) + "\n"@
        + "Ordinal:        "@ + int_or_dash(cf.ordinal) + "\n"@
        + "Aliases:        "@ + or_dash(cf.aliases.deep_view()) + "\n"@
        + values_block(default_bundle_values(cf), "Values:         -"@)
}

/// How a project is described: one labelled line per property.
pub open spec fn project_description(p: Project) -> Seq<char> {
    "ID:          "@ + or_dash(p.id.deep_view()) + "\n"@
        + "Name:        "@ + or_dash(p.name.deep_view()) + "\n"@
        + "Short Name:  "@ + or_dash(p.short_name.deep_view()) + "\n"@
        + "Archived:    "@ + bool_or_dash(p.archived) + "\n"@
        + "Description: "@ + or_dash(p.description.deep_view()) + "\n"@
        + "Leader:      "@ + or_dash(leader_login_of(p))
}

/// How a project custom field is described: one labelled line per property,
/// then the values of its bundle.
pub open spec fn project_custom_field_description(pcf: ProjectCustomField) -> Seq<char> {
    "ID:               "@ + or_dash(pcf.id.deep_view()) + "\n"@
        + "Field Name:       "@ + or_dash(project_field_name_of(pcf)) + "\n"@
        + "Localized Name:   "@ + or_dash(
            match pcf.field {
                Some(f) => f.localized_name.deep_view(),
                None => None,
            },
        ) + "\n"@
        + "Field Type:       "@ + or_dash(project_field_type_id_of(pcf)) + "\n"@
        + "Can Be Empty:     "@ + bool_or_dash(pcf.can_be_empty) + "\n"@
        + "Empty Field Text: "@ + or_dash(pcf.empty_field_text.deep_view()) + "\n"@
        + "Ordinal:          "@ + int_or_dash(pcf.ordinal) + "\n"@
        + "Public:           "@ + bool_or_dash(pcf.is_public) + "\n"@
        + values_block(bundle_values(pcf.bundle), "Values:           -"@)
}

/// The optional string field as a `&str` option.
fn as_opt_str(o: &Option<String>) -> (r: Option<&str>)
    ensures
        r.deep_view() == o.deep_view(),
{
    match o {
        Some(s) => Some(s.as_str()),
        None => None,
    }
}

impl CustomField {
    /// The description of this field, as the tools print it.
    pub fn to_display_string(&self) -> (s: String)
        ensures
            s@ == custom_field_description(*self),
    {
        let mut out = String::new();
        push_line(&mut out, "ID:             ", text_or_dash(as_opt_str(&self.id)));
        push_line(&mut out, "Name:           ", text_or_dash(as_opt_str(&self.name)));
        push_line(&mut out, "Localized Name: ", text_or_dash(as_opt_str(&self.localized_name)));
        push_line(&mut out, "Field Type:     ", text_or_dash(self.field_type_id()));
        push_line(&mut out, "Auto-Attached:  ", bool_text_or_dash(self.is_auto_attached).as_str());
        push_line(&mut out, "Updateable:     ", bool_text_or_dash(self.is_updateable).as_str());
        push_line(&mut out, "Ordinal:        ", int_text_or_dash(self.ordinal).as_str());
        push_line(&mut out, "Aliases:        ", text_or_dash(as_opt_str(&self.aliases)));
        let values: Option<&Vec<BundleElement>> = match &self.field_defaults {
            Some(d) => match &d.bundle {
                Some(b) => match &b.values {
                    Some(vs) => Some(vs),
                    None => None,
                },
                None => None,
            },
            None => None,
        };
        push_values(&mut out, values, "Values:         -");
        assert(out@ =~= custom_field_description(*self));
        out
    }
}

impl Project {
    /// The description of this project, as the tools print it.
    pub fn to_display_string(&self) -> (s: String)
        ensures
            s@ == project_description(*self),
    {
        let mut out = String::new();
        push_line(&mut out, "ID:          ", text_or_dash(as_opt_str(&self.id)));
        push_line(&mut out, "Name:        ", text_or_dash(as_opt_str(&self.name)));
        push_line(&mut out, "Short Name:  ", text_or_dash(as_opt_str(&self.short_name)));
        push_line(&mut out, "Archived:    ", bool_text_or_dash(self.archived).as_str());
        push_line(&mut out, "Description: ", text_or_dash(as_opt_str(&self.description)));
        out.append("Leader:      ");
        out.append(text_or_dash(self.leader_login()));
        assert(out@ =~= project_description(*self));
        out
    }
}

impl ProjectCustomField {
    /// The description of this project field, as the tools print it.
    pub fn to_display_string(&self) -> (s: String)
        ensures
            s@ == project_custom_field_description(*self),
    {
        let mut out = String::new();
        push_line(&mut out, "ID:               ", text_or_dash(as_opt_str(&self.id)));
        push_line(&mut out, "Field Name:       ", text_or_dash(self.field_name()));
        let localized = match &self.field {
            Some(f) => as_opt_str(&f.localized_name),
            None => None,
        };
        push_line(&mut out, "Localized Name:   ", text_or_dash(localized));
        push_line(&mut out, "Field Type:       ", text_or_dash(self.field_type_id()));
        push_line(&mut out, "Can Be Empty:     ", bool_text_or_dash(self.can_be_empty).as_str());
        push_line(&mut out, "Empty Field Text: ", text_or_dash(as_opt_str(&self.empty_field_text)));
        push_line(&mut out, "Ordinal:          ", int_text_or_dash(self.ordinal).as_str());
        push_line(&mut out, "Public:           ", bool_text_or_dash(self.is_public).as_str());
        let values: Option<&Vec<BundleElement>> = match &self.bundle {
            Some(b) => match &b.values {
                Some(vs) => Some(vs),
                None => None,
            },
            None => None,
        };
        push_values(&mut out, values, "Values:           -");
        assert(out@ =~= project_custom_field_description(*self));
        out
    }
}

/// The description of a project opens with its ID, Name and Short Name lines,
/// and the line right after them is `Archived:    ` followed by the text of
/// the project's own `archived` flag (`true`, `false`, or `-` when absent).
pub proof fn lemma_project_description_archived_line(p: Project)
    ensures
        ({
            let d = project_description(p);
            let head = "ID:          "@ + or_dash(p.id.deep_view()) + "\n"@ + "Name:        "@ + or_dash(
                p.name.deep_view(),
            ) + "\n"@ + "Short Name:  "@ + or_dash(p.short_name.deep_view()) + "\n"@;
            let line = "Archived:    "@ + bool_or_dash(p.archived) + "\n"@;
            &&& d.subrange(0, head.len() as int) == head
            &&& d.subrange(head.len() as int, (head.len() + line.len()) as int) == line
        }),
{
    let d = project_description(p);
    let head = "ID:          "@ + or_dash(p.id.deep_view()) + "\n"@ + "Name:        "@ + or_dash(
        p.name.deep_view(),
    ) + "\n"@ + "Short Name:  "@ + or_dash(p.short_name.deep_view()) + "\n"@;
    let line = "Archived:    "@ + bool_or_dash(p.archived) + "\n"@;
    let tail = "Description: "@ + or_dash(p.description.deep_view()) + "\n"@ + "Leader:      "@ + or_dash(
        leader_login_of(p),
    );
    assert(d =~= head + line + tail);
    assert(d.subrange(0, head.len() as int) =~= head);
    assert(d.subrange(head.len() as int, (head.len() + line.len()) as int) =~= line);
}

} // verus!
