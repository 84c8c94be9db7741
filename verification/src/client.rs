//! The YouTrack REST client: the requests it sends, how it reads the answers,
//! and how it finds resources by name.
//!
//! Sending a request and parsing its JSON answer is I/O and belongs to the
//! caller; this module decides what is sent and what the answers mean.

use vstd::prelude::*;
use crate::error::{ErrorView, YouTrackError};
use crate::models::{
    default_bundle_id_of, field_type_id_of, project_field_name_of, project_field_type_id_of,
    CustomField, Project, ProjectCustomField,
    AttachProjectCustomFieldRequest, CreateBundleValueRequest, CreateCustomFieldRequest,
    CustomFieldRef, FieldType,
};
use crate::text::{
    decimal, has_prefix, has_suffix, lowercase, starts_with, to_lowercase, trim_end_slashes,
    trim_trailing_slashes, u32_to_decimal,
};

verus! {

/// Fields returned when custom fields are listed.
pub const DEFAULT_CUSTOM_FIELD_FIELDS: &'static str =
    "$type,fieldType($type,id),id,isAutoAttached,isUpdateable,localizedName,name,ordinal,aliases";

/// Fields returned when one custom field is described, bundle values included.
pub const DESCRIBE_CUSTOM_FIELD_FIELDS: &'static str = "$type,aliases,fieldDefaults($type,bundle($type,id,values($type,archived,id,name,ordinal)),canBeEmpty,emptyFieldText,id,isPublic),fieldType($type,id),id,isAutoAttached,isUpdateable,localizedName,name,ordinal";

/// Fields returned when projects are listed.
pub const DEFAULT_PROJECT_FIELDS: &'static str =
    "$type,archived,description,id,leader($type,id,login,ringId),name,shortName";

/// Fields returned when the custom fields of a project are listed.
pub const DEFAULT_PROJECT_CUSTOM_FIELD_FIELDS: &'static str = "$type,canBeEmpty,emptyFieldText,field($type,fieldType($type,id),id,localizedName,name),id,isPublic,ordinal";

/// Fields returned when one project custom field is described, bundle values included.
pub const DESCRIBE_PROJECT_CUSTOM_FIELD_FIELDS: &'static str = "$type,bundle($type,id,values($type,archived,id,name,ordinal)),canBeEmpty,emptyFieldText,field($type,fieldType($type,id),id,localizedName,name),id,isPublic,ordinal";

/// Fields returned for a newly created bundle value.
pub const BUNDLE_VALUE_FIELDS: &'static str = "$type,archived,id,name,ordinal";

/// The HTTP method of a request.
#[derive(Debug, Clone, Copy, PartialEq, Eq, Structural)]
pub enum Method {
    Get,
    Post,
}

/// The JSON body that a request carries.
#[derive(Debug)]
pub enum RequestBody {
    CreateCustomField(CreateCustomFieldRequest),
    AttachProjectCustomField(AttachProjectCustomFieldRequest),
    CreateBundleValue(CreateBundleValueRequest),
}

/// The value of a request body.
pub enum BodyView {
    CreateCustomField {
        name: Seq<char>,
        field_type_id: Option<Seq<char>>,
        is_auto_attached: Option<bool>,
    },
    AttachProjectCustomField { field_id: Seq<char> },
    CreateBundleValue { name: Seq<char> },
}

impl View for RequestBody {
    type V = BodyView;

    open spec fn view(&self) -> BodyView {
        match self {
            RequestBody::CreateCustomField(r) => BodyView::CreateCustomField {
                name: r.name@,
                field_type_id: r.field_type.id.deep_view(),
                is_auto_attached: r.is_auto_attached,
            },
            RequestBody::AttachProjectCustomField(r) => BodyView::AttachProjectCustomField {
                field_id: r.field.id@,
            },
            RequestBody::CreateBundleValue(r) => BodyView::CreateBundleValue { name: r.name@ },
        }
    }
}

/// A request to the YouTrack API: method, absolute URL, headers, query
/// parameters in the order they are appended, and an optional JSON body.
#[derive(Debug)]
pub struct ApiRequest {
    pub method: Method,
    pub url: String,
    pub headers: Vec<(String, String)>,
    pub query: Vec<(String, String)>,
    pub body: Option<RequestBody>,
}

/// The value of a request.
pub struct RequestView {
    pub method: Method,
    pub url: Seq<char>,
    pub headers: Seq<(Seq<char>, Seq<char>)>,
    pub query: Seq<(Seq<char>, Seq<char>)>,
    pub body: Option<BodyView>,
}

/// The values of a list of name and value pairs (query parameters or headers).
pub open spec fn query_view(q: Seq<(String, String)>) -> Seq<(Seq<char>, Seq<char>)> {
    q.map_values(|p: (String, String)| (p.0@, p.1@))
}

impl View for ApiRequest {
    type V = RequestView;

    open spec fn view(&self) -> RequestView {
        RequestView {
            method: self.method,
            url: self.url@,
            headers: query_view(self.headers@),
            query: query_view(self.query@),
            body: match self.body {
                Some(b) => Some(b@),
                None => None,
            },
        }
    }
}

/// The value of a result whose error is a library error.
pub open spec fn result_view<T: View>(r: Result<T, YouTrackError>) -> Result<T::V, ErrorView> {
    match r {
        Ok(t) => Ok(t@),
        Err(e) => Err(e@),
    }
}

// ── Query parameters ─────────────────────────────────────────────────

/// The query of a listing: the `fields` selector, then `$skip` and `$top`
/// when they are given.
pub open spec fn paged_query(fields: Seq<char>, skip: Option<u32>, top: Option<u32>) -> Seq<
    (Seq<char>, Seq<char>),
> {
    let q = seq![("fields"@, fields)];
    let q = match skip {
        Some(s) => q.push(("$skip"@, decimal(s as nat))),
        None => q,
    };
    match top {
        Some(t) => q.push(("$top"@, decimal(t as nat))),
        None => q,
    }
}

/// Builds the query of a listing.
fn make_paged_query(fields: &str, skip: Option<u32>, top: Option<u32>) -> (q: Vec<(String, String)>)
    ensures
        query_view(q@) == paged_query(fields@, skip, top),
{
    let mut q: Vec<(String, String)> = Vec::new();
    q.push((String::from_str("fields"), String::from_str(fields)));
    if let Some(s) = skip {
        q.push((String::from_str("$skip"), u32_to_decimal(s)));
    }
    if let Some(t) = top {
        q.push((String::from_str("$top"), u32_to_decimal(t)));
    }
    assert(query_view(q@) =~= paged_query(fields@, skip, top));
    q
}

// ── The client ───────────────────────────────────────────────────────

/// The value of a client: the API root it talks to and the value of the
/// `Authorization` header that it sends with every request.
pub struct ClientView {
    pub base_url: Seq<char>,
    pub authorization: Seq<char>,
}

/// A client of one YouTrack instance. It knows the API root and the
/// credentials; the caller sends the requests it builds, with an
/// `Accept: application/json` header and the `Authorization` header given by
/// [`YouTrackClient::authorization`].
pub struct YouTrackClient {
    base_url: String,
    authorization: String,
}

impl View for YouTrackClient {
    type V = ClientView;

    closed spec fn view(&self) -> ClientView {
        ClientView { base_url: self.base_url@, authorization: self.authorization@ }
    }
}

/// Whether a character may stand in an HTTP header value: a tab, or any
/// character from the space upwards but DEL (every byte of the UTF-8 encoding
/// of a non-ASCII character is at least 0x80, which a header value accepts).
pub open spec fn header_char_ok(c: char) -> bool {
    c == '\t' || (c as u32 >= 32 && c as u32 != 127)
}

/// Whether a string may stand as an HTTP header value.
pub open spec fn valid_header_value(s: Seq<char>) -> bool {
    forall|i: int| 0 <= i < s.len() ==> header_char_ok(#[trigger] s[i])
}

/// Calls `reqwest::header::HeaderValue::from_str` and tells whether it
/// accepted the string. Its source accepts a string exactly when every byte
/// is a tab or at least 32 and not 127; the contract states this over the
/// characters.
#[verifier::external_body]
fn header_value_accepts(s: &str) -> (r: bool)
    ensures
        r == valid_header_value(s@),
{
    reqwest::header::HeaderValue::from_str(s).is_ok()
}

/// The `Authorization` header value for an API key.
pub open spec fn bearer(api_key: Seq<char>) -> Seq<char> {
    "Bearer "@ + api_key
}

/// The client that `new` builds, or the error it reports.
pub open spec fn client_for(base_url: Seq<char>, api_key: Seq<char>) -> Result<ClientView, ErrorView> {
    if valid_header_value(bearer(api_key)) {
        Ok(ClientView { base_url: trim_trailing_slashes(base_url), authorization: bearer(api_key) })
    } else {
        Err(ErrorView::InvalidApiKey)
    }
}

/// The headers that every request of a client carries: its credentials as
/// `Authorization`, and `Accept: application/json`.
pub open spec fn request_headers(c: ClientView) -> Seq<(Seq<char>, Seq<char>)> {
    seq![("authorization"@, c.authorization), ("accept"@, "application/json"@)]
}

/// The URL of a path below the administration root `/admin/` of the API.
pub open spec fn admin_url(c: ClientView, path: Seq<char>) -> Seq<char> {
    c.base_url + "/admin/"@ + path
}

/// A request without a body.
pub open spec fn get_request(c: ClientView, path: Seq<char>, query: Seq<(Seq<char>, Seq<char>)>) -> RequestView {
    RequestView {
        method: Method::Get,
        url: admin_url(c, path),
        headers: request_headers(c),
        query,
        body: None,
    }
}

/// A request with a JSON body.
pub open spec fn post_request(c: ClientView, path: Seq<char>, fields: Seq<char>, body: BodyView) -> RequestView {
    RequestView {
        method: Method::Post,
        url: admin_url(c, path),
        headers: request_headers(c),
        query: seq![("fields"@, fields)],
        body: Some(body),
    }
}

/// The path of the global custom fields.
pub open spec fn custom_fields_path() -> Seq<char> {
    "customFieldSettings/customFields"@
}

/// The path of the projects.
pub open spec fn projects_path() -> Seq<char> {
    "projects"@
}

/// The path of the custom fields of one project, by the project's id.
pub open spec fn project_custom_fields_path(project_id: Seq<char>) -> Seq<char> {
    "projects/"@ + project_id + "/customFields"@
}

/// The path of the values of a bundle, by bundle type and bundle id.
pub open spec fn bundle_values_path(bundle_type: Seq<char>, bundle_id: Seq<char>) -> Seq<char> {
    "customFieldSettings/bundles/"@ + bundle_type + "/"@ + bundle_id + "/values"@
}

/// The request that lists global custom fields.
pub open spec fn list_custom_fields_req(c: ClientView, skip: Option<u32>, top: Option<u32>) -> RequestView {
    get_request(c, custom_fields_path(), paged_query(DEFAULT_CUSTOM_FIELD_FIELDS@, skip, top))
}

/// The request that fetches every global custom field with its bundle values.
pub open spec fn describe_custom_fields_req(c: ClientView) -> RequestView {
    get_request(c, custom_fields_path(), seq![("fields"@, DESCRIBE_CUSTOM_FIELD_FIELDS@)])
}

/// The request that lists projects.
pub open spec fn list_projects_req(c: ClientView, skip: Option<u32>, top: Option<u32>) -> RequestView {
    get_request(c, projects_path(), paged_query(DEFAULT_PROJECT_FIELDS@, skip, top))
}

/// The request that lists the custom fields of a project.
pub open spec fn list_project_custom_fields_req(
    c: ClientView,
    project_id: Seq<char>,
    skip: Option<u32>,
    top: Option<u32>,
) -> RequestView {
    get_request(
        c,
        project_custom_fields_path(project_id),
        paged_query(DEFAULT_PROJECT_CUSTOM_FIELD_FIELDS@, skip, top),
    )
}

/// The request that fetches every custom field of a project with its bundle values.
pub open spec fn describe_project_custom_fields_req(c: ClientView, project_id: Seq<char>) -> RequestView {
    get_request(
        c,
        project_custom_fields_path(project_id),
        seq![("fields"@, DESCRIBE_PROJECT_CUSTOM_FIELD_FIELDS@)],
    )
}

/// The request that creates a global custom field.
pub open spec fn create_custom_field_req(
    c: ClientView,
    name: Seq<char>,
    field_type_id: Seq<char>,
    auto_attach: Option<bool>,
) -> RequestView {
    post_request(
        c,
        custom_fields_path(),
        DESCRIBE_CUSTOM_FIELD_FIELDS@,
        BodyView::CreateCustomField {
            name,
            field_type_id: Some(field_type_id),
            is_auto_attached: auto_attach,
        },
    )
}

/// The request that attaches a global custom field to a project.
pub open spec fn attach_custom_field_req(
    c: ClientView,
    project_id: Seq<char>,
    custom_field_id: Seq<char>,
) -> RequestView {
    post_request(
        c,
        project_custom_fields_path(project_id),
        DESCRIBE_PROJECT_CUSTOM_FIELD_FIELDS@,
        BodyView::AttachProjectCustomField { field_id: custom_field_id },
    )
}

/// The request that adds a value to a bundle.
pub open spec fn post_bundle_value_req(
    c: ClientView,
    bundle_type: Seq<char>,
    bundle_id: Seq<char>,
    value_name: Seq<char>,
) -> RequestView {
    post_request(
        c,
        bundle_values_path(bundle_type, bundle_id),
        BUNDLE_VALUE_FIELDS@,
        BodyView::CreateBundleValue { name: value_name },
    )
}

/// A query that holds only the `fields` selector.
fn fields_only(fields: &str) -> (q: Vec<(String, String)>)
    ensures
        query_view(q@) == seq![("fields"@, fields@)],
{
    let mut q: Vec<(String, String)> = Vec::new();
    q.push((String::from_str("fields"), String::from_str(fields)));
    assert(query_view(q@) =~= seq![("fields"@, fields@)]);
    q
}

impl YouTrackClient {
    /// Builds a client for the API root `base_url` (trailing `/` removed),
    /// authenticating with `api_key` as a Bearer token.
    pub fn new(base_url: &str, api_key: &str) -> (r: Result<YouTrackClient, YouTrackError>)
        ensures
            result_view(r) == client_for(base_url@, api_key@),
    {
        let mut auth = String::from_str("Bearer ");
        auth.append(api_key);
        if !header_value_accepts(auth.as_str()) {
            return Err(YouTrackError::InvalidApiKey);
        }
        Ok(YouTrackClient { base_url: trim_end_slashes(base_url), authorization: auth })
    }

    /// The API root, without a trailing `/`.
    pub fn base_url(&self) -> (r: &str)
        ensures
            r@ == self@.base_url,
    {
        self.base_url.as_str()
    }

    /// The value of the `Authorization` header.
    pub fn authorization(&self) -> (r: &str)
        ensures
            r@ == self@.authorization,
    {
        self.authorization.as_str()
    }

    /// The headers that every request of this client carries.
    pub fn request_headers(&self) -> (h: Vec<(String, String)>)
        ensures
            query_view(h@) == request_headers(self@),
    {
        let mut h: Vec<(String, String)> = Vec::new();
        h.push((String::from_str("authorization"), self.authorization.clone()));
        h.push((String::from_str("accept"), String::from_str("application/json")));
        assert(query_view(h@) =~= request_headers(self@));
        h
    }

    /// The URL of `path` below the administration root.
    fn url(&self, path: &str) -> (r: String)
        ensures
            r@ == admin_url(self@, path@),
    {
        let mut url = self.base_url.clone();
        url.append("/admin/");
        url.append(path);
        url
    }

    /// The URL of the custom fields of the project with id `project_id`.
    fn project_fields_url(&self, project_id: &str) -> (r: String)
        ensures
            r@ == admin_url(self@, project_custom_fields_path(project_id@)),
    {
        let mut url = self.base_url.clone();
        url.append("/admin/");
        url.append("projects/");
        url.append(project_id);
        url.append("/customFields");
        assert(url@ =~= admin_url(self@, project_custom_fields_path(project_id@)));
        url
    }

    /// The request that lists global custom fields, with optional pagination.
    pub fn list_custom_fields(&self, skip: Option<u32>, top: Option<u32>) -> (r: ApiRequest)
        ensures
            r@ == list_custom_fields_req(self@, skip, top),
    {
        ApiRequest {
            headers: self.request_headers(),
            method: Method::Get,
            url: self.url("customFieldSettings/customFields"),
            query: make_paged_query(DEFAULT_CUSTOM_FIELD_FIELDS, skip, top),
            body: None,
        }
    }

    /// The request that fetches all global custom fields with their bundle
    /// values, to search them by name.
    pub fn describe_custom_fields_request(&self) -> (r: ApiRequest)
        ensures
            r@ == describe_custom_fields_req(self@),
    {
        ApiRequest {
            headers: self.request_headers(),
            method: Method::Get,
            url: self.url("customFieldSettings/customFields"),
            query: fields_only(DESCRIBE_CUSTOM_FIELD_FIELDS),
            body: None,
        }
    }

    /// The request that lists projects, with optional pagination.
    pub fn list_projects(&self, skip: Option<u32>, top: Option<u32>) -> (r: ApiRequest)
        ensures
            r@ == list_projects_req(self@, skip, top),
    {
        ApiRequest {
            headers: self.request_headers(),
            method: Method::Get,
            url: self.url("projects"),
            query: make_paged_query(DEFAULT_PROJECT_FIELDS, skip, top),
            body: None,
        }
    }

    /// The request that lists the custom fields of the project with id
    /// `project_id`, with optional pagination.
    pub fn list_project_custom_fields(
        &self,
        project_id: &str,
        skip: Option<u32>,
        top: Option<u32>,
    ) -> (r: ApiRequest)
        ensures
            r@ == list_project_custom_fields_req(self@, project_id@, skip, top),
    {
        ApiRequest {
            headers: self.request_headers(),
            method: Method::Get,
            url: self.project_fields_url(project_id),
            query: make_paged_query(DEFAULT_PROJECT_CUSTOM_FIELD_FIELDS, skip, top),
            body: None,
        }
    }

    /// The request that fetches all custom fields of the project with id
    /// `project_id` with their bundle values, to search them by name.
    pub fn describe_project_custom_fields_request(&self, project_id: &str) -> (r: ApiRequest)
        ensures
            r@ == describe_project_custom_fields_req(self@, project_id@),
    {
        ApiRequest {
            headers: self.request_headers(),
            method: Method::Get,
            url: self.project_fields_url(project_id),
            query: fields_only(DESCRIBE_PROJECT_CUSTOM_FIELD_FIELDS),
            body: None,
        }
    }

    /// The request that creates a global custom field.
    pub fn create_custom_field(
        &self,
        name: &str,
        field_type_id: &str,
        auto_attach: Option<bool>,
    ) -> (r: ApiRequest)
        ensures
            r@ == create_custom_field_req(self@, name@, field_type_id@, auto_attach),
    {
        let body = CreateCustomFieldRequest {
            name: String::from_str(name),
            field_type: FieldType { id: Some(String::from_str(field_type_id)) },
            is_auto_attached: auto_attach,
        };
        ApiRequest {
            headers: self.request_headers(),
            method: Method::Post,
            url: self.url("customFieldSettings/customFields"),
            query: fields_only(DESCRIBE_CUSTOM_FIELD_FIELDS),
            body: Some(RequestBody::CreateCustomField(body)),
        }
    }

    /// The request that attaches the global custom field with id
    /// `custom_field_id` to the project with id `project_id`.
    pub fn attach_custom_field_to_project(&self, project_id: &str, custom_field_id: &str) -> (r: ApiRequest)
        ensures
            r@ == attach_custom_field_req(self@, project_id@, custom_field_id@),
    {
        let body = AttachProjectCustomFieldRequest {
            field: CustomFieldRef { id: String::from_str(custom_field_id) },
        };
        ApiRequest {
            headers: self.request_headers(),
            method: Method::Post,
            url: self.project_fields_url(project_id),
            query: fields_only(DESCRIBE_PROJECT_CUSTOM_FIELD_FIELDS),
            body: Some(RequestBody::AttachProjectCustomField(body)),
        }
    }

    /// The request that adds the value `value_name` to the bundle of type
    /// `bundle_type` with id `bundle_id`.
    pub fn post_bundle_value(&self, bundle_type: &str, bundle_id: &str, value_name: &str) -> (r: ApiRequest)
        ensures
            r@ == post_bundle_value_req(self@, bundle_type@, bundle_id@, value_name@),
    {
        let mut url = self.base_url.clone();
        url.append("/admin/");
        url.append("customFieldSettings/bundles/");
        url.append(bundle_type);
        url.append("/");
        url.append(bundle_id);
        url.append("/values");
        assert(url@ =~= admin_url(self@, bundle_values_path(bundle_type@, bundle_id@)));
        let body = CreateBundleValueRequest { name: String::from_str(value_name) };
        ApiRequest {
            headers: self.request_headers(),
            method: Method::Post,
            url,
            query: fields_only(BUNDLE_VALUE_FIELDS),
            body: Some(RequestBody::CreateBundleValue(body)),
        }
    }
}

// ── Status of an answer ──────────────────────────────────────────────

/// Calls `reqwest::StatusCode::from_u16` and `StatusCode::is_success`, which
/// its source defines as the code lying in `200..300`.
#[verifier::external_body]
fn status_code_is_success(code: u16) -> (r: bool)
    requires
        100 <= code <= 999,
    ensures
        r == (200 <= code < 300),
{
    match reqwest::StatusCode::from_u16(code) {
        Ok(status) => status.is_success(),
        Err(_) => false,
    }
}

/// What `StatusCode`'s `Display` writes for a code: the code, a space, and
/// its canonical reason phrase (or `<unknown status code>`).
pub uninterp spec fn status_line(code: u16) -> Seq<char>;

/// Calls `reqwest::StatusCode::from_u16` and renders the code with its
/// `Display`. The contract names the text and states the part that the
/// source's `"{} {}"` format fixes: it begins with the code in decimal and a
/// space; the table of reason phrases is not written out.
#[verifier::external_body]
fn status_code_text(code: u16) -> (r: String)
    requires
        100 <= code <= 999,
    ensures
        r@ == status_line(code),
        has_prefix(r@, decimal(code as nat) + " "@),
{
    match reqwest::StatusCode::from_u16(code) {
        Ok(status) => status.to_string(),
        Err(_) => String::new(),
    }
}

/// Whether an HTTP status code means success (`200..=299`).
pub fn is_success_status(code: u16) -> (r: bool)
    requires
        100 <= code <= 999,
    ensures
        r == (200 <= code <= 299),
{
    status_code_is_success(code)
}

/// The error reported for an answer whose status is not a success, with the
/// body of that answer.
pub fn api_error(code: u16, body: &str) -> (e: YouTrackError)
    requires
        100 <= code <= 999,
    ensures
        e@ == (ErrorView::ApiStatus { status: status_line(code), body: body@ }),
{
    YouTrackError::ApiStatus { status: status_code_text(code), body: String::from_str(body) }
}

/// The outcome of an answer with status `code` and body `body`: success
/// exactly for a status in `200..=299`, else the error that names the status
/// and carries the body.
pub fn check_status(code: u16, body: &str) -> (r: Result<(), YouTrackError>)
    requires
        100 <= code <= 999,
    ensures
        r is Ok <==> 200 <= code <= 299,
        r matches Err(e) ==> e@ == (ErrorView::ApiStatus { status: status_line(code), body: body@ }),
{
    if status_code_is_success(code) {
        Ok(())
    } else {
        Err(api_error(code, body))
    }
}

// ── Finding resources by name ────────────────────────────────────────

/// Whether an optional name equals `needle` once both are mapped to lowercase.
pub open spec fn name_matches(key: Option<Seq<char>>, needle: Seq<char>) -> bool {
    match key {
        Some(k) => lowercase(k) == lowercase(needle),
        None => false,
    }
}

/// The first position at or after `start` whose name matches `needle`.
pub open spec fn first_match_from(keys: Seq<Option<Seq<char>>>, needle: Seq<char>, start: int) -> Option<int>
    decreases keys.len() - start,
{
    if start < 0 || start >= keys.len() {
        None
    } else if name_matches(keys[start], needle) {
        Some(start)
    } else {
        first_match_from(keys, needle, start + 1)
    }
}

/// The first position whose name matches `needle` (case-insensitively).
pub open spec fn first_match(keys: Seq<Option<Seq<char>>>, needle: Seq<char>) -> Option<int> {
    first_match_from(keys, needle, 0)
}

/// The first match lies in range, matches, and no earlier name matches;
/// when there is none, no name matches.
pub proof fn lemma_first_match_from(keys: Seq<Option<Seq<char>>>, needle: Seq<char>, start: int)
    requires
        0 <= start,
    ensures
        match first_match_from(keys, needle, start) {
            Some(i) => start <= i < keys.len() && name_matches(keys[i], needle) && forall|j: int|
                start <= j < i ==> !name_matches(#[trigger] keys[j], needle),
            None => forall|j: int| start <= j < keys.len() ==> !name_matches(#[trigger] keys[j], needle),
        },
    decreases keys.len() - start,
{
    if start < keys.len() && !name_matches(keys[start], needle) {
        lemma_first_match_from(keys, needle, start + 1);
    }
}

/// Lookup by name is case-insensitive and finds the first match: the
/// position it gives holds a name equal to the needle once both are mapped
/// to lowercase, and no earlier name is; when it gives none, no name is.
pub proof fn lemma_first_match(keys: Seq<Option<Seq<char>>>, needle: Seq<char>)
    ensures
        match first_match(keys, needle) {
            Some(i) => 0 <= i < keys.len() && name_matches(keys[i], needle) && forall|j: int|
                0 <= j < i ==> !name_matches(#[trigger] keys[j], needle),
            None => forall|j: int| 0 <= j < keys.len() ==> !name_matches(#[trigger] keys[j], needle),
        },
{
    lemma_first_match_from(keys, needle, 0);
}

/// The values of a list of optional names.
pub open spec fn keys_view(keys: Seq<Option<&str>>) -> Seq<Option<Seq<char>>> {
    keys.map_values(|k: Option<&str>| k.deep_view())
}

/// The position of the first name that matches `needle` case-insensitively.
pub fn first_match_index(keys: &Vec<Option<&str>>, needle: &str) -> (r: Option<usize>)
    ensures
        match r {
            Some(i) => first_match(keys_view(keys@), needle@) == Some(i as int),
            None => first_match(keys_view(keys@), needle@) is None,
        },
{
    let wanted = to_lowercase(needle);
    let mut i: usize = 0;
    while i < keys.len()
        invariant
            i <= keys.len(),
            wanted@ == lowercase(needle@),
            first_match(keys_view(keys@), needle@) == first_match_from(keys_view(keys@), needle@, i as int),
        decreases keys.len() - i,
    {
        match keys[i] {
            Some(k) => {
                if to_lowercase(k) == wanted {
                    return Some(i);
                }
            },
            None => {},
        }
        i = i + 1;
    }
    None
}

/// The names of global custom fields.
pub open spec fn custom_field_names(fs: Seq<CustomField>) -> Seq<Option<Seq<char>>> {
    fs.map_values(|f: CustomField| f.name.deep_view())
}

/// The short names of projects.
pub open spec fn project_short_names(ps: Seq<Project>) -> Seq<Option<Seq<char>>> {
    ps.map_values(|p: Project| p.short_name.deep_view())
}

/// The names of the global fields behind project custom fields.
pub open spec fn project_field_names(fs: Seq<ProjectCustomField>) -> Seq<Option<Seq<char>>> {
    fs.map_values(|f: ProjectCustomField| project_field_name_of(f))
}

/// The project id that the projects give for a short name: the id of the
/// first project whose short name matches, or the error for a missing
/// project or a missing id.
pub open spec fn project_id_for(ps: Seq<Project>, short_name: Seq<char>) -> Result<Seq<char>, ErrorView> {
    match first_match(project_short_names(ps), short_name) {
        Some(i) => match ps[i].id.deep_view() {
            Some(id) => Ok(id),
            None => Err(ErrorView::ProjectHasNoId(short_name)),
        },
        None => Err(ErrorView::ProjectNotFound(short_name)),
    }
}

/// The bundle type that a field type takes, given the field type id in
/// lowercase.
pub open spec fn bundle_type_for(lower: Seq<char>) -> Option<Seq<char>> {
    if has_prefix(lower, "enum"@) {
        Some("enum"@)
    } else if has_prefix(lower, "state"@) {
        Some("state"@)
    } else if has_prefix(lower, "ownedfield"@) || has_prefix(lower, "owned"@) {
        Some("ownedField"@)
    } else if has_prefix(lower, "version"@) {
        Some("version"@)
    } else if has_prefix(lower, "build"@) {
        Some("build"@)
    } else {
        None
    }
}

/// The bundle type of a field type id, or the error for a type without bundles.
pub open spec fn bundle_type_result(field_type_id: Seq<char>) -> Result<Seq<char>, ErrorView> {
    match bundle_type_for(lowercase(field_type_id)) {
        Some(t) => Ok(t),
        None => Err(ErrorView::NoBundleValues(field_type_id)),
    }
}

/// The request that adds `value` to the default bundle of the global custom
/// field named `field` among `fs`, or the error that stops it.
pub open spec fn add_value_to_custom_field_result(
    c: ClientView,
    fs: Seq<CustomField>,
    field: Seq<char>,
    value: Seq<char>,
) -> Result<RequestView, ErrorView> {
    match first_match(custom_field_names(fs), field) {
        None => Err(ErrorView::CustomFieldNotFound(field)),
        Some(i) => match field_type_id_of(fs[i]) {
            None => Err(ErrorView::NoFieldType(field)),
            Some(ft) => match bundle_type_result(ft) {
                Err(e) => Err(e),
                Ok(bt) => match default_bundle_id_of(fs[i]) {
                    None => Err(ErrorView::NoBundle(field)),
                    Some(bid) => Ok(post_bundle_value_req(c, bt, bid, value)),
                },
            },
        },
    }
}

/// The request that adds `value` to the bundle of the custom field named
/// `field` among the fields `fs` of project `project`, or the error that
/// stops it.
pub open spec fn add_value_to_project_custom_field_result(
    c: ClientView,
    fs: Seq<ProjectCustomField>,
    project: Seq<char>,
    field: Seq<char>,
    value: Seq<char>,
) -> Result<RequestView, ErrorView> {
    match first_match(project_field_names(fs), field) {
        None => Err(ErrorView::ProjectCustomFieldNotFound { field, project }),
        Some(i) => match project_field_type_id_of(fs[i]) {
            None => Err(ErrorView::NoFieldType(field)),
            Some(ft) => match bundle_type_result(ft) {
                Err(e) => Err(e),
                Ok(bt) => match (match fs[i].bundle {
                    Some(b) => b.id.deep_view(),
                    None => None,
                }) {
                    None => Err(ErrorView::NoBundle(field)),
                    Some(bid) => Ok(post_bundle_value_req(c, bt, bid, value)),
                },
            },
        },
    }
}

/// The bundle type for a field type id already mapped to lowercase.
pub fn bundle_type_from_lowercase(lower: &str) -> (r: Option<&'static str>)
    ensures
        r.deep_view() == bundle_type_for(lower@),
{
    if starts_with(lower, "enum") {
        Some("enum")
    } else if starts_with(lower, "state") {
        Some("state")
    } else if starts_with(lower, "ownedfield") || starts_with(lower, "owned") {
        Some("ownedField")
    } else if starts_with(lower, "version") {
        Some("version")
    } else if starts_with(lower, "build") {
        Some("build")
    } else {
        None
    }
}

impl YouTrackClient {
    /// The names of global custom fields.
    fn custom_field_keys(all: &Vec<CustomField>) -> (keys: Vec<Option<&str>>)
        ensures
            keys_view(keys@) == custom_field_names(all@),
    {
        let mut keys: Vec<Option<&str>> = Vec::new();
        let mut i: usize = 0;
        while i < all.len()
            invariant
                i <= all.len(),
                keys@.len() == i,
                forall|j: int| 0 <= j < i ==> (#[trigger] keys@[j]).deep_view() == all@[j].name.deep_view(),
            decreases all.len() - i,
        {
            let key = match &all[i].name {
                Some(n) => Some(n.as_str()),
                None => None,
            };
            keys.push(key);
            i = i + 1;
        }
        assert(keys_view(keys@) =~= custom_field_names(all@));
        keys
    }

    /// The short names of projects.
    fn project_keys(all: &Vec<Project>) -> (keys: Vec<Option<&str>>)
        ensures
            keys_view(keys@) == project_short_names(all@),
    {
        let mut keys: Vec<Option<&str>> = Vec::new();
        let mut i: usize = 0;
        while i < all.len()
            invariant
                i <= all.len(),
                keys@.len() == i,
                forall|j: int| 0 <= j < i ==> (#[trigger] keys@[j]).deep_view() == all@[j].short_name.deep_view(),
            decreases all.len() - i,
        {
            let key = match &all[i].short_name {
                Some(n) => Some(n.as_str()),
                None => None,
            };
            keys.push(key);
            i = i + 1;
        }
        assert(keys_view(keys@) =~= project_short_names(all@));
        keys
    }

    /// The names of the global fields behind project custom fields.
    fn project_field_keys(all: &Vec<ProjectCustomField>) -> (keys: Vec<Option<&str>>)
        ensures
            keys_view(keys@) == project_field_names(all@),
    {
        let mut keys: Vec<Option<&str>> = Vec::new();
        let mut i: usize = 0;
        while i < all.len()
            invariant
                i <= all.len(),
                keys@.len() == i,
                forall|j: int| 0 <= j < i ==> (#[trigger] keys@[j]).deep_view() == project_field_name_of(all@[j]),
            decreases all.len() - i,
        {
            keys.push(all[i].field_name());
            i = i + 1;
        }
        assert(keys_view(keys@) =~= project_field_names(all@));
        keys
    }

    /// The position of the first global custom field whose name matches
    /// `name` case-insensitively.
    pub fn custom_field_position(all: &Vec<CustomField>, name: &str) -> (r: Option<usize>)
        ensures
            match r {
                Some(i) => i < all@.len() && first_match(custom_field_names(all@), name@) == Some(i as int),
                None => first_match(custom_field_names(all@), name@) is None,
            },
    {
        let keys = Self::custom_field_keys(all);
        proof {
            lemma_first_match(custom_field_names(all@), name@);
        }
        first_match_index(&keys, name)
    }

    /// The position of the first project whose short name matches `name`
    /// case-insensitively.
    pub fn project_position(all: &Vec<Project>, name: &str) -> (r: Option<usize>)
        ensures
            match r {
                Some(i) => i < all@.len() && first_match(project_short_names(all@), name@) == Some(i as int),
                None => first_match(project_short_names(all@), name@) is None,
            },
    {
        let keys = Self::project_keys(all);
        proof {
            lemma_first_match(project_short_names(all@), name@);
        }
        first_match_index(&keys, name)
    }

    /// The position of the first project custom field whose field name
    /// matches `name` case-insensitively.
    pub fn project_custom_field_position(all: &Vec<ProjectCustomField>, name: &str) -> (r: Option<usize>)
        ensures
            match r {
                Some(i) => i < all@.len() && first_match(project_field_names(all@), name@) == Some(i as int),
                None => first_match(project_field_names(all@), name@) is None,
            },
    {
        let keys = Self::project_field_keys(all);
        proof {
            lemma_first_match(project_field_names(all@), name@);
        }
        first_match_index(&keys, name)
    }

    /// The global custom field named `name` (case-insensitively) among all
    /// fields fetched with their bundle values; the first one when several
    /// match.
    pub fn get_custom_field_by_name(all: Vec<CustomField>, name: &str) -> (r: Option<CustomField>)
        ensures
            match first_match(custom_field_names(all@), name@) {
                Some(i) => r == Some(all@[i]),
                None => r is None,
            },
    {
        let mut all = all;
        match Self::custom_field_position(&all, name) {
            Some(i) => Some(all.remove(i)),
            None => None,
        }
    }

    /// The project whose short name is `name` (case-insensitively) among all
    /// projects; the first one when several match.
    pub fn get_project_by_name(all: Vec<Project>, name: &str) -> (r: Option<Project>)
        ensures
            match first_match(project_short_names(all@), name@) {
                Some(i) => r == Some(all@[i]),
                None => r is None,
            },
    {
        let mut all = all;
        match Self::project_position(&all, name) {
            Some(i) => Some(all.remove(i)),
            None => None,
        }
    }

    /// The project custom field whose field name is `name`
    /// (case-insensitively) among all fields of a project; the first one
    /// when several match.
    pub fn get_project_custom_field_by_name(all: Vec<ProjectCustomField>, name: &str) -> (r: Option<ProjectCustomField>)
        ensures
            match first_match(project_field_names(all@), name@) {
                Some(i) => r == Some(all@[i]),
                None => r is None,
            },
    {
        let mut all = all;
        match Self::project_custom_field_position(&all, name) {
            Some(i) => Some(all.remove(i)),
            None => None,
        }
    }

    /// The id of the project with short name `short_name` among all projects.
    pub fn resolve_project_id(projects: &Vec<Project>, short_name: &str) -> (r: Result<String, YouTrackError>)
        ensures
            result_view(r) == project_id_for(projects@, short_name@),
    {
        match Self::project_position(projects, short_name) {
            None => Err(YouTrackError::ProjectNotFound(String::from_str(short_name))),
            Some(i) => match &projects[i].id {
                Some(id) => Ok(id.clone()),
                None => Err(YouTrackError::ProjectHasNoId(String::from_str(short_name))),
            },
        }
    }

    /// The bundle type (the URL segment of the bundle endpoints) of a field
    /// type id such as `enum[1]` or `state[1]`, compared case-insensitively.
    pub fn bundle_type_from_field_type(field_type_id: &str) -> (r: Result<&'static str, YouTrackError>)
        ensures
            match r {
                Ok(t) => bundle_type_result(field_type_id@) == Ok::<Seq<char>, ErrorView>(t@),
                Err(e) => bundle_type_result(field_type_id@) == Err::<Seq<char>, ErrorView>(e@),
            },
    {
        let lower = to_lowercase(field_type_id);
        match bundle_type_from_lowercase(lower.as_str()) {
            Some(t) => Ok(t),
            None => Err(YouTrackError::NoBundleValues(String::from_str(field_type_id))),
        }
    }

    /// The request that adds `value_name` to the default bundle of the global
    /// custom field `field_name`, given all global fields with their bundle
    /// values.
    pub fn add_value_to_custom_field(
        &self,
        all: &Vec<CustomField>,
        field_name: &str,
        value_name: &str,
    ) -> (r: Result<ApiRequest, YouTrackError>)
        ensures
            result_view(r) == add_value_to_custom_field_result(self@, all@, field_name@, value_name@),
    {
        let i = match Self::custom_field_position(all, field_name) {
            Some(i) => i,
            None => return Err(YouTrackError::CustomFieldNotFound(String::from_str(field_name))),
        };
        let cf = &all[i];
        let field_type_id = match cf.field_type_id() {
            Some(ft) => ft,
            None => return Err(YouTrackError::NoFieldType(String::from_str(field_name))),
        };
        let bundle_type = match Self::bundle_type_from_field_type(field_type_id) {
            Ok(t) => t,
            Err(e) => return Err(e),
        };
        let bundle_id = match cf.default_bundle_id() {
            Some(b) => b,
            None => return Err(YouTrackError::NoBundle(String::from_str(field_name))),
        };
        Ok(self.post_bundle_value(bundle_type, bundle_id, value_name))
    }

    /// The request that adds `value_name` to the bundle of the custom field
    /// `field_name` of project `project_short_name`, given all fields of that
    /// project with their bundle values.
    pub fn add_value_to_project_custom_field(
        &self,
        all: &Vec<ProjectCustomField>,
        project_short_name: &str,
        field_name: &str,
        value_name: &str,
    ) -> (r: Result<ApiRequest, YouTrackError>)
        ensures
            result_view(r) == add_value_to_project_custom_field_result(
                self@,
                all@,
                project_short_name@,
                field_name@,
                value_name@,
            ),
    {
        let i = match Self::project_custom_field_position(all, field_name) {
            Some(i) => i,
            None => return Err(YouTrackError::ProjectCustomFieldNotFound {
                field: String::from_str(field_name),
                project: String::from_str(project_short_name),
            }),
        };
        let pcf = &all[i];
        let field_type_id = match pcf.field_type_id() {
            Some(ft) => ft,
            None => return Err(YouTrackError::NoFieldType(String::from_str(field_name))),
        };
        let bundle_type = match Self::bundle_type_from_field_type(field_type_id) {
            Ok(t) => t,
            Err(e) => return Err(e),
        };
        let bundle_id = match pcf.bundle_id() {
            Some(b) => b,
            None => return Err(YouTrackError::NoBundle(String::from_str(field_name))),
        };
        Ok(self.post_bundle_value(bundle_type, bundle_id, value_name))
    }
}

// ── Laws ─────────────────────────────────────────────────────────────

/// Lookup by name ignores case: two needles that map to the same lowercase
/// string find the same position.
pub proof fn lemma_first_match_ignores_case(keys: Seq<Option<Seq<char>>>, a: Seq<char>, b: Seq<char>)
    requires
        lowercase(a) == lowercase(b),
    ensures
        first_match(keys, a) == first_match(keys, b),
{
    lemma_first_match_from_ignores_case(keys, a, b, 0);
}

/// Lookup from a position ignores the case of the needle.
proof fn lemma_first_match_from_ignores_case(keys: Seq<Option<Seq<char>>>, a: Seq<char>, b: Seq<char>, start: int)
    requires
        lowercase(a) == lowercase(b),
    ensures
        first_match_from(keys, a, start) == first_match_from(keys, b, start),
    decreases keys.len() - start,
{
    if 0 <= start < keys.len() {
        lemma_first_match_from_ignores_case(keys, a, b, start + 1);
    }
}

/// The bundle type of a field type ignores case: field type ids that map to
/// the same lowercase string take the same bundle type, or are both refused.
pub proof fn lemma_bundle_type_ignores_case(a: Seq<char>, b: Seq<char>)
    requires
        lowercase(a) == lowercase(b),
    ensures
        bundle_type_result(a) is Ok <==> bundle_type_result(b) is Ok,
        bundle_type_result(a) is Ok ==> bundle_type_result(a) == bundle_type_result(b),
{
}

/// Pagination is optional: a listing asks for its fields first, then for
/// `$skip` exactly when a skip is given and `$top` exactly when a limit is
/// given, each with the number in decimal.
pub proof fn lemma_paged_query(fields: Seq<char>, skip: Option<u32>, top: Option<u32>)
    ensures
        paged_query(fields, skip, top).len() == 1 + (if skip is Some { 1int } else { 0 }) + (if top is Some { 1int } else { 0 }),
        paged_query(fields, skip, top)[0] == ("fields"@, fields),
        skip matches Some(s) ==> paged_query(fields, skip, top)[1] == ("$skip"@, decimal(s as nat)),
        top matches Some(t) ==> paged_query(fields, skip, top).last() == ("$top"@, decimal(t as nat)),
{
}

/// Whether a request is one that client `c` sends: it carries the client's
/// headers (its credentials and `Accept: application/json`) and its URL lies
/// below the administration root `/admin/` of the client's API root.
pub open spec fn sent_by(c: ClientView, r: RequestView) -> bool {
    r.headers == request_headers(c) && has_prefix(r.url, c.base_url + "/admin/"@)
}

/// Every request with or without a body that a client builds is one that it
/// sends, whatever the path, query or body.
pub proof fn lemma_built_requests_sent_by(c: ClientView)
    ensures
        forall|path: Seq<char>, query: Seq<(Seq<char>, Seq<char>)>|
            sent_by(c, #[trigger] get_request(c, path, query)),
        forall|path: Seq<char>, fields: Seq<char>, body: BodyView|
            sent_by(c, #[trigger] post_request(c, path, fields, body)),
{
    assert forall|path: Seq<char>, query: Seq<(Seq<char>, Seq<char>)>|
        sent_by(c, #[trigger] get_request(c, path, query)) by {
        assert(admin_url(c, path).subrange(0, (c.base_url + "/admin/"@).len() as int) =~= c.base_url + "/admin/"@);
    }
    assert forall|path: Seq<char>, fields: Seq<char>, body: BodyView|
        sent_by(c, #[trigger] post_request(c, path, fields, body)) by {
        assert(admin_url(c, path).subrange(0, (c.base_url + "/admin/"@).len() as int) =~= c.base_url + "/admin/"@);
    }
}

/// Every request that a client builds carries its `Authorization` header and
/// `Accept: application/json`, and goes to a URL below `/admin/` of its API
/// root: the listings, the lookups, the creations, the attachment, and the
/// bundle values, including those that adding a value to a field decides.
pub proof fn lemma_requests_of_client(
    c: ClientView,
    project_id: Seq<char>,
    name: Seq<char>,
    field_type_id: Seq<char>,
    auto_attach: Option<bool>,
    custom_field_id: Seq<char>,
    bundle_type: Seq<char>,
    bundle_id: Seq<char>,
    value_name: Seq<char>,
    skip: Option<u32>,
    top: Option<u32>,
    fields: Seq<CustomField>,
    project_fields: Seq<ProjectCustomField>,
)
    ensures
        sent_by(c, list_custom_fields_req(c, skip, top)),
        sent_by(c, describe_custom_fields_req(c)),
        sent_by(c, list_projects_req(c, skip, top)),
        sent_by(c, list_project_custom_fields_req(c, project_id, skip, top)),
        sent_by(c, describe_project_custom_fields_req(c, project_id)),
        sent_by(c, create_custom_field_req(c, name, field_type_id, auto_attach)),
        sent_by(c, attach_custom_field_req(c, project_id, custom_field_id)),
        sent_by(c, post_bundle_value_req(c, bundle_type, bundle_id, value_name)),
        add_value_to_custom_field_result(c, fields, name, value_name) matches Ok(r) ==> sent_by(c, r),
        add_value_to_project_custom_field_result(c, project_fields, project_id, name, value_name) matches Ok(r)
            ==> sent_by(c, r),
{
    lemma_built_requests_sent_by(c);
}

/// Adding a value to a field posts exactly the value asked for: when it
/// succeeds, the request is a POST whose body creates a bundle value named
/// `value` (whatever the field is called), sent to the bundle endpoints below
/// the client's administration root, and aimed at the bundle of the first
/// field whose name matches `field`.
pub proof fn lemma_add_value_posts_the_value(
    c: ClientView,
    fs: Seq<CustomField>,
    pfs: Seq<ProjectCustomField>,
    project: Seq<char>,
    field: Seq<char>,
    value: Seq<char>,
)
    ensures
        add_value_to_custom_field_result(c, fs, field, value) matches Ok(r) ==> {
            &&& r.method == Method::Post
            &&& r.body == Some(BodyView::CreateBundleValue { name: value })
            &&& has_prefix(r.url, c.base_url + "/admin/"@ + "customFieldSettings/bundles/"@)
            &&& first_match(custom_field_names(fs), field) matches Some(i) && default_bundle_id_of(fs[i]) matches Some(bid)
                && has_suffix(r.url, "/"@ + bid + "/values"@)
        },
        add_value_to_project_custom_field_result(c, pfs, project, field, value) matches Ok(r) ==> {
            &&& r.method == Method::Post
            &&& r.body == Some(BodyView::CreateBundleValue { name: value })
            &&& has_prefix(r.url, c.base_url + "/admin/"@ + "customFieldSettings/bundles/"@)
            &&& first_match(project_field_names(pfs), field) matches Some(i) && (match pfs[i].bundle {
                Some(b) => b.id.deep_view(),
                None => None,
            }) matches Some(bid) && has_suffix(r.url, "/"@ + bid + "/values"@)
        },
{
    if let Ok(r) = add_value_to_custom_field_result(c, fs, field, value) {
        let i = first_match(custom_field_names(fs), field)->Some_0;
        let ft = field_type_id_of(fs[i])->Some_0;
        let bt = bundle_type_result(ft)->Ok_0;
        let bid = default_bundle_id_of(fs[i])->Some_0;
        let pre = c.base_url + "/admin/"@ + "customFieldSettings/bundles/"@;
        let suf = "/"@ + bid + "/values"@;
        assert(r.url =~= pre + bt + suf);
        assert(r.url.subrange(0, pre.len() as int) =~= pre);
        assert(r.url.subrange(r.url.len() - suf.len(), r.url.len() as int) =~= suf);
    }
    if let Ok(r) = add_value_to_project_custom_field_result(c, pfs, project, field, value) {
        let i = first_match(project_field_names(pfs), field)->Some_0;
        let ft = project_field_type_id_of(pfs[i])->Some_0;
        let bt = bundle_type_result(ft)->Ok_0;
        let bid = (match pfs[i].bundle {
            Some(b) => b.id.deep_view(),
            None => None,
        })->Some_0;
        let pre = c.base_url + "/admin/"@ + "customFieldSettings/bundles/"@;
        let suf = "/"@ + bid + "/values"@;
        assert(r.url =~= pre + bt + suf);
        assert(r.url.subrange(0, pre.len() as int) =~= pre);
        assert(r.url.subrange(r.url.len() - suf.len(), r.url.len() as int) =~= suf);
    }
}

/// Every client built by `new` talks to an API root without a trailing
/// slash and authenticates with the key as a Bearer token; it is refused
/// exactly when the key cannot stand in a header.
pub proof fn lemma_client_for(base_url: Seq<char>, api_key: Seq<char>)
    ensures
        client_for(base_url, api_key) is Ok <==> valid_header_value(bearer(api_key)),
        client_for(base_url, api_key) matches Ok(c) ==> {
            &&& c.authorization == "Bearer "@ + api_key
            &&& request_headers(c) == seq![("authorization"@, "Bearer "@ + api_key), ("accept"@, "application/json"@)]
            &&& (c.base_url.len() > 0 ==> c.base_url.last() != '/')
            &&& c.base_url == trim_trailing_slashes(base_url)
        },
{
    crate::text::lemma_trim_trailing_slashes(base_url);
}

} // verus!
