//! The errors that the library reports, and their messages.

use vstd::prelude::*;

verus! {

/// Everything that can go wrong in the library's own logic. Transport
/// failures (a request that could not be sent, a body that could not be
/// parsed) belong to the caller that performs the I/O.
#[derive(Debug)]
pub enum YouTrackError {
    /// The API key is not available.
    MissingApiKey,
    /// No base URL was given.
    MissingBaseUrl,
    /// The API key holds characters that a header value cannot carry.
    InvalidApiKey,
    /// The server answered with a status outside `200..=299`.
    ApiStatus { status: String, body: String },
    /// No project has the given short name.
    ProjectNotFound(String),
    /// The project with the given short name has no id.
    ProjectHasNoId(String),
    /// No global custom field has the given name.
    CustomFieldNotFound(String),
    /// The project has no custom field of the given name.
    ProjectCustomFieldNotFound { field: String, project: String },
    /// The custom field of the given name has no field type.
    NoFieldType(String),
    /// The field type does not take bundle values.
    NoBundleValues(String),
    /// The custom field of the given name has no bundle.
    NoBundle(String),
    /// The field just created came back without an id.
    CreatedFieldHasNoId,
    /// A response of another kind than the one asked for was handed back.
    UnexpectedResponse,
}

/// The mathematical value of an error: its variant and its texts.
pub enum ErrorView {
    MissingApiKey,
    MissingBaseUrl,
    InvalidApiKey,
    ApiStatus { status: Seq<char>, body: Seq<char> },
    ProjectNotFound(Seq<char>),
    ProjectHasNoId(Seq<char>),
    CustomFieldNotFound(Seq<char>),
    ProjectCustomFieldNotFound { field: Seq<char>, project: Seq<char> },
    NoFieldType(Seq<char>),
    NoBundleValues(Seq<char>),
    NoBundle(Seq<char>),
    CreatedFieldHasNoId,
    UnexpectedResponse,
}

impl View for YouTrackError {
    type V = ErrorView;

    open spec fn view(&self) -> ErrorView {
        match self {
            YouTrackError::MissingApiKey => ErrorView::MissingApiKey,
            YouTrackError::MissingBaseUrl => ErrorView::MissingBaseUrl,
            YouTrackError::InvalidApiKey => ErrorView::InvalidApiKey,
            YouTrackError::ApiStatus { status, body } => ErrorView::ApiStatus {
                status: status@,
                body: body@,
            },
            YouTrackError::ProjectNotFound(s) => ErrorView::ProjectNotFound(s@),
            YouTrackError::ProjectHasNoId(s) => ErrorView::ProjectHasNoId(s@),
            YouTrackError::CustomFieldNotFound(s) => ErrorView::CustomFieldNotFound(s@),
            YouTrackError::ProjectCustomFieldNotFound { field, project } =>
                ErrorView::ProjectCustomFieldNotFound { field: field@, project: project@ },
            YouTrackError::NoFieldType(s) => ErrorView::NoFieldType(s@),
            YouTrackError::NoBundleValues(s) => ErrorView::NoBundleValues(s@),
            YouTrackError::NoBundle(s) => ErrorView::NoBundle(s@),
            YouTrackError::CreatedFieldHasNoId => ErrorView::CreatedFieldHasNoId,
            YouTrackError::UnexpectedResponse => ErrorView::UnexpectedResponse,
        }
    }
}

/// The message of an error, as the tools print it after `error: `.
pub open spec fn error_message(e: ErrorView) -> Seq<char> {
    match e {
        ErrorView::MissingApiKey => "YOUTRACK_API_KEY env var is not set"@,
        ErrorView::MissingBaseUrl =>
            "YouTrack base URL is not set. Use --base-url or set the YOUTRACK_BASE_URL env var"@,
        ErrorView::InvalidApiKey => "invalid API key characters: failed to parse header value"@,
        ErrorView::ApiStatus { status, body } => "YouTrack API returned "@ + status + ": "@ + body,
        ErrorView::ProjectNotFound(s) => "project with short name '"@ + s + "' not found"@,
        ErrorView::ProjectHasNoId(s) => "project '"@ + s + "' has no ID"@,
        ErrorView::CustomFieldNotFound(s) => "custom field '"@ + s + "' not found"@,
        ErrorView::ProjectCustomFieldNotFound { field, project } =>
            "custom field '"@ + field + "' not found in project '"@ + project + "'"@,
        ErrorView::NoFieldType(s) => "custom field '"@ + s + "' has no field type"@,
        ErrorView::NoBundleValues(s) => "field type '"@ + s + "' does not support bundle values"@,
        ErrorView::NoBundle(s) => "custom field '"@ + s + "' has no associated bundle"@,
        ErrorView::CreatedFieldHasNoId => "created field has no ID"@,
        ErrorView::UnexpectedResponse => "unexpected response"@,
    }
}

/// `a`, `b` and `c` joined into one string.
fn join3(a: &str, b: &str, c: &str) -> (r: String)
    ensures
        r@ == a@ + b@ + c@,
{
    let mut r = String::from_str(a);
    r.append(b);
    r.append(c);
    r
}

impl YouTrackError {
    /// The message of this error.
    pub fn message(&self) -> (r: String)
        ensures
            r@ == error_message(self@),
    {
        match self {
            YouTrackError::MissingApiKey => String::from_str("YOUTRACK_API_KEY env var is not set"),
            YouTrackError::MissingBaseUrl => String::from_str(
                "YouTrack base URL is not set. Use --base-url or set the YOUTRACK_BASE_URL env var",
            ),
            YouTrackError::InvalidApiKey => String::from_str(
                "invalid API key characters: failed to parse header value",
            ),
            YouTrackError::ApiStatus { status, body } => {
                let mut r = join3("YouTrack API returned ", status.as_str(), ": ");
                r.append(body.as_str());
                r
            },
            YouTrackError::ProjectNotFound(s) => join3(
                "project with short name '",
                s.as_str(),
                "' not found",
            ),
            YouTrackError::ProjectHasNoId(s) => join3("project '", s.as_str(), "' has no ID"),
            YouTrackError::CustomFieldNotFound(s) => join3(
                "custom field '",
                s.as_str(),
                "' not found",
            ),
            YouTrackError::ProjectCustomFieldNotFound { field, project } => {
                let mut r = join3("custom field '", field.as_str(), "' not found in project '");
                r.append(project.as_str());
                r.append("'");
                r
            },
            YouTrackError::NoFieldType(s) => join3(
                "custom field '",
                s.as_str(),
                "' has no field type",
            ),
            YouTrackError::NoBundleValues(s) => join3(
                "field type '",
                s.as_str(),
                "' does not support bundle values",
            ),
            YouTrackError::NoBundle(s) => join3(
                "custom field '",
                s.as_str(),
                "' has no associated bundle",
            ),
            YouTrackError::CreatedFieldHasNoId => String::from_str("created field has no ID"),
            YouTrackError::UnexpectedResponse => String::from_str("unexpected response"),
        }
    }
}

} // verus!
