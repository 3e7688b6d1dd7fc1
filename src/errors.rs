use crate::text::prefixed;
use vstd::prelude::*;

verus! {

/// The closed set of failure categories reported across the service boundary.
#[derive(Debug)]
pub enum AppError {
    NotFound(String),
    Unauthorized(String),
    Forbidden(String),
    BadRequest(String),
    Conflict(String),
    Validation(Vec<String>),
    /// An internal failure, carried as the rendered text of its cause.
    Internal(String),
}

/// Body of an error response: the canonical reason of the status and a
/// human-readable message.
#[derive(Debug)]
pub struct ErrorBody {
    pub error: String,
    pub message: String,
}

/// Status codes that classification produces.
pub open spec fn is_app_status(code: u16) -> bool {
    code == 400 || code == 401 || code == 403 || code == 404 || code == 409 || code == 422
        || code == 500
}

/// Canonical reason phrase of each status code in use.
pub open spec fn reason_text(code: u16) -> Seq<char> {
    if code == 400 {
        "Bad Request"@
    } else if code == 401 {
        "Unauthorized"@
    } else if code == 403 {
        "Forbidden"@
    } else if code == 404 {
        "Not Found"@
    } else if code == 409 {
        "Conflict"@
    } else if code == 422 {
        "Unprocessable Entity"@
    } else if code == 500 {
        "Internal Server Error"@
    } else {
        "error"@
    }
}

/// Names std's `Debug` rendering of a list of strings (brackets, quoted and
/// escaped items, `", "` between them).
pub uninterp spec fn debug_list_text(items: Seq<Seq<char>>) -> Seq<char>;

/// The views of a list of strings.
pub open spec fn texts(items: Seq<String>) -> Seq<Seq<char>> {
    items.map_values(|s: String| s@)
}

/// Relies on the `http` crate (through axum): `StatusCode::from_u16` accepts
/// every code in 100..=999, and `StatusCode::canonical_reason` gives the IANA
/// reason phrase of the codes used here.
#[verifier::external_body]
fn canonical_reason(code: u16) -> (r: Option<&'static str>)
    ensures
        is_app_status(code) ==> (r is Some && r->0@ == reason_text(code)),
{
    match axum::http::StatusCode::from_u16(code) {
        Ok(status) => status.canonical_reason(),
        Err(_) => None,
    }
}

/// Relies on std's `Debug` for `Vec<String>`, through `format!`.
#[verifier::external_body]
fn debug_list(items: &Vec<String>) -> (r: String)
    ensures
        r@ == debug_list_text(texts(items@)),
{
    format!("{:?}", items)
}

pub open spec fn prefix_of(e: AppError) -> Seq<char> {
    match e {
        AppError::NotFound(_) => "not found: "@,
        AppError::Unauthorized(_) => "unauthorized: "@,
        AppError::Forbidden(_) => "forbidden: "@,
        AppError::BadRequest(_) => "bad request: "@,
        AppError::Conflict(_) => "conflict: "@,
        AppError::Validation(_) => "validation error: "@,
        AppError::Internal(_) => "internal server error: "@,
    }
}

/// The variable part of the message: the detail, the rendered list, or the cause.
pub open spec fn detail_of(e: AppError) -> Seq<char> {
    match e {
        AppError::NotFound(d) => d@,
        AppError::Unauthorized(d) => d@,
        AppError::Forbidden(d) => d@,
        AppError::BadRequest(d) => d@,
        AppError::Conflict(d) => d@,
        AppError::Validation(items) => debug_list_text(texts(items@)),
        AppError::Internal(cause) => cause@,
    }
}

pub open spec fn status_of(e: AppError) -> u16 {
    match e {
        AppError::NotFound(_) => 404,
        AppError::Unauthorized(_) => 401,
        AppError::Forbidden(_) => 403,
        AppError::BadRequest(_) => 400,
        AppError::Conflict(_) => 409,
        AppError::Validation(_) => 422,
        AppError::Internal(_) => 500,
    }
}

pub open spec fn message_of(e: AppError) -> Seq<char> {
    prefix_of(e) + detail_of(e)
}

/// The message of a validation error, from the already rendered list.
pub fn validation_message(rendered_list: &str) -> (r: String)
    ensures
        r@ == "validation error: "@ + rendered_list@,
{
    prefixed("validation error: ", rendered_list)
}

impl AppError {
    /// The HTTP status code of the error's category.
    pub fn status_code(&self) -> (r: u16)
        ensures
            r == status_of(*self),
            is_app_status(r),
    {
        match self {
            AppError::NotFound(_) => 404,
            AppError::Unauthorized(_) => 401,
            AppError::Forbidden(_) => 403,
            AppError::BadRequest(_) => 400,
            AppError::Conflict(_) => 409,
            AppError::Validation(_) => 422,
            AppError::Internal(_) => 500,
        }
    }

    /// The human-readable message: a fixed prefix per category and its payload.
    pub fn message(&self) -> (r: String)
        ensures
            r@ == message_of(*self),
    {
        match self {
            AppError::NotFound(d) => prefixed("not found: ", d.as_str()),
            AppError::Unauthorized(d) => prefixed("unauthorized: ", d.as_str()),
            AppError::Forbidden(d) => prefixed("forbidden: ", d.as_str()),
            AppError::BadRequest(d) => prefixed("bad request: ", d.as_str()),
            AppError::Conflict(d) => prefixed("conflict: ", d.as_str()),
            AppError::Validation(items) => {
                let rendered = debug_list(items);
                validation_message(rendered.as_str())
            },
            AppError::Internal(cause) => prefixed("internal server error: ", cause.as_str()),
        }
    }

    /// The status, the canonical reason of that status, and the message.
    /// The message of an internal error carries its cause's rendered text;
    /// a failure site that must not show detail to callers wraps a cause that
    /// holds none.
    pub fn classify(&self) -> (r: (u16, ErrorBody))
        ensures
            r.0 == status_of(*self),
            r.1.error@ == reason_text(r.0),
            r.1.message@ == message_of(*self),
    {
        let status = self.status_code();
        let reason = match canonical_reason(status) {
            Some(text) => text,
            None => "error",
        };
        (status, ErrorBody { error: reason.to_owned(), message: self.message() })
    }
}

/// Classification is total and pure: every error gets one of the seven status
/// codes, equal errors get equal status, reason and message, and errors that
/// share a status share its reason.
pub proof fn lemma_classification_is_function(a: AppError, b: AppError)
    ensures
        is_app_status(status_of(a)),
        a == b ==> status_of(a) == status_of(b) && reason_text(status_of(a)) == reason_text(
            status_of(b),
        ) && message_of(a) == message_of(b),
        status_of(a) == status_of(b) ==> reason_text(status_of(a)) == reason_text(status_of(b)),
{
}

/// `needle` stands in `hay` at position `i`.
pub open spec fn occurs_at(hay: Seq<char>, needle: Seq<char>, i: int) -> bool {
    &&& 0 <= i
    &&& i + needle.len() <= hay.len()
    &&& hay.subrange(i, i + needle.len()) == needle
}

/// The message of an internal error is the fixed prefix followed by the
/// cause's own text and nothing else: any text found past the prefix is found
/// in the cause, at the same offset from its start.
pub proof fn lemma_internal_message_shows_only_cause(cause: String, secret: Seq<char>, i: int)
    requires
        occurs_at(message_of(AppError::Internal(cause)), secret, i),
        i >= "internal server error: "@.len(),
    ensures
        message_of(AppError::Internal(cause)) == "internal server error: "@ + cause@,
        occurs_at(cause@, secret, i - "internal server error: "@.len()),
{
    let p = "internal server error: "@;
    let m = message_of(AppError::Internal(cause));
    let j = i - p.len();
    assert(m.subrange(i, i + secret.len()) =~= cause@.subrange(j, j + secret.len()));
}

} // verus!
