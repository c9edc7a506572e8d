use vstd::prelude::*;
use vstd::string::StringExecFns;

verus! {

/// The status class a failure is reported with.
#[derive(Clone, Copy, Debug, PartialEq, Eq, Structural)]
pub enum StatusCode {
    /// Malformed or missing input, and (by default) lookups of absent posts.
    BadRequest,
    /// A resource that does not exist.
    NotFound,
    /// Store, transport or rendering failures.
    InternalServerError,
}

impl StatusCode {
    /// The numeric HTTP status of this class.
    pub open spec fn spec_code(self) -> u16 {
        match self {
            StatusCode::BadRequest => 400,
            StatusCode::NotFound => 404,
            StatusCode::InternalServerError => 500,
        }
    }

    pub fn as_u16(&self) -> (r: u16)
        ensures
            r == self.spec_code(),
    {
        match self {
            StatusCode::BadRequest => 400,
            StatusCode::NotFound => 404,
            StatusCode::InternalServerError => 500,
        }
    }
}

/// The single error value every repository and rendering operation returns.
#[derive(Debug)]
pub struct AppError {
    pub err_msg: String,
    pub status_code: StatusCode,
}

impl AppError {
    pub fn new(msg: &str, status_code: StatusCode) -> (e: AppError)
        ensures
            e.err_msg@ == msg@,
            e.status_code == status_code,
    {
        AppError { err_msg: msg.to_owned(), status_code }
    }

    pub fn bad_request(msg: &str) -> (e: AppError)
        ensures
            e.err_msg@ == msg@,
            e.status_code == StatusCode::BadRequest,
    {
        AppError::new(msg, StatusCode::BadRequest)
    }

    pub fn internal(msg: &str) -> (e: AppError)
        ensures
            e.err_msg@ == msg@,
            e.status_code == StatusCode::InternalServerError,
    {
        AppError::new(msg, StatusCode::InternalServerError)
    }
}

/// How a lookup of an absent post is classified. The admin API reports it
/// as a bad request, the public detail page as not found.
#[derive(Clone, Copy, Debug, PartialEq, Eq, Structural)]
pub enum NotFoundPolicy {
    AsBadRequest,
    AsNotFound,
}

impl NotFoundPolicy {
    pub open spec fn spec_status(self) -> StatusCode {
        match self {
            NotFoundPolicy::AsBadRequest => StatusCode::BadRequest,
            NotFoundPolicy::AsNotFound => StatusCode::NotFound,
        }
    }

    pub fn status(&self) -> (r: StatusCode)
        ensures
            r == self.spec_status(),
    {
        match self {
            NotFoundPolicy::AsBadRequest => StatusCode::BadRequest,
            NotFoundPolicy::AsNotFound => StatusCode::NotFound,
        }
    }
}

/// True of the status classes that report a missing post.
pub open spec fn is_not_found_class(s: StatusCode) -> bool {
    s == StatusCode::BadRequest || s == StatusCode::NotFound
}

/// The character of decimal digit `d`.
pub open spec fn digit_char(d: nat) -> char {
    if d == 0 { '0' } else if d == 1 { '1' } else if d == 2 { '2' } else if d == 3 { '3' }
    else if d == 4 { '4' } else if d == 5 { '5' } else if d == 6 { '6' } else if d == 7 { '7' }
    else if d == 8 { '8' } else { '9' }
}

/// The decimal digits of `n`, most significant first, without leading zeros.
pub open spec fn digits_of(n: nat) -> Seq<char>
    decreases n,
{
    if n < 10 {
        seq![digit_char(n)]
    } else {
        digits_of(n / 10).push(digit_char(n % 10))
    }
}

/// The decimal text of `n`, with a leading `-` when negative.
pub open spec fn decimal_text(n: int) -> Seq<char> {
    if n < 0 {
        seq!['-'] + digits_of((-n) as nat)
    } else {
        digits_of(n as nat)
    }
}

/// Relies on std's `Display` for `i32` (through `to_string`), which writes
/// the number in decimal.
#[verifier::external_body]
fn id_text(n: i32) -> (r: String)
    ensures
        r@ == decimal_text(n as int),
{
    n.to_string()
}

/// The message of the public detail page for a post it cannot show.
pub open spec fn missing_post_message(post_id: int) -> Seq<char> {
    "Post with ID "@ + decimal_text(post_id) + " not found or database error."@
}

/// Reclassifies an error from looking up post `post_id` according to
/// `policy`; internal errors are returned unchanged. As a bad request the
/// store's message is kept; as not found the message names the post.
pub fn classify_missing(e: AppError, policy: NotFoundPolicy, post_id: i32) -> (r: AppError)
    ensures
        e.status_code == StatusCode::InternalServerError ==> r.status_code == e.status_code
            && r.err_msg@ == e.err_msg@,
        e.status_code != StatusCode::InternalServerError ==> r.status_code == policy.spec_status(),
        e.status_code != StatusCode::InternalServerError && policy == NotFoundPolicy::AsBadRequest
            ==> r.err_msg@ == e.err_msg@,
        e.status_code != StatusCode::InternalServerError && policy == NotFoundPolicy::AsNotFound
            ==> r.err_msg@ == missing_post_message(post_id as int),
{
    if e.status_code == StatusCode::InternalServerError {
        e
    } else {
        match policy {
            NotFoundPolicy::AsBadRequest => AppError { err_msg: e.err_msg, status_code: StatusCode::BadRequest },
            NotFoundPolicy::AsNotFound => {
                let mut msg = String::from_str("Post with ID ");
                let id = id_text(post_id);
                msg.append(id.as_str());
                msg.append(" not found or database error.");
                AppError { err_msg: msg, status_code: StatusCode::NotFound }
            },
        }
    }
}

} // verus!
