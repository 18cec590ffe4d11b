//! The answers the service gives: an HTTP status with a JSON body
//! `{"status": label, "message": message}`.

use vstd::prelude::*;

verus! {

/// The HTTP statuses the service answers with.
#[derive(Clone, Copy, Debug, PartialEq, Eq, Structural)]
pub enum Status {
    Success,
    Created,
    BadRequest,
    Unauthorized,
    NotFound,
    Conflict,
    InternalServerError,
}

/// The numeric HTTP code of a status.
pub open spec fn status_code(s: Status) -> u16 {
    match s {
        Status::Success => 200,
        Status::Created => 201,
        Status::BadRequest => 400,
        Status::Unauthorized => 401,
        Status::NotFound => 404,
        Status::Conflict => 409,
        Status::InternalServerError => 500,
    }
}

/// The label the service usually writes in the `status` field.
pub open spec fn standard_label(s: Status) -> Seq<char> {
    match s {
        Status::Success => "Ok"@,
        Status::Created => "Created"@,
        Status::BadRequest => "Bad Request"@,
        Status::Unauthorized => "Unauthorized"@,
        Status::NotFound => "Not Found"@,
        Status::Conflict => "Conflict"@,
        Status::InternalServerError => "Internal Server Error"@,
    }
}

impl Status {
    /// The numeric HTTP code.
    pub fn code(&self) -> (r: u16)
        ensures
            r == status_code(*self),
    {
        match self {
            Status::Success => 200,
            Status::Created => 201,
            Status::BadRequest => 400,
            Status::Unauthorized => 401,
            Status::NotFound => 404,
            Status::Conflict => 409,
            Status::InternalServerError => 500,
        }
    }
}

fn standard_label_text(s: Status) -> (r: &'static str)
    ensures
        r@ == standard_label(s),
{
    match s {
        Status::Success => "Ok",
        Status::Created => "Created",
        Status::BadRequest => "Bad Request",
        Status::Unauthorized => "Unauthorized",
        Status::NotFound => "Not Found",
        Status::Conflict => "Conflict",
        Status::InternalServerError => "Internal Server Error",
    }
}

/// An answer with a JSON body `{"status": label, "message": message}`.
pub struct Notice {
    pub status: Status,
    pub label: String,
    pub message: String,
}

/// `n` answers `status`, labelled as usual, with `message`.
pub open spec fn says(n: Notice, status: Status, message: Seq<char>) -> bool {
    &&& n.status == status
    &&& n.label@ == standard_label(status)
    &&& n.message@ == message
}

/// `n` answers `status` with the given label and message.
pub open spec fn says_labelled(n: Notice, status: Status, label: Seq<char>, message: Seq<char>) -> bool {
    &&& n.status == status
    &&& n.label@ == label
    &&& n.message@ == message
}

/// The decision is to answer `status`, labelled as usual, with `message`.
pub open spec fn answer_is(r: Option<Notice>, status: Status, message: Seq<char>) -> bool {
    match r {
        Some(n) => says(n, status, message),
        None => false,
    }
}

/// The decision is not to go on but to answer `status`, labelled as usual,
/// with `message`.
pub open spec fn refusal_is<T>(r: Result<T, Notice>, status: Status, message: Seq<char>) -> bool {
    match r {
        Err(n) => says(n, status, message),
        Ok(_) => false,
    }
}

/// An answer with the usual label of its status.
pub fn notice(status: Status, message: String) -> (n: Notice)
    ensures
        says(n, status, message@),
{
    Notice { status, label: String::from_str(standard_label_text(status)), message }
}

/// An answer with the usual label of its status and a fixed message.
pub fn notice_str(status: Status, message: &str) -> (n: Notice)
    ensures
        says(n, status, message@),
{
    notice(status, String::from_str(message))
}

/// An answer with its own label.
pub fn labelled(status: Status, label: &str, message: &str) -> (n: Notice)
    ensures
        says_labelled(n, status, label@, message@),
{
    Notice { status, label: String::from_str(label), message: String::from_str(message) }
}

} // verus!
