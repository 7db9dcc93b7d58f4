//! The two error families of the host, and the structured values scripts
//! receive when an operation fails.
use vstd::prelude::*;

verus! {

#[verifier::external_type_specification]
#[verifier::external_body]
pub struct ExErrno(wasi::Errno);

/// The classification of an OS error, as far as this layer tells kinds apart.
#[derive(Clone, Debug, PartialEq, Eq)]
pub enum ErrorKind {
    NotFound,
    AlreadyExists,
    PermissionDenied,
    /// Any other kind, by its name.
    Other(String),
}

/// An error of the host OS: an optional raw code, a kind and a message.
#[derive(Clone, Debug, PartialEq, Eq)]
pub struct OsError {
    pub code: Option<i32>,
    pub kind: ErrorKind,
    pub message: String,
}

/// The error object raised to a script, or handed to a rejected read.
#[derive(Clone, Debug, PartialEq, Eq)]
pub enum ErrorValue {
    /// `{ code?, kind, message }` of an OS error.
    Os { code: Option<i32>, kind: String, message: String },
    /// `{ message }` of a sandbox-interface error.
    Sandbox { message: String },
    /// `{ kind: "Internal", message }` where a completion came back in a
    /// shape this layer does not handle.
    Internal { message: String },
}

/// The mathematical value of an [`ErrorValue`].
pub ghost enum ErrorView {
    Os { code: Option<i32>, kind: Seq<char>, message: Seq<char> },
    Sandbox { message: Seq<char> },
    Internal { message: Seq<char> },
}

impl View for ErrorValue {
    type V = ErrorView;

    open spec fn view(&self) -> ErrorView {
        match self {
            ErrorValue::Os { code, kind, message } => ErrorView::Os {
                code: *code,
                kind: kind@,
                message: message@,
            },
            ErrorValue::Sandbox { message } => ErrorView::Sandbox { message: message@ },
            ErrorValue::Internal { message } => ErrorView::Internal { message: message@ },
        }
    }
}

/// The name under which a kind is shown to scripts.
pub open spec fn kind_name_of(kind: ErrorKind) -> Seq<char> {
    match kind {
        ErrorKind::NotFound => "NotFound"@,
        ErrorKind::AlreadyExists => "AlreadyExists"@,
        ErrorKind::PermissionDenied => "PermissionDenied"@,
        ErrorKind::Other(name) => name@,
    }
}

/// The value raised for an OS error.
pub open spec fn os_error_value(e: OsError) -> ErrorView {
    ErrorView::Os { code: e.code, kind: kind_name_of(e.kind), message: e.message@ }
}

pub fn kind_name(kind: &ErrorKind) -> (r: String)
    ensures
        r@ == kind_name_of(*kind),
{
    match kind {
        ErrorKind::NotFound => "NotFound".to_owned(),
        ErrorKind::AlreadyExists => "AlreadyExists".to_owned(),
        ErrorKind::PermissionDenied => "PermissionDenied".to_owned(),
        ErrorKind::Other(name) => name.clone(),
    }
}

/// Marshals an OS error: its raw code where it has one, its kind by name,
/// and its message.
pub fn err_to_js_object(e: &OsError) -> (r: ErrorValue)
    ensures
        r@ == os_error_value(*e),
{
    ErrorValue::Os { code: e.code, kind: kind_name(&e.kind), message: e.message.clone() }
}

/// The text that the sandbox interface gives for an error code.
pub uninterp spec fn errno_message(code: u16) -> Seq<char>;

/// Relies on wasi's `Errno::raw` and `Errno::message`: the message is chosen
/// by the error's code alone.
#[verifier::external_body]
fn errno_parts(e: &wasi::Errno) -> (r: (u16, String))
    ensures
        r.1@ == errno_message(r.0),
{
    (e.raw(), e.message().to_string())
}

/// Marshals a sandbox-interface error: only its message is carried.
pub fn errno_to_js_object(e: &wasi::Errno) -> (r: ErrorValue)
    ensures
        exists|code: u16| r@ == (ErrorView::Sandbox { message: errno_message(code) }),
{
    let (code, message) = errno_parts(e);
    let r = ErrorValue::Sandbox { message };
    assert(r@ == (ErrorView::Sandbox { message: errno_message(code) }));
    r
}

} // verus!
