//! The error taxonomy of the service and its mapping to an HTTP status, a
//! generic public message and a random correlation reference. Detailed causes
//! stay server-side; only the generic message and the reference are shown.
use vstd::prelude::*;

verus! {

/// Everything that can go wrong in the service. Startup failures carry the
/// offending path; per-request failures carry at most the requested name, so
/// that no internal diagnostic leaks into a response.
#[derive(Debug, PartialEq, Eq)]
pub enum AppError {
    /// An I/O operation failed, reading a file or streaming a response.
    Io,
    /// The assets path could not be canonicalized at startup.
    CanonicalizePath { path: String },
    /// The assets path is not a directory.
    NotADirectory(String),
    /// The input payload could not be serialized for the render job.
    InputSerialization,
    /// No template's final path segment equals the requested name.
    MainSourceNotFound(String),
    /// The compiler rejected the template; the diagnostic messages are
    /// carried for the server-side record only.
    TypstCompilation(Vec<String>),
    /// The exporter failed to produce the binary document; the diagnostic
    /// messages are carried for the server-side record only.
    PdfExport(Vec<String>),
    /// A background worker failed to complete.
    TaskJoin,
    /// The client closed the connection before the archive completed.
    ConnectionClosed,
    /// The archive writer itself reported an error.
    ZipError,
}

/// The HTTP status for each error: missing template is not-found; errors
/// caused by the caller's input are client errors; the rest are internal.
pub open spec fn status_of(e: AppError) -> u16 {
    match e {
        AppError::MainSourceNotFound(_) => 404,
        AppError::TypstCompilation(_) => 400,
        AppError::CanonicalizePath { .. } => 400,
        AppError::NotADirectory(_) => 400,
        AppError::ConnectionClosed => 400,
        AppError::InputSerialization => 400,
        AppError::Io => 500,
        AppError::PdfExport(_) => 500,
        AppError::TaskJoin => 500,
        AppError::ZipError => 500,
    }
}

/// The generic public message for each error.
pub open spec fn message_of(e: AppError) -> Seq<char> {
    match e {
        AppError::Io => "I/O operation failed"@,
        AppError::CanonicalizePath { .. } => "Failed to resolve file path"@,
        AppError::NotADirectory(_) => "Provided path is not a directory"@,
        AppError::InputSerialization => "Invalid request payload"@,
        AppError::MainSourceNotFound(_) => "Requested template not found"@,
        AppError::TypstCompilation(_) => "Document compilation failed"@,
        AppError::PdfExport(_) => "PDF export failed"@,
        AppError::TaskJoin => "Worker task failed to complete"@,
        AppError::ConnectionClosed => "Client closed connection"@,
        AppError::ZipError => "Failed to stream ZIP archive"@,
    }
}

/// The public response body: a JSON object holding the generic message under
/// `error` and the correlation reference under `reference`.
pub open spec fn body_of(msg: Seq<char>, reference: Seq<char>) -> Seq<char> {
    "{\"error\":\""@ + msg + "\",\"reference\":\""@ + reference + "\"}"@
}

/// The `Content-Disposition` value that attributes a download to the
/// requested output file name.
pub open spec fn content_disposition_of(file_name: Seq<char>) -> Seq<char> {
    "attachment; filename=\""@ + file_name + "\""@
}

/// Build the `Content-Disposition` header value for the given output file
/// name.
pub fn content_disposition(file_name: &str) -> (r: String)
    ensures
        r@ == content_disposition_of(file_name@),
{
    let mut s = String::from_str("attachment; filename=\"");
    s.append(file_name);
    s.append("\"");
    proof {
        assert(s@ =~= content_disposition_of(file_name@));
    }
    s
}

/// A lower-case hexadecimal digit.
pub open spec fn is_lower_hex_digit(c: char) -> bool {
    (48 <= c as u32 <= 57) || (97 <= c as u32 <= 102)
}

/// The shape of a correlation reference: the hyphenated UUID form, 36
/// characters, hyphens at positions 8, 13, 18 and 23 and lower-case
/// hexadecimal digits everywhere else.
pub open spec fn is_reference_shape(s: Seq<char>) -> bool {
    &&& s.len() == 36
    &&& s[8] == '-' && s[13] == '-' && s[18] == '-' && s[23] == '-'
    &&& forall|i: int|
        0 <= i < 36 && i != 8 && i != 13 && i != 18 && i != 23 ==> is_lower_hex_digit(
            #[trigger] s[i],
        )
}

/// Relies on `uuid::Uuid::new_v4` and its `Display` form, which prints the
/// hyphenated lower-case hexadecimal shape. The value is random; only the
/// shape is assumed.
#[verifier::external_body]
fn new_error_reference() -> (r: String)
    ensures
        is_reference_shape(r@),
{
    uuid::Uuid::new_v4().to_string()
}

impl AppError {
    /// The HTTP status this error maps to.
    pub fn status_code(&self) -> (r: u16)
        ensures
            r == status_of(*self),
    {
        match self {
            AppError::MainSourceNotFound(_) => 404,
            AppError::TypstCompilation(_) => 400,
            AppError::CanonicalizePath { .. } => 400,
            AppError::NotADirectory(_) => 400,
            AppError::ConnectionClosed => 400,
            AppError::InputSerialization => 400,
            AppError::Io => 500,
            AppError::PdfExport(_) => 500,
            AppError::TaskJoin => 500,
            AppError::ZipError => 500,
        }
    }

    /// The generic message shown to the client for this error.
    pub fn public_message(&self) -> (r: &'static str)
        ensures
            r@ == message_of(*self),
    {
        match self {
            AppError::Io => "I/O operation failed",
            AppError::CanonicalizePath { .. } => "Failed to resolve file path",
            AppError::NotADirectory(_) => "Provided path is not a directory",
            AppError::InputSerialization => "Invalid request payload",
            AppError::MainSourceNotFound(_) => "Requested template not found",
            AppError::TypstCompilation(_) => "Document compilation failed",
            AppError::PdfExport(_) => "PDF export failed",
            AppError::TaskJoin => "Worker task failed to complete",
            AppError::ConnectionClosed => "Client closed connection",
            AppError::ZipError => "Failed to stream ZIP archive",
        }
    }

    /// The public response body for this error under the given correlation
    /// reference.
    pub fn response_body(&self, reference: &str) -> (r: String)
        ensures
            r@ == body_of(message_of(*self), reference@),
    {
        let mut s = String::from_str("{\"error\":\"");
        s.append(self.public_message());
        s.append("\",\"reference\":\"");
        s.append(reference);
        s.append("\"}");
        proof {
            assert(s@ =~= body_of(message_of(*self), reference@));
        }
        s
    }

    /// The full HTTP mapping of this error: status code, a fresh correlation
    /// reference, and the public body built from the generic message and that
    /// reference.
    pub fn to_response_parts(&self) -> (r: (u16, String, String))
        ensures
            r.0 == status_of(*self),
            is_reference_shape(r.1@),
            r.2@ == body_of(message_of(*self), r.1@),
    {
        let reference = new_error_reference();
        let body = self.response_body(reference.as_str());
        (self.status_code(), reference, body)
    }
}

} // verus!
