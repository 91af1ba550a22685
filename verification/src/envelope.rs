use vstd::prelude::*;

verus! {

/// The uniform response envelope: every operation's outcome is reported
/// through one of these, success and failure alike.
#[derive(Debug)]
pub struct Message<T> {
    pub message: String,
    pub success: bool,
    pub data: Option<T>,
    pub error: Option<String>,
}

/// The envelope's error field holds exactly this text.
pub open spec fn error_says(e: Option<String>, what: Seq<char>) -> bool {
    e matches Some(s) && s@ == what
}

/// Builds the response envelope. An empty error string is reported as no
/// error at all; the data is passed through unchanged.
pub fn response_fn<T>(success: bool, message: String, data: Option<T>, error: String) -> (r:
    Message<T>)
    ensures
        r.success == success,
        r.message == message,
        r.data == data,
        error@.len() == 0 ==> r.error is None,
        error@.len() > 0 ==> r.error == Some(error),
{
    let error = if error.as_str().is_empty() {
        None
    } else {
        Some(error)
    };
    Message { success, message, data, error }
}

} // verus!
