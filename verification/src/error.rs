use vstd::prelude::*;
use vstd::string::StringExecFns;

verus! {

/// Why a request on a reader failed.
#[derive(Clone, Copy, Debug, PartialEq, Eq, Structural)]
pub enum NativeExtensionsError {
    /// The handle names no registered reader: it was disposed of, finalized,
    /// or never issued.
    ReaderNotFound,
}

pub type NativeExtensionsResult<T> = Result<T, NativeExtensionsError>;

/// A failure as the caller sees it: a machine-readable code and a message.
#[derive(Debug, PartialEq, Eq)]
pub struct PlatformError {
    pub code: String,
    pub message: Option<String>,
}

/// Code of the failure that answers a request for an unknown method.
pub const INVALID_METHOD: &'static str = "invalid_method";

/// What precedes the offending name in the message of that failure.
pub const UNKNOWN_METHOD_PREFIX: &'static str = "Unknown Method: ";

/// The message that names `method` as unknown.
pub open spec fn unknown_method_message(method: Seq<char>) -> Seq<char> {
    UNKNOWN_METHOD_PREFIX@ + method
}

impl PlatformError {
    /// Whether this is the failure that answers a request for `method`,
    /// which is no method of the protocol.
    pub open spec fn is_invalid_method(self, method: Seq<char>) -> bool {
        &&& self.code@ == INVALID_METHOD@
        &&& self.message matches Some(m)
        &&& m@ == unknown_method_message(method)
    }

    /// The failure that answers a request for `method`, which is no method
    /// of the protocol.
    pub fn invalid_method(method: &str) -> (res: PlatformError)
        ensures
            res.is_invalid_method(method@),
    {
        let message = String::from_str(UNKNOWN_METHOD_PREFIX).concat(method);
        PlatformError { code: String::from_str(INVALID_METHOD), message: Some(message) }
    }
}

} // verus!
