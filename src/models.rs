use std::collections::HashMap;
use vstd::prelude::*;

verus! {

/// A JSON value, carried through the library unread.
#[verifier::external_type_specification]
#[verifier::external_body]
pub struct ExValue(serde_json::Value);

/// The body of a request, once parsed.
pub struct RequestPayload {
    pub message: Option<String>,
    pub data: Option<HashMap<String, serde_json::Value>>,
}

/// The envelope a response is sent in.
pub struct ResponsePayload {
    pub status: String,
    pub message: String,
    pub data: Option<HashMap<String, serde_json::Value>>,
    pub timestamp: String,
}

impl ResponsePayload {
    /// A successful response that carries `message`.
    pub fn success(message: String, timestamp: String) -> (r: ResponsePayload)
        ensures
            r.status@ == "success"@,
            r.message@ == message@,
            r.data is None,
            r.timestamp@ == timestamp@,
    {
        ResponsePayload { status: String::from_str("success"), message, data: None, timestamp }
    }

    /// A failed response that carries `message`.
    pub fn error(message: String, timestamp: String) -> (r: ResponsePayload)
        ensures
            r.status@ == "error"@,
            r.message@ == message@,
            r.data is None,
            r.timestamp@ == timestamp@,
    {
        ResponsePayload { status: String::from_str("error"), message, data: None, timestamp }
    }
}

} // verus!
