use crate::ports::{
    item_outcome_view, object_outcome_view, ItemOutcome, ObjectOutcome, PortError,
};
use crate::string_map::StringMap;
use vstd::prelude::*;
use vstd::utf8::{decode_utf8, valid_utf8};

verus! {

/// The text `serde_json::to_string_pretty` gives for a record: its entries,
/// collected into a map ordered by key, as an indented JSON object.
pub uninterp spec fn pretty_json_of(entries: Seq<(Seq<char>, Seq<char>)>) -> Seq<char>;

/// The text `String::from_utf8_lossy` gives for a byte sequence.
pub uninterp spec fn utf8_lossy_of(bytes: Seq<u8>) -> Seq<char>;

/// Relies on `serde_json::to_string_pretty` to render a record as JSON. A map
/// with string keys and string values always serializes; the empty string
/// stands in for the error the documentation rules out there.
#[verifier::external_body]
fn pretty_json(record: &StringMap) -> (r: String)
    ensures
        r@ == pretty_json_of(record@),
{
    let m: std::collections::BTreeMap<&str, &str> =
        record.entries().iter().map(|e| (e.0.as_str(), e.1.as_str())).collect();
    serde_json::to_string_pretty(&m).unwrap_or_default()
}

/// Relies on `String::from_utf8_lossy` to decode bytes that may not be valid
/// UTF-8: valid input decodes as it stands, each invalid sequence becomes
/// U+FFFD.
#[verifier::external_body]
fn utf8_lossy(bytes: &Vec<u8>) -> (r: String)
    ensures
        r@ == utf8_lossy_of(bytes@),
        valid_utf8(bytes@) ==> r@ == decode_utf8(bytes@),
{
    String::from_utf8_lossy(bytes.as_slice()).into_owned()
}

/// The decimal digit `d` as text.
pub open spec fn digit_text(d: nat) -> Seq<char> {
    "0123456789"@.subrange(d as int, d + 1 as int)
}

/// `n` written in decimal, without leading zeros.
pub open spec fn decimal_of(n: nat) -> Seq<char>
    decreases n,
{
    if n < 10 {
        digit_text(n)
    } else {
        decimal_of(n / 10) + digit_text(n % 10)
    }
}

/// Appends `n`, written in decimal, to `s`.
fn append_decimal(s: &mut String, n: usize)
    ensures
        final(s)@ == old(s)@ + decimal_of(n as nat),
    decreases n,
{
    let ghost before = s@;
    if n >= 10 {
        append_decimal(s, n / 10);
    }
    let d: usize = n % 10;
    let digits = "0123456789";
    proof {
        reveal_strlit("0123456789");
    }
    s.append(digits.substring_char(d, d + 1));
    if n >= 10 {
        assert(s@ =~= before + (decimal_of((n / 10) as nat) + digit_text(d as nat)));
    } else {
        assert(s@ =~= before + digit_text(n as nat));
    }
}

/// `n` written in decimal.
pub fn decimal_text(n: usize) -> (r: String)
    ensures
        r@ == decimal_of(n as nat),
{
    let mut s = String::new();
    append_decimal(&mut s, n);
    assert(s@ =~= decimal_of(n as nat));
    s
}

/// The section of a response that reports a key-value lookup.
pub open spec fn item_text(outcome: ItemOutcome) -> Seq<char> {
    match outcome {
        Ok(Some(record)) => "DynamoDB Item Found:\n"@ + pretty_json_of(record),
        Ok(None) => "DynamoDB: Item not found"@,
        Err((_, message)) => "DynamoDB Error: "@ + message,
    }
}

/// The text of a byte sequence: its decoding where it is valid UTF-8.
pub open spec fn decoded_text(bytes: Seq<u8>) -> Seq<char> {
    if valid_utf8(bytes) {
        decode_utf8(bytes)
    } else {
        utf8_lossy_of(bytes)
    }
}

/// The section of a response that reports a blob lookup of `key`: its size
/// and its text on success, the error's message otherwise.
pub open spec fn object_text(key: Seq<char>, outcome: ObjectOutcome) -> Seq<char> {
    match outcome {
        Ok(bytes) => "S3 Object Found ("@ + key + ", "@ + decimal_of(bytes.len()) + " bytes)\nContent:\n"@
            + decoded_text(bytes),
        Err((_, message)) => "S3 Error: "@ + message,
    }
}

/// The full response: the resolved message, then the key-value section, then
/// the blob section.
pub open spec fn response_text(message: Seq<char>, item: Seq<char>, object: Seq<char>) -> Seq<char> {
    "Hello from Rust Lambda! Received message: "@ + message + "\n\n--- AWS Services Info ---\n\n"@
        + item + "\n\n"@ + object + "\n\nDatabase and storage services invoked successfully."@
}

/// Renders the answer of a key-value lookup.
pub fn render_item_outcome(outcome: &Result<Option<StringMap>, PortError>) -> (r: String)
    ensures
        r@ == item_text(item_outcome_view(*outcome)),
{
    match outcome {
        Ok(Some(record)) => {
            let mut s = String::from_str("DynamoDB Item Found:\n");
            let json = pretty_json(record);
            s.append(json.as_str());
            s
        },
        Ok(None) => String::from_str("DynamoDB: Item not found"),
        Err(e) => {
            let mut s = String::from_str("DynamoDB Error: ");
            s.append(e.message.as_str());
            s
        },
    }
}

/// Renders the answer of a blob lookup of `key`.
pub fn render_object_outcome(key: &str, outcome: &Result<Vec<u8>, PortError>) -> (r: String)
    ensures
        r@ == object_text(key@, object_outcome_view(*outcome)),
{
    match outcome {
        Ok(bytes) => {
            let mut s = String::from_str("S3 Object Found (");
            s.append(key);
            s.append(", ");
            let size = decimal_text(bytes.len());
            s.append(size.as_str());
            s.append(" bytes)\nContent:\n");
            let content = utf8_lossy(bytes);
            s.append(content.as_str());
            s
        },
        Err(e) => {
            let mut s = String::from_str("S3 Error: ");
            s.append(e.message.as_str());
            s
        },
    }
}

/// Joins the resolved message and the two lookup sections into one response.
pub fn compose_response(message: &str, item: &str, object: &str) -> (r: String)
    ensures
        r@ == response_text(message@, item@, object@),
{
    let mut s = String::from_str("Hello from Rust Lambda! Received message: ");
    s.append(message);
    s.append("\n\n--- AWS Services Info ---\n\n");
    s.append(item);
    s.append("\n\n");
    s.append(object);
    s.append("\n\nDatabase and storage services invoked successfully.");
    s
}

} // verus!
