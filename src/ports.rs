use crate::string_map::StringMap;
use vstd::prelude::*;

verus! {

/// Why a port could not answer.
#[derive(Clone, Copy, Debug, PartialEq, Eq, Structural)]
pub enum ErrorKind {
    /// Nothing is stored under the address asked for.
    NotFound,
    /// The backend failed for any other reason.
    Backend,
}

/// A failure reported by a port: its kind and a readable message.
#[derive(Debug)]
pub struct PortError {
    pub kind: ErrorKind,
    pub message: String,
}

impl PortError {
    pub fn new(kind: ErrorKind, message: String) -> (r: PortError)
        ensures
            r.kind == kind,
            r.message@ == message@,
    {
        PortError { kind, message }
    }
}

/// What a record looks like in contracts: its entries, in order.
pub type RecordView = Seq<(Seq<char>, Seq<char>)>;

/// The answer to a key-value lookup: a record, no record, or an error
/// (its kind and message).
pub type ItemOutcome = Result<Option<RecordView>, (ErrorKind, Seq<char>)>;

/// The answer to a blob lookup: the bytes, or an error (its kind and message).
pub type ObjectOutcome = Result<Seq<u8>, (ErrorKind, Seq<char>)>;

pub open spec fn error_view(e: PortError) -> (ErrorKind, Seq<char>) {
    (e.kind, e.message@)
}

pub open spec fn item_outcome_view(r: Result<Option<StringMap>, PortError>) -> ItemOutcome {
    match r {
        Ok(Some(m)) => Ok(Some(m@)),
        Ok(None) => Ok(None),
        Err(e) => Err(error_view(e)),
    }
}

pub open spec fn object_outcome_view(r: Result<Vec<u8>, PortError>) -> ObjectOutcome {
    match r {
        Ok(b) => Ok(b@),
        Err(e) => Err(error_view(e)),
    }
}

/// Access to a key-value store whose tables hold string records.
///
/// `admits_item` says which answers a store may give to a lookup. By default
/// a store may give any answer; a store whose answers are known says which.
pub trait DatabasePort: Send + Sync {
    open spec fn admits_item(&self, table: Seq<char>, key: RecordView, outcome: ItemOutcome) -> bool {
        true
    }

    /// The record stored under `key` in `table`, or `None` where there is none.
    fn get_item(&self, table_name: &str, key: StringMap) -> (r: Result<Option<StringMap>, PortError>)
        ensures
            self.admits_item(table_name@, key@, item_outcome_view(r)),
    ;

    /// Stores `item` in `table_name`.
    fn put_item(&self, table_name: &str, item: StringMap) -> Result<(), PortError>;
}

/// Access to a blob store that keeps byte sequences under (container, key).
///
/// `admits_object` says which answers a store may give to a lookup; by
/// default, any. A missing object is an error, like any other failure.
pub trait StoragePort: Send + Sync {
    open spec fn admits_object(&self, bucket: Seq<char>, key: Seq<char>, outcome: ObjectOutcome) -> bool {
        true
    }

    /// The bytes stored under `key` in `bucket`.
    fn get_object(&self, bucket: &str, key: &str) -> (r: Result<Vec<u8>, PortError>)
        ensures
            self.admits_object(bucket@, key@, object_outcome_view(r)),
    ;

    /// Stores `body` under `key` in `bucket`.
    fn put_object(&self, bucket: &str, key: &str, body: Vec<u8>) -> Result<(), PortError>;
}

impl<T: DatabasePort> DatabasePort for Box<T> {
    open spec fn admits_item(&self, table: Seq<char>, key: RecordView, outcome: ItemOutcome) -> bool {
        (**self).admits_item(table, key, outcome)
    }

    fn get_item(&self, table_name: &str, key: StringMap) -> (r: Result<Option<StringMap>, PortError>) {
        (**self).get_item(table_name, key)
    }

    fn put_item(&self, table_name: &str, item: StringMap) -> Result<(), PortError> {
        (**self).put_item(table_name, item)
    }
}

impl<T: StoragePort> StoragePort for Box<T> {
    open spec fn admits_object(&self, bucket: Seq<char>, key: Seq<char>, outcome: ObjectOutcome) -> bool {
        (**self).admits_object(bucket, key, outcome)
    }

    fn get_object(&self, bucket: &str, key: &str) -> (r: Result<Vec<u8>, PortError>) {
        (**self).get_object(bucket, key)
    }

    fn put_object(&self, bucket: &str, key: &str, body: Vec<u8>) -> Result<(), PortError> {
        (**self).put_object(bucket, key, body)
    }
}

} // verus!
