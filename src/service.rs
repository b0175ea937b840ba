use crate::mocks::{full_key, MockDatabase, MockStorage};
use crate::models::RequestPayload;
use crate::ports::{
    item_outcome_view, object_outcome_view, DatabasePort, ItemOutcome, ObjectOutcome, PortError,
    RecordView, StoragePort,
};
use crate::render::{
    compose_response, decimal_of, decoded_text, item_text, object_text, pretty_json_of,
    render_item_outcome, render_object_outcome, response_text,
};
use crate::string_map::{lemma_lookup_absent, lookup, StringMap};
use vstd::prelude::*;

verus! {

/// The message a request carries: the payload's message where it has one.
pub open spec fn resolved_message(payload: Option<RequestPayload>) -> Seq<char> {
    match payload {
        Some(p) => match p.message {
            Some(m) => m@,
            None => "No message provided"@,
        },
        None => "No payload provided"@,
    }
}

/// A request asks only whether the service is up when its query parameter
/// `health` is exactly `true`.
pub open spec fn is_health_query(query: RecordView) -> bool {
    lookup(query, "health"@) == Some("true"@)
}

/// The key of the record that a request looks up.
pub open spec fn lookup_key_view() -> RecordView {
    seq![("order_id"@, "1111"@), ("segment"@, "10"@)]
}

/// The key of the object that a request looks up.
pub open spec fn object_key_view() -> Seq<char> {
    "demo-object.txt"@
}

/// The lookups that answer a request, and the message to report with them.
pub struct LookupPlan {
    pub message: String,
    pub table_name: String,
    pub item_key: StringMap,
    pub bucket: String,
    pub object_key: String,
}

/// What a request needs: a reply at once, or two lookups first.
pub enum RequestPlan {
    Reply(String),
    Lookup(LookupPlan),
}

/// The message of `payload`, or a note that it has none.
pub fn resolve_message(payload: Option<RequestPayload>) -> (r: String)
    ensures
        r@ == resolved_message(payload),
{
    match payload {
        Some(p) => match p.message {
            Some(m) => m,
            None => String::from_str("No message provided"),
        },
        None => String::from_str("No payload provided"),
    }
}

/// Whether `query_params` ask for a health check.
pub fn is_health_check(query_params: &StringMap) -> (r: bool)
    ensures
        r == is_health_query(query_params@),
{
    let expected = String::from_str("true");
    match query_params.get("health") {
        Some(v) => *v == expected,
        None => false,
    }
}

/// The key of the record that a request looks up.
pub fn lookup_key() -> (r: StringMap)
    ensures
        r@ == lookup_key_view(),
{
    let mut key = StringMap::new();
    key.insert(String::from_str("order_id"), String::from_str("1111"));
    proof {
        reveal_strlit("order_id");
        reveal_strlit("segment");
        let first = seq![("order_id"@, "1111"@)];
        assert("order_id"@.len() != "segment"@.len());
        assert(first[0].0 != "segment"@);
        lemma_lookup_absent(first, "segment"@);
        assert(key@ =~= seq![("order_id"@, "1111"@)]);
    }
    key.insert(String::from_str("segment"), String::from_str("10"));
    assert(key@ =~= lookup_key_view());
    key
}

/// Decides what a request needs. A health check is answered at once, and
/// needs no lookup; any other request looks up a record in `table_name` and
/// an object in `bucket`.
pub fn plan_request(
    payload: Option<RequestPayload>,
    query_params: &StringMap,
    table_name: &str,
    bucket: &str,
) -> (r: RequestPlan)
    ensures
        is_health_query(query_params@) <==> r is Reply,
        r matches RequestPlan::Reply(s) ==> s@ == "Service is healthy"@,
        r matches RequestPlan::Lookup(l) ==> {
            &&& l.message@ == resolved_message(payload)
            &&& l.table_name@ == table_name@
            &&& l.item_key@ == lookup_key_view()
            &&& l.bucket@ == bucket@
            &&& l.object_key@ == object_key_view()
        },
{
    let message = resolve_message(payload);
    if is_health_check(query_params) {
        return RequestPlan::Reply(String::from_str("Service is healthy"));
    }
    RequestPlan::Lookup(
        LookupPlan {
            message,
            table_name: String::from_str(table_name),
            item_key: lookup_key(),
            bucket: String::from_str(bucket),
            object_key: String::from_str("demo-object.txt"),
        },
    )
}

/// The response to a request whose lookups gave `item` and `object`. A
/// failed lookup is reported in the text; it does not fail the request.
pub fn finish_request(
    plan: &LookupPlan,
    item: Result<Option<StringMap>, PortError>,
    object: Result<Vec<u8>, PortError>,
) -> (r: String)
    ensures
        r@ == response_text(
            plan.message@,
            item_text(item_outcome_view(item)),
            object_text(plan.object_key@, object_outcome_view(object)),
        ),
{
    let item_section = render_item_outcome(&item);
    let object_section = render_object_outcome(plan.object_key.as_str(), &object);
    compose_response(plan.message.as_str(), item_section.as_str(), object_section.as_str())
}

/// Answers requests from a key-value store and a blob store, both fixed for
/// its lifetime.
pub struct RequestProcessor<D: DatabasePort, S: StoragePort> {
    database: D,
    storage: S,
    table_name: String,
    bucket: String,
}

impl<D: DatabasePort, S: StoragePort> RequestProcessor<D, S> {
    pub closed spec fn database(&self) -> D {
        self.database
    }

    pub closed spec fn storage(&self) -> S {
        self.storage
    }

    /// The table in which requests look up a record.
    pub closed spec fn table_name(&self) -> Seq<char> {
        self.table_name@
    }

    /// The container in which requests look up an object.
    pub closed spec fn bucket(&self) -> Seq<char> {
        self.bucket@
    }

    /// Whether `out` is a response this processor may give: the health reply
    /// to a health check; otherwise the response built from answers that its
    /// two stores admit to its two lookups.
    pub open spec fn processed(&self, payload: Option<RequestPayload>, query: RecordView, out: Seq<char>) -> bool {
        if is_health_query(query) {
            out == "Service is healthy"@
        } else {
            exists|item: ItemOutcome, object: ObjectOutcome|
                #![trigger self.database().admits_item(self.table_name(), lookup_key_view(), item),
                    self.storage().admits_object(self.bucket(), object_key_view(), object)]
                {
                    &&& self.database().admits_item(self.table_name(), lookup_key_view(), item)
                    &&& self.storage().admits_object(self.bucket(), object_key_view(), object)
                    &&& out == response_text(
                        resolved_message(payload),
                        item_text(item),
                        object_text(object_key_view(), object),
                    )
                }
        }
    }

    /// A processor over `database` and `storage` that looks up records in
    /// `demo-table` and objects in `demo-bucket`.
    pub fn new(database: D, storage: S) -> (r: Self)
        ensures
            r.database() == database,
            r.storage() == storage,
            r.table_name() == "demo-table"@,
            r.bucket() == "demo-bucket"@,
    {
        RequestProcessor {
            database,
            storage,
            table_name: String::from_str("demo-table"),
            bucket: String::from_str("demo-bucket"),
        }
    }

    /// A processor over `database` and `storage` that looks up records in
    /// `table_name` and objects in `bucket`.
    pub fn with_targets(database: D, storage: S, table_name: String, bucket: String) -> (r: Self)
        ensures
            r.database() == database,
            r.storage() == storage,
            r.table_name() == table_name@,
            r.bucket() == bucket@,
    {
        RequestProcessor { database, storage, table_name, bucket }
    }

    /// Answers a request. Always succeeds: a failed lookup is reported in the
    /// text of the response. A health check touches neither store.
    pub fn process_request(
        &self,
        payload: Option<RequestPayload>,
        query_params: &StringMap,
        _path_params: &StringMap,
    ) -> (r: Result<String, PortError>)
        ensures
            r is Ok,
            self.processed(payload, query_params@, r->Ok_0@),
    {
        match plan_request(payload, query_params, self.table_name.as_str(), self.bucket.as_str()) {
            RequestPlan::Reply(reply) => Ok(reply),
            RequestPlan::Lookup(plan) => {
                let item = self.database.get_item(plan.table_name.as_str(), plan.item_key.clone());
                let object = self.storage.get_object(plan.bucket.as_str(), plan.object_key.as_str());
                let ghost io = item_outcome_view(item);
                let ghost oo = object_outcome_view(object);
                let out = finish_request(&plan, item, object);
                assert(self.database().admits_item(self.table_name(), lookup_key_view(), io));
                assert(self.storage().admits_object(self.bucket(), object_key_view(), oo));
                Ok(out)
            },
        }
    }
}

/// A response reports the record that the key-value double holds under the
/// lookup's address, or that it holds none.
pub proof fn lemma_item_section_of_double<S: StoragePort>(
    p: RequestProcessor<MockDatabase, S>,
    payload: Option<RequestPayload>,
    query: RecordView,
    out: Seq<char>,
)
    requires
        !is_health_query(query),
        p.processed(payload, query, out),
    ensures
        exists|object: ObjectOutcome|
            out == response_text(
                resolved_message(payload),
                match p.database().spec_item(full_key(p.table_name(), "1111"@)) {
                    Some(record) => "DynamoDB Item Found:\n"@ + pretty_json_of(record),
                    None => "DynamoDB: Item not found"@,
                },
                #[trigger] object_text(object_key_view(), object),
            ),
{
    let (item, object) = choose|item: ItemOutcome, object: ObjectOutcome|
        {
            &&& p.database().admits_item(p.table_name(), lookup_key_view(), item)
            &&& p.storage().admits_object(p.bucket(), object_key_view(), object)
            &&& out == response_text(
                resolved_message(payload),
                item_text(item),
                object_text(object_key_view(), object),
            )
        };
    let _ = object_text(object_key_view(), object);
}

/// A key-value store that can only fail has its error reported in the
/// response; the request still succeeds.
pub proof fn lemma_item_error_reported<D: DatabasePort, S: StoragePort>(
    p: RequestProcessor<D, S>,
    payload: Option<RequestPayload>,
    query: RecordView,
    out: Seq<char>,
    failure: (crate::ports::ErrorKind, Seq<char>),
)
    requires
        !is_health_query(query),
        p.processed(payload, query, out),
        forall|item: ItemOutcome|
            #[trigger] p.database().admits_item(p.table_name(), lookup_key_view(), item) ==> item
                == Err::<Option<RecordView>, _>(failure),
    ensures
        exists|object: ObjectOutcome|
            out == response_text(
                resolved_message(payload),
                "DynamoDB Error: "@ + failure.1,
                #[trigger] object_text(object_key_view(), object),
            ),
{
    let (item, object) = choose|item: ItemOutcome, object: ObjectOutcome|
        {
            &&& p.database().admits_item(p.table_name(), lookup_key_view(), item)
            &&& p.storage().admits_object(p.bucket(), object_key_view(), object)
            &&& out == response_text(
                resolved_message(payload),
                item_text(item),
                object_text(object_key_view(), object),
            )
        };
    let _ = object_text(object_key_view(), object);
}

/// A response reports the size and text of the object that the blob double
/// holds under the lookup's address, or an error where it holds none.
pub proof fn lemma_object_section_of_double<D: DatabasePort>(
    p: RequestProcessor<D, MockStorage>,
    payload: Option<RequestPayload>,
    query: RecordView,
    out: Seq<char>,
)
    requires
        !is_health_query(query),
        p.processed(payload, query, out),
    ensures
        exists|item: ItemOutcome|
            out == response_text(
                resolved_message(payload),
                #[trigger] item_text(item),
                match p.storage().spec_object(full_key(p.bucket(), object_key_view())) {
                    Some(bytes) => "S3 Object Found ("@ + object_key_view() + ", "@ + decimal_of(bytes.len())
                        + " bytes)\nContent:\n"@ + decoded_text(bytes),
                    None => "S3 Error: Object not found"@,
                },
            ),
{
    let (item, object) = choose|item: ItemOutcome, object: ObjectOutcome|
        {
            &&& p.database().admits_item(p.table_name(), lookup_key_view(), item)
            &&& p.storage().admits_object(p.bucket(), object_key_view(), object)
            &&& out == response_text(
                resolved_message(payload),
                item_text(item),
                object_text(object_key_view(), object),
            )
        };
    reveal_strlit("S3 Error: ");
    reveal_strlit("Object not found");
    reveal_strlit("S3 Error: Object not found");
    assert("S3 Error: "@ + "Object not found"@ =~= "S3 Error: Object not found"@);
    let _ = item_text(item);
}

/// Over the two doubles, equal requests get equal responses: nothing but
/// the stores' contents and the request decides the response.
pub proof fn lemma_process_deterministic(
    p: RequestProcessor<MockDatabase, MockStorage>,
    payload: Option<RequestPayload>,
    query: RecordView,
    out1: Seq<char>,
    out2: Seq<char>,
)
    requires
        p.processed(payload, query, out1),
        p.processed(payload, query, out2),
    ensures
        out1 == out2,
{
}

} // verus!
