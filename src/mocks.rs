use crate::ports::{
    DatabasePort, ErrorKind, ItemOutcome, ObjectOutcome, PortError, RecordView, StoragePort,
};
use crate::string_map::{
    find_last, first_value_of, lemma_lookup_absent, lemma_lookup_last, lemma_lookup_push, lookup,
    StringMap,
};
use vstd::prelude::*;

verus! {

/// The address under which a double keeps an entry: `outer::inner`.
pub open spec fn full_key(outer: Seq<char>, inner: Seq<char>) -> Seq<char> {
    outer + "::"@ + inner
}

fn make_full_key(outer: &str, inner: &str) -> (r: String)
    ensures
        r@ == full_key(outer@, inner@),
{
    let mut r = String::from_str(outer);
    r.append("::");
    r.append(inner);
    r
}

/// An in-memory key-value store. A record is kept under `table::key`, and a
/// lookup takes the first value of the key mapping it is given as the key:
/// only one attribute of a composite key takes part.
pub struct MockDatabase {
    items: Vec<(String, StringMap)>,
}

impl View for MockDatabase {
    type V = Seq<(Seq<char>, RecordView)>;

    closed spec fn view(&self) -> Seq<(Seq<char>, RecordView)> {
        self.items@.map_values(|e: (String, StringMap)| (e.0@, e.1@))
    }
}

impl MockDatabase {
    /// The record kept under the full key `k`.
    pub open spec fn spec_item(&self, k: Seq<char>) -> Option<RecordView> {
        lookup(self@, k)
    }

    /// The answer to a lookup of `key` in `table`.
    pub open spec fn spec_get_item(&self, table: Seq<char>, key: RecordView) -> ItemOutcome {
        Ok(self.spec_item(full_key(table, first_value_of(key))))
    }

    /// A store that holds no record.
    pub fn new() -> (r: MockDatabase)
        ensures
            forall|k: Seq<char>| #[trigger] r.spec_item(k) is None,
    {
        let r = MockDatabase { items: Vec::new() };
        assert(r@ =~= Seq::<(Seq<char>, RecordView)>::empty());
        r
    }

    /// The same store with `value` kept under `table::key`.
    pub fn with_item(self, table: &str, key: &str, value: StringMap) -> (r: MockDatabase)
        ensures
            forall|k: Seq<char>| #[trigger] r.spec_item(k) == if k == full_key(table@, key@) {
                Some(value@)
            } else {
                self.spec_item(k)
            },
    {
        let ghost before = self@;
        let ghost v = value@;
        let full = make_full_key(table, key);
        let ghost k0 = full@;
        let mut items = self.items;
        items.push((full, value));
        let r = MockDatabase { items };
        assert(r@ =~= before.push((k0, v)));
        assert forall|k: Seq<char>| #[trigger] r.spec_item(k) == if k == k0 {
            Some(v)
        } else {
            lookup(before, k)
        } by {
            lemma_lookup_push(before, k0, v, k);
        }
        r
    }
}

impl DatabasePort for MockDatabase {
    open spec fn admits_item(&self, table: Seq<char>, key: RecordView, outcome: ItemOutcome) -> bool {
        outcome == self.spec_get_item(table, key)
    }

    fn get_item(&self, table_name: &str, key: StringMap) -> (r: Result<Option<StringMap>, PortError>) {
        let first = key.first_value();
        let full = make_full_key(table_name, first.as_str());
        match find_last(&self.items, &full) {
            Some(i) => {
                proof {
                    lemma_lookup_last(self@, i as int, full@);
                }
                Ok(Some(self.items[i].1.clone()))
            },
            None => {
                proof {
                    lemma_lookup_absent(self@, full@);
                }
                Ok(None)
            },
        }
    }

    /// Writes are accepted and not kept.
    fn put_item(&self, _table_name: &str, _item: StringMap) -> (r: Result<(), PortError>)
        ensures
            r is Ok,
    {
        Ok(())
    }
}

/// An in-memory blob store. An object is kept under `bucket::key`; a lookup
/// of an absent object fails with a `NotFound` error, "Object not found".
pub struct MockStorage {
    objects: Vec<(String, Vec<u8>)>,
}

impl View for MockStorage {
    type V = Seq<(Seq<char>, Seq<u8>)>;

    closed spec fn view(&self) -> Seq<(Seq<char>, Seq<u8>)> {
        self.objects@.map_values(|e: (String, Vec<u8>)| (e.0@, e.1@))
    }
}

impl MockStorage {
    /// The bytes kept under the full key `k`.
    pub open spec fn spec_object(&self, k: Seq<char>) -> Option<Seq<u8>> {
        lookup(self@, k)
    }

    /// The answer to a lookup of `key` in `bucket`.
    pub open spec fn spec_get_object(&self, bucket: Seq<char>, key: Seq<char>) -> ObjectOutcome {
        match self.spec_object(full_key(bucket, key)) {
            Some(b) => Ok(b),
            None => Err((ErrorKind::NotFound, "Object not found"@)),
        }
    }

    /// A store that holds no object.
    pub fn new() -> (r: MockStorage)
        ensures
            forall|k: Seq<char>| #[trigger] r.spec_object(k) is None,
    {
        let r = MockStorage { objects: Vec::new() };
        assert(r@ =~= Seq::<(Seq<char>, Seq<u8>)>::empty());
        r
    }

    /// The same store with `data` kept under `bucket::key`.
    pub fn with_object(self, bucket: &str, key: &str, data: Vec<u8>) -> (r: MockStorage)
        ensures
            forall|k: Seq<char>| #[trigger] r.spec_object(k) == if k == full_key(bucket@, key@) {
                Some(data@)
            } else {
                self.spec_object(k)
            },
    {
        let ghost before = self@;
        let ghost v = data@;
        let full = make_full_key(bucket, key);
        let ghost k0 = full@;
        let mut objects = self.objects;
        objects.push((full, data));
        let r = MockStorage { objects };
        assert(r@ =~= before.push((k0, v)));
        assert forall|k: Seq<char>| #[trigger] r.spec_object(k) == if k == k0 {
            Some(v)
        } else {
            lookup(before, k)
        } by {
            lemma_lookup_push(before, k0, v, k);
        }
        r
    }
}

impl StoragePort for MockStorage {
    open spec fn admits_object(&self, bucket: Seq<char>, key: Seq<char>, outcome: ObjectOutcome) -> bool {
        outcome == self.spec_get_object(bucket, key)
    }

    fn get_object(&self, bucket: &str, key: &str) -> (r: Result<Vec<u8>, PortError>) {
        let full = make_full_key(bucket, key);
        match find_last(&self.objects, &full) {
            Some(i) => {
                proof {
                    lemma_lookup_last(self@, i as int, full@);
                }
                let data = self.objects[i].1.clone();
                assert(data@ =~= self.objects@[i as int].1@);
                Ok(data)
            },
            None => {
                proof {
                    lemma_lookup_absent(self@, full@);
                }
                Err(PortError::new(ErrorKind::NotFound, String::from_str("Object not found")))
            },
        }
    }

    /// Writes are accepted and not kept.
    fn put_object(&self, _bucket: &str, _key: &str, _body: Vec<u8>) -> (r: Result<(), PortError>)
        ensures
            r is Ok,
    {
        Ok(())
    }
}

} // verus!
