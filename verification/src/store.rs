//! The in-module key-value store: a pure, exactly specified store, and a
//! lock-protected wrapper that serves it as the main slot's service under
//! concurrent dispatch.

use vstd::prelude::*;
use vstd::rwlock::RwLock;

use crate::error::DomainError;
use crate::services::KvsService;
use crate::value::ProtocolValue;
use crate::value::ValueModel;
use crate::valuemap::ValueMap;

verus! {

/// A key-value store over protocol values, modelled as a mathematical map.
pub struct KvStore {
    table: ValueMap,
}

impl View for KvStore {
    type V = Map<Seq<char>, ValueModel>;

    closed spec fn view(&self) -> Map<Seq<char>, ValueModel> {
        self.table@
    }
}

impl KvStore {
    /// The empty store.
    pub fn new() -> (r: Self)
        ensures
            r@ == Map::<Seq<char>, ValueModel>::empty(),
    {
        KvStore { table: ValueMap::new() }
    }

    /// Stores `value` under `key`, replacing what the key held.
    pub fn store(&mut self, key: String, value: ProtocolValue)
        ensures
            final(self)@ == old(self)@.insert(key@, value@),
    {
        self.table.insert(key, value);
    }

    /// The value stored under `key`, or null when the key is absent.
    pub fn load(&self, key: &str) -> (r: ProtocolValue)
        ensures
            r@ == if self@.contains_key(key@) {
                self@[key@]
            } else {
                ValueModel::Null
            },
    {
        match self.table.get(key) {
            Some(v) => v.clone(),
            None => ProtocolValue::Null,
        }
    }

    /// Removes whatever is stored under `key`.
    pub fn delete(&mut self, key: &str)
        ensures
            final(self)@ == old(self)@.remove(key@),
    {
        let _ = self.table.remove(key);
    }

    /// True when something is stored under `key`.
    pub fn exists_key(&self, key: &str) -> (r: bool)
        ensures
            r == self@.contains_key(key@),
    {
        self.table.contains_key(key)
    }
}

/// End-to-end store scenario at the model level: after storing a value its
/// key is present and loads it back, and after deleting it the key is gone,
/// whatever the store held before.
pub proof fn lemma_store_scenario(
    m: Map<Seq<char>, ValueModel>,
    key: Seq<char>,
    value: ValueModel,
)
    ensures
        m.insert(key, value).contains_key(key),
        m.insert(key, value)[key] == value,
        !m.insert(key, value).remove(key).contains_key(key),
{
}

/// The store behind a verified reader-writer lock: readers share access,
/// mutation is exclusive, and callers are never serialized against each
/// other beyond the lock itself. This is the mutation policy the service
/// documents for concurrent dispatch.
pub struct SharedKvStore {
    lock: RwLock<KvStore, spec_fn(KvStore) -> bool>,
}

impl SharedKvStore {
    #[verifier::type_invariant]
    spec fn wf(self) -> bool {
        forall|v: KvStore| self.lock.inv(v)
    }

    /// An empty shared store.
    pub fn new() -> Self {
        let lock = RwLock::new(KvStore::new(), Ghost(|v: KvStore| true));
        proof {
            assert forall|v: KvStore| lock.inv(v) by {}
        }
        SharedKvStore { lock }
    }
}

impl KvsService for SharedKvStore {
    /// Stores `value` under `key` while holding the write lock; the store
    /// itself never fails.
    fn store(&self, key: String, value: ProtocolValue) -> (r: Result<(), DomainError>)
        ensures
            r == Ok::<(), DomainError>(()),
    {
        proof {
            use_type_invariant(self);
        }
        let (mut v, handle) = self.lock.acquire_write();
        v.store(key, value);
        handle.release_write(v);
        Ok(())
    }

    /// Reads whether `key` is present while holding a read lock; the store
    /// itself never fails. What the answer is depends on the state behind
    /// the lock, which concurrent mutation may change between calls.
    fn exists_key(&self, key: String) -> (r: Result<bool, DomainError>)
        ensures
            r is Ok,
    {
        let handle = self.lock.acquire_read();
        let r = handle.borrow().exists_key(key.as_str());
        handle.release_read();
        Ok(r)
    }

    /// Loads the value under `key`, or null, while holding a read lock;
    /// the store itself never fails. Which value comes back depends on the
    /// state behind the lock, which concurrent mutation may change between
    /// calls.
    fn load(&self, key: String) -> (r: Result<ProtocolValue, DomainError>)
        ensures
            r is Ok,
    {
        let handle = self.lock.acquire_read();
        let r = handle.borrow().load(key.as_str());
        handle.release_read();
        Ok(r)
    }

    /// Deletes the value under `key` while holding the write lock; the
    /// store itself never fails.
    fn delete(&self, key: String) -> (r: Result<(), DomainError>)
        ensures
            r == Ok::<(), DomainError>(()),
    {
        proof {
            use_type_invariant(self);
        }
        let (mut v, handle) = self.lock.acquire_write();
        v.delete(key.as_str());
        handle.release_write(v);
        Ok(())
    }
}

} // verus!
