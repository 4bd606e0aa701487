//! An example domain implementation written against the publisher set: it
//! serves both provided interfaces by forwarding to the remote store behind
//! the their_store slot, the way a module author would.

use vstd::prelude::*;

use crate::error::DomainError;
use crate::publisher::CallChannel;
use crate::publisher::ModulePublisher;
use crate::services::ExampleService;
use crate::services::KvsService;
use crate::value::ProtocolValue;

verus! {

/// The example module's one domain object: every provided command ends up
/// here, and every outbound call leaves through its publisher set.
pub struct OneClass<C: CallChannel> {
    publisher: ModulePublisher<C>,
}

impl<C: CallChannel> OneClass<C> {
    /// A domain object sending its outbound calls through `publisher`.
    pub fn new(publisher: ModulePublisher<C>) -> Self {
        OneClass { publisher }
    }

    /// Readiness hook of the example module; nothing to set up.
    pub fn on_ready(&self) {
    }
}

/// The error reported when a remote reply does not decode.
fn bad_reply() -> DomainError {
    DomainError::new("reply from their_store did not decode".to_owned())
}

impl<C: CallChannel> KvsService for OneClass<C> {
    /// Forwards the delete to the remote store.
    fn delete(&self, key: String) -> Result<(), DomainError> {
        match self.publisher.their_store_publisher.delete(key) {
            Ok(_) => Ok(()),
            Err(_) => Err(bad_reply()),
        }
    }

    /// Forwards the existence test to the remote store.
    fn exists_key(&self, key: String) -> Result<bool, DomainError> {
        match self.publisher.their_store_publisher.exists_key(key) {
            Ok(b) => Ok(b),
            Err(_) => Err(bad_reply()),
        }
    }

    /// Forwards the load to the remote store.
    fn load(&self, key: String) -> Result<ProtocolValue, DomainError> {
        match self.publisher.their_store_publisher.load(key) {
            Ok(v) => Ok(v),
            Err(_) => Err(bad_reply()),
        }
    }

    /// Forwards the store to the remote store.
    fn store(&self, key: String, value: ProtocolValue) -> Result<(), DomainError> {
        match self.publisher.their_store_publisher.store(key, value) {
            Ok(_) => Ok(()),
            Err(_) => Err(bad_reply()),
        }
    }
}

impl<C: CallChannel> ExampleService for OneClass<C> {
    /// Demonstrates a round trip through the remote store: stores a small
    /// list under `key`, loads it back and checks its shape, and reports
    /// whether the key already existed after the store.
    fn uses_something(&self, key: String) -> Result<bool, DomainError> {
        if self.publisher.their_store_publisher.exists_key(key.clone()).is_err() {
            return Err(bad_reply());
        }
        let mut items: Vec<ProtocolValue> = Vec::new();
        items.push(ProtocolValue::Int(1));
        items.push(ProtocolValue::Int(2));
        items.push(ProtocolValue::Int(3));
        let test_list = ProtocolValue::List(items);
        if self.publisher.their_store_publisher.store(key.clone(), test_list).is_err() {
            return Err(bad_reply());
        }
        let exi = match self.publisher.their_store_publisher.exists_key(key.clone()) {
            Ok(b) => b,
            Err(_) => {
                return Err(bad_reply());
            },
        };
        let loaded = match self.publisher.their_store_publisher.load(key) {
            Ok(v) => v,
            Err(_) => {
                return Err(bad_reply());
            },
        };
        let items = match loaded {
            ProtocolValue::List(items) => items,
            _ => {
                return Err(DomainError::new("wanted a list as the loaded value".to_owned()));
            },
        };
        let mut i: usize = 0;
        while i < items.len()
            decreases items@.len() - i,
        {
            match &items[i] {
                ProtocolValue::Int(_) => {},
                _ => {
                    return Err(
                        DomainError::new("wanted a list of integers as the loaded value".to_owned()),
                    );
                },
            }
            i = i + 1;
        }
        Ok(exi)
    }
}

} // verus!
