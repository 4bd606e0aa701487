//! Many dispatches increment a shared counter through the command
//! dispatcher without a lost update; dispatch borrows the shell, so
//! callers are never serialized against each other by the shell itself.

use std::sync::atomic::AtomicU64;
use std::sync::atomic::Ordering;
use std::sync::Arc;

use modcore::error::DomainError;
use modcore::services::ExampleService;
use modcore::services::ExampleSubscriber;
use modcore::services::KvsService;
use modcore::services::Module;
use modcore::shell::GenericToSpecificModuleProxy;
use modcore::value::ProtocolValue;
use modcore::valuemap::ParameterMap;

/// A service whose store command increments a shared counter under the
/// documented mutation policy: one atomic update per invocation.
struct CountingKvs {
    count: Arc<AtomicU64>,
}

impl KvsService for CountingKvs {
    fn delete(&self, _key: String) -> Result<(), DomainError> {
        Ok(())
    }

    fn exists_key(&self, _key: String) -> Result<bool, DomainError> {
        Ok(false)
    }

    fn load(&self, _key: String) -> Result<ProtocolValue, DomainError> {
        Ok(ProtocolValue::Int(self.count.load(Ordering::SeqCst) as i64))
    }

    fn store(&self, _key: String, _value: ProtocolValue) -> Result<(), DomainError> {
        self.count.fetch_add(1, Ordering::SeqCst);
        Ok(())
    }
}

struct NoExample;

impl ExampleService for NoExample {
    fn uses_something(&self, _key: String) -> Result<bool, DomainError> {
        Ok(false)
    }
}

struct NoSubscriber;

impl ExampleSubscriber for NoSubscriber {
    fn on_max_current(&self, _value: i64) {}
}

struct CountingModule {
    counting: CountingKvs,
    example: NoExample,
    their: NoSubscriber,
    another: NoSubscriber,
}

impl Module for CountingModule {
    type MainService = CountingKvs;
    type FoobarService = NoExample;
    type TheirExample = NoSubscriber;
    type AnotherExample = NoSubscriber;

    fn main(&self) -> &CountingKvs {
        &self.counting
    }

    fn foobar(&self) -> &NoExample {
        &self.example
    }

    fn their_example(&self) -> &NoSubscriber {
        &self.their
    }

    fn another_example(&self) -> &NoSubscriber {
        &self.another
    }
}

#[test]
fn hundred_dispatches_lose_no_update() {
    let count = Arc::new(AtomicU64::new(0));
    let module = CountingModule {
        counting: CountingKvs { count: count.clone() },
        example: NoExample,
        their: NoSubscriber,
        another: NoSubscriber,
    };
    let shell = Arc::new(GenericToSpecificModuleProxy::new(module));
    for caller in 0..100u64 {
        let shell = shell.clone();
        let mut params = ParameterMap::new();
        params.insert("key".to_string(), ProtocolValue::Text(format!("k{caller}")));
        params.insert("value".to_string(), ProtocolValue::Int(caller as i64));
        let r = shell.dispatch_command("main", "store", params);
        assert_eq!(r, Ok(ProtocolValue::Null));
    }
    assert_eq!(count.load(Ordering::SeqCst), 100);
}
