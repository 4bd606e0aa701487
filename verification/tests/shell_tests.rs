//! Dispatch through the module shell: slot and name resolution, argument
//! extraction, handler invocation, encoding, and the readiness hook.

use std::sync::atomic::AtomicUsize;
use std::sync::atomic::Ordering;
use std::sync::Arc;
use std::sync::Mutex;

use modcore::error::DispatchError;
use modcore::error::DomainError;
use modcore::services::ExampleService;
use modcore::services::ExampleSubscriber;
use modcore::services::KvsService;
use modcore::services::Module;
use modcore::shell::GenericToSpecificModuleProxy;
use modcore::store::SharedKvStore;
use modcore::value::ProtocolValue;
use modcore::valuemap::ParameterMap;

struct FixedExample {
    answer: bool,
}

impl ExampleService for FixedExample {
    fn uses_something(&self, _key: String) -> Result<bool, DomainError> {
        Ok(self.answer)
    }
}

struct RecordingSubscriber {
    seen: Arc<Mutex<Vec<i64>>>,
}

impl ExampleSubscriber for RecordingSubscriber {
    fn on_max_current(&self, value: i64) {
        self.seen.lock().unwrap().push(value);
    }
}

struct TestModule {
    store: SharedKvStore,
    foobar: FixedExample,
    their: RecordingSubscriber,
    another: RecordingSubscriber,
    ready: Arc<AtomicUsize>,
}

impl Module for TestModule {
    type MainService = SharedKvStore;
    type FoobarService = FixedExample;
    type TheirExample = RecordingSubscriber;
    type AnotherExample = RecordingSubscriber;

    fn main(&self) -> &SharedKvStore {
        &self.store
    }

    fn foobar(&self) -> &FixedExample {
        &self.foobar
    }

    fn their_example(&self) -> &RecordingSubscriber {
        &self.their
    }

    fn another_example(&self) -> &RecordingSubscriber {
        &self.another
    }

    fn on_ready(&self) {
        self.ready.fetch_add(1, Ordering::SeqCst);
    }
}

struct TestHarness {
    shell: GenericToSpecificModuleProxy<TestModule>,
    their_seen: Arc<Mutex<Vec<i64>>>,
    another_seen: Arc<Mutex<Vec<i64>>>,
    ready: Arc<AtomicUsize>,
}

fn harness() -> TestHarness {
    let their_seen = Arc::new(Mutex::new(Vec::new()));
    let another_seen = Arc::new(Mutex::new(Vec::new()));
    let ready = Arc::new(AtomicUsize::new(0));
    let module = TestModule {
        store: SharedKvStore::new(),
        foobar: FixedExample { answer: true },
        their: RecordingSubscriber { seen: their_seen.clone() },
        another: RecordingSubscriber { seen: another_seen.clone() },
        ready: ready.clone(),
    };
    TestHarness {
        shell: GenericToSpecificModuleProxy::new(module),
        their_seen,
        another_seen,
        ready,
    }
}

fn key_params(key: &str) -> ParameterMap {
    let mut params = ParameterMap::new();
    params.insert("key".to_string(), ProtocolValue::Text(key.to_string()));
    params
}

fn store_params(key: &str, value: ProtocolValue) -> ParameterMap {
    let mut params = key_params(key);
    params.insert("value".to_string(), value);
    params
}

#[test]
fn unknown_slot_and_unknown_command() {
    let h = harness();
    let r = h.shell.dispatch_command("no_such_slot", "x", ParameterMap::new());
    assert_eq!(r, Err(DispatchError::UnknownSlot));
    let r = h.shell.dispatch_command("known_slot", "x", ParameterMap::new());
    assert_eq!(r, Err(DispatchError::UnknownSlot));
    let r = h.shell.dispatch_command("main", "no_such_cmd", ParameterMap::new());
    assert_eq!(r, Err(DispatchError::UnknownCommand));
    let r = h.shell.dispatch_command("foobar", "store", key_params("a"));
    assert_eq!(r, Err(DispatchError::UnknownCommand));
}

#[test]
fn required_slot_takes_no_commands() {
    let h = harness();
    let r = h.shell.dispatch_command("their_store", "store", store_params("a", ProtocolValue::Int(1)));
    assert_eq!(r, Err(DispatchError::UnknownSlot));
}

#[test]
fn missing_argument_names_the_first_omitted_one() {
    let h = harness();
    let mut only_value = ParameterMap::new();
    only_value.insert("value".to_string(), ProtocolValue::Int(42));
    let r = h.shell.dispatch_command("main", "store", only_value);
    assert_eq!(r, Err(DispatchError::MissingArgument("key".to_string())));
    let r = h.shell.dispatch_command("main", "store", key_params("a"));
    assert_eq!(r, Err(DispatchError::MissingArgument("value".to_string())));
    let r = h.shell.dispatch_command("main", "store", ParameterMap::new());
    assert_eq!(r, Err(DispatchError::MissingArgument("key".to_string())));
}

#[test]
fn ill_shaped_argument_names_the_parameter() {
    let h = harness();
    let mut params = ParameterMap::new();
    params.insert("key".to_string(), ProtocolValue::Int(5));
    let r = h.shell.dispatch_command("main", "load", params);
    assert_eq!(r, Err(DispatchError::InvalidArgument("key".to_string())));
}

#[test]
fn extra_keys_are_ignored() {
    let h = harness();
    let mut params = store_params("a", ProtocolValue::Int(42));
    params.insert("surplus".to_string(), ProtocolValue::Bool(false));
    let r = h.shell.dispatch_command("main", "store", params);
    assert_eq!(r, Ok(ProtocolValue::Null));
    let r = h.shell.dispatch_command("main", "load", key_params("a"));
    assert_eq!(r, Ok(ProtocolValue::Int(42)));
}

#[test]
fn end_to_end_store_scenario() {
    let h = harness();
    let r = h.shell.dispatch_command("main", "store", store_params("a", ProtocolValue::Int(42)));
    assert_eq!(r, Ok(ProtocolValue::Null));
    let r = h.shell.dispatch_command("main", "exists", key_params("a"));
    assert_eq!(r, Ok(ProtocolValue::Bool(true)));
    let r = h.shell.dispatch_command("main", "load", key_params("a"));
    assert_eq!(r, Ok(ProtocolValue::Int(42)));
    let r = h.shell.dispatch_command("main", "delete", key_params("a"));
    assert_eq!(r, Ok(ProtocolValue::Null));
    let r = h.shell.dispatch_command("main", "exists", key_params("a"));
    assert_eq!(r, Ok(ProtocolValue::Bool(false)));
    let r = h.shell.dispatch_command("main", "load", key_params("missing"));
    assert_eq!(r, Ok(ProtocolValue::Null));
}

#[test]
fn store_replaces_and_accepts_structured_values() {
    let h = harness();
    let nested = ProtocolValue::Record(vec![
        ("a".to_string(), ProtocolValue::List(vec![ProtocolValue::Int(1), ProtocolValue::Null])),
    ]);
    let r = h.shell.dispatch_command("main", "store", store_params("k", ProtocolValue::Int(1)));
    assert_eq!(r, Ok(ProtocolValue::Null));
    let r = h.shell.dispatch_command("main", "store", store_params("k", nested.clone()));
    assert_eq!(r, Ok(ProtocolValue::Null));
    let r = h.shell.dispatch_command("main", "load", key_params("k"));
    assert_eq!(r, Ok(nested));
}

#[test]
fn empty_key_is_an_ordinary_key() {
    let h = harness();
    let r = h.shell.dispatch_command("main", "store", store_params("", ProtocolValue::Bool(true)));
    assert_eq!(r, Ok(ProtocolValue::Null));
    let r = h.shell.dispatch_command("main", "exists", key_params(""));
    assert_eq!(r, Ok(ProtocolValue::Bool(true)));
}

#[test]
fn uses_something_reaches_the_example_service() {
    let h = harness();
    let r = h.shell.dispatch_command("foobar", "uses_something", key_params("a"));
    assert_eq!(r, Ok(ProtocolValue::Bool(true)));
}

struct FailingKvs;
impl KvsService for FailingKvs {
    fn delete(&self, _key: String) -> Result<(), DomainError> {
        Err(DomainError::new("boom".to_string()))
    }
    fn exists_key(&self, _key: String) -> Result<bool, DomainError> {
        Err(DomainError::new("boom".to_string()))
    }
    fn load(&self, _key: String) -> Result<ProtocolValue, DomainError> {
        Err(DomainError::new("boom".to_string()))
    }
    fn store(&self, _key: String, _value: ProtocolValue) -> Result<(), DomainError> {
        Err(DomainError::new("boom".to_string()))
    }
}
struct FailingModule {
    failing: FailingKvs,
    foobar: FixedExample,
    their: RecordingSubscriber,
    another: RecordingSubscriber,
}
impl Module for FailingModule {
    type MainService = FailingKvs;
    type FoobarService = FixedExample;
    type TheirExample = RecordingSubscriber;
    type AnotherExample = RecordingSubscriber;
    fn main(&self) -> &FailingKvs {
        &self.failing
    }
    fn foobar(&self) -> &FixedExample {
        &self.foobar
    }
    fn their_example(&self) -> &RecordingSubscriber {
        &self.their
    }
    fn another_example(&self) -> &RecordingSubscriber {
        &self.another
    }
}

#[test]
fn domain_errors_pass_through_unmodified() {
    let seen = Arc::new(Mutex::new(Vec::new()));
    let shell = GenericToSpecificModuleProxy::new(FailingModule {
        failing: FailingKvs,
        foobar: FixedExample { answer: false },
        their: RecordingSubscriber { seen: seen.clone() },
        another: RecordingSubscriber { seen },
    });
    let r = shell.dispatch_command("main", "load", key_params("a"));
    assert_eq!(r, Err(DispatchError::Domain(DomainError::new("boom".to_string()))));
}

#[test]
fn variable_dispatch_routes_by_slot() {
    let h = harness();
    let r = h.shell.dispatch_variable("their_example", "max_current", ProtocolValue::Int(16));
    assert_eq!(r, Ok(()));
    let r = h.shell.dispatch_variable("another_example", "max_current", ProtocolValue::Int(32));
    assert_eq!(r, Ok(()));
    assert_eq!(*h.their_seen.lock().unwrap(), vec![16]);
    assert_eq!(*h.another_seen.lock().unwrap(), vec![32]);
}

#[test]
fn variable_dispatch_classifies_errors() {
    let h = harness();
    let r = h.shell.dispatch_variable("no_such_slot", "max_current", ProtocolValue::Int(1));
    assert_eq!(r, Err(DispatchError::UnknownSlot));
    let r = h.shell.dispatch_variable("foobar", "max_current", ProtocolValue::Int(1));
    assert_eq!(r, Err(DispatchError::UnknownSlot));
    let r = h.shell.dispatch_variable("their_example", "no_such_var", ProtocolValue::Int(1));
    assert_eq!(r, Err(DispatchError::UnknownVariable));
    let r = h.shell.dispatch_variable("their_store", "max_current", ProtocolValue::Int(1));
    assert_eq!(r, Err(DispatchError::UnknownVariable));
    let r = h.shell.dispatch_variable("their_example", "max_current", ProtocolValue::Text("16".to_string()));
    assert_eq!(r, Err(DispatchError::InvalidArgument("max_current".to_string())));
    assert!(h.their_seen.lock().unwrap().is_empty());
}

#[test]
fn on_ready_fires_exactly_once() {
    let mut h = harness();
    assert_eq!(h.ready.load(Ordering::SeqCst), 0);
    assert!(!h.shell.is_running());
    h.shell.on_ready();
    assert_eq!(h.ready.load(Ordering::SeqCst), 1);
    assert!(h.shell.is_running());
    h.shell.on_ready();
    assert_eq!(h.ready.load(Ordering::SeqCst), 1);
    assert!(h.shell.is_running());
}
