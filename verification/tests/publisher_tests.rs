//! The publisher set over an in-memory call channel, and the independence
//! of its handles from the shell's lifetime.

use std::collections::HashMap;
use std::sync::Arc;
use std::sync::Mutex;

use modcore::error::CallError;
use modcore::example::OneClass;
use modcore::publisher::CallChannel;
use modcore::publisher::FoobarPublisher;
use modcore::publisher::KvsClient;
use modcore::publisher::ModulePublisher;
use modcore::services::ExampleService;
use modcore::services::ExampleSubscriber;
use modcore::services::KvsService;
use modcore::services::Module;
use modcore::shell::GenericToSpecificModuleProxy;
use modcore::store::SharedKvStore;
use modcore::value::ProtocolValue;

/// An in-memory call channel: answers their_store commands from a map and
/// records every publish.
#[derive(Clone)]
struct LoopbackChannel {
    store: Arc<Mutex<HashMap<String, ProtocolValue>>>,
    published: Arc<Mutex<Vec<(String, String, ProtocolValue)>>>,
}

impl LoopbackChannel {
    fn new() -> Self {
        LoopbackChannel {
            store: Arc::new(Mutex::new(HashMap::new())),
            published: Arc::new(Mutex::new(Vec::new())),
        }
    }
}

fn record_get(args: &ProtocolValue, name: &str) -> Option<ProtocolValue> {
    match args {
        ProtocolValue::Record(entries) => entries
            .iter()
            .find(|(k, _)| k == name)
            .map(|(_, v)| v.clone()),
        _ => None,
    }
}

fn record_key(args: &ProtocolValue) -> String {
    match record_get(args, "key") {
        Some(ProtocolValue::Text(s)) => s,
        _ => panic!("wanted a key argument"),
    }
}

impl CallChannel for LoopbackChannel {
    fn call(&self, slot_id: &str, name: &str, args: ProtocolValue) -> ProtocolValue {
        assert!(slot_id == "their_store" || slot_id == "their_example" || slot_id == "another_example");
        let mut store = self.store.lock().unwrap();
        match name {
            "store" => {
                let value = record_get(&args, "value").expect("wanted a value argument");
                store.insert(record_key(&args), value);
                ProtocolValue::Null
            }
            "delete" => {
                store.remove(&record_key(&args));
                ProtocolValue::Null
            }
            "exists" => ProtocolValue::Bool(store.contains_key(&record_key(&args))),
            "load" => store
                .get(&record_key(&args))
                .cloned()
                .unwrap_or(ProtocolValue::Null),
            "uses_something" => ProtocolValue::Bool(store.contains_key(&record_key(&args))),
            _ => panic!("unexpected command {name}"),
        }
    }

    fn publish(&self, slot_id: &str, name: &str, value: ProtocolValue) {
        self.published
            .lock()
            .unwrap()
            .push((slot_id.to_string(), name.to_string(), value));
    }
}

/// A channel whose every reply is an integer, so typed replies cannot
/// decode.
#[derive(Clone)]
struct GarbageChannel;

impl CallChannel for GarbageChannel {
    fn call(&self, _slot_id: &str, _name: &str, _args: ProtocolValue) -> ProtocolValue {
        ProtocolValue::Int(99)
    }

    fn publish(&self, _slot_id: &str, _name: &str, _value: ProtocolValue) {}
}

#[test]
fn kvs_client_round_trip() {
    let channel = LoopbackChannel::new();
    let client = KvsClient::new(channel);
    assert_eq!(client.exists_key("a".to_string()), Ok(false));
    assert_eq!(client.store("a".to_string(), ProtocolValue::Int(42)), Ok(()));
    assert_eq!(client.exists_key("a".to_string()), Ok(true));
    assert_eq!(client.load("a".to_string()), Ok(ProtocolValue::Int(42)));
    assert_eq!(client.delete("a".to_string()), Ok(()));
    assert_eq!(client.exists_key("a".to_string()), Ok(false));
    assert_eq!(client.load("a".to_string()), Ok(ProtocolValue::Null));
}

#[test]
fn undecodable_replies_fail_the_call() {
    let client = KvsClient::new(GarbageChannel);
    assert_eq!(client.store("a".to_string(), ProtocolValue::Int(1)), Err(CallError::Invalid));
    assert_eq!(client.exists_key("a".to_string()), Err(CallError::Invalid));
    assert_eq!(client.delete("a".to_string()), Err(CallError::Invalid));
    // Load declares an arbitrary return, so any reply decodes.
    assert_eq!(client.load("a".to_string()), Ok(ProtocolValue::Int(99)));
}

#[test]
fn publish_is_fire_and_forget() {
    let channel = LoopbackChannel::new();
    let publisher = FoobarPublisher::new(channel.clone());
    assert_eq!(publisher.publish_max_current(16), Ok(()));
    assert_eq!(publisher.publish_max_current(-3), Ok(()));
    let published = channel.published.lock().unwrap();
    assert_eq!(
        *published,
        vec![
            ("foobar".to_string(), "max_current".to_string(), ProtocolValue::Int(16)),
            ("foobar".to_string(), "max_current".to_string(), ProtocolValue::Int(-3)),
        ]
    );
}

#[test]
fn one_class_uses_something() {
    let channel = LoopbackChannel::new();
    let publisher = ModulePublisher::new(channel.clone());
    let one = OneClass::new(publisher);
    assert_eq!(one.uses_something("hello_there".to_string()), Ok(true));
    let stored = channel.store.lock().unwrap();
    assert_eq!(
        stored.get("hello_there"),
        Some(&ProtocolValue::List(vec![
            ProtocolValue::Int(1),
            ProtocolValue::Int(2),
            ProtocolValue::Int(3),
        ]))
    );
}

#[test]
fn one_class_forwards_the_store_interface() {
    let channel = LoopbackChannel::new();
    let one = OneClass::new(ModulePublisher::new(channel));
    assert_eq!(one.store("k".to_string(), ProtocolValue::Bool(true)), Ok(()));
    assert_eq!(one.exists_key("k".to_string()), Ok(true));
    assert_eq!(one.load("k".to_string()), Ok(ProtocolValue::Bool(true)));
    assert_eq!(one.delete("k".to_string()), Ok(()));
    assert_eq!(one.exists_key("k".to_string()), Ok(false));
}

struct SilentSubscriber;

impl ExampleSubscriber for SilentSubscriber {
    fn on_max_current(&self, _value: i64) {}
}

struct PublisherModule {
    store: SharedKvStore,
    one: OneClass<LoopbackChannel>,
    their: SilentSubscriber,
    another: SilentSubscriber,
}

impl Module for PublisherModule {
    type MainService = SharedKvStore;
    type FoobarService = OneClass<LoopbackChannel>;
    type TheirExample = SilentSubscriber;
    type AnotherExample = SilentSubscriber;

    fn main(&self) -> &SharedKvStore {
        &self.store
    }

    fn foobar(&self) -> &OneClass<LoopbackChannel> {
        &self.one
    }

    fn their_example(&self) -> &SilentSubscriber {
        &self.their
    }

    fn another_example(&self) -> &SilentSubscriber {
        &self.another
    }
}

#[test]
fn publisher_outlives_the_shell() {
    let channel = LoopbackChannel::new();
    let publisher = ModulePublisher::new(channel.clone());
    let module = PublisherModule {
        store: SharedKvStore::new(),
        one: OneClass::new(publisher.clone()),
        their: SilentSubscriber,
        another: SilentSubscriber,
    };
    let mut shell = GenericToSpecificModuleProxy::new(module);
    shell.on_ready();
    drop(shell);
    // The handles stay valid: the channel is alive and the handles own
    // their references to it.
    assert_eq!(publisher.their_store_publisher.store("a".to_string(), ProtocolValue::Int(7)), Ok(()));
    assert_eq!(publisher.their_store_publisher.exists_key("a".to_string()), Ok(true));
    assert_eq!(publisher.their_publisher.uses_something("a".to_string()), Ok(true));
    assert_eq!(publisher.foobar_publisher.publish_max_current(5), Ok(()));
    assert_eq!(channel.published.lock().unwrap().len(), 1);
}
