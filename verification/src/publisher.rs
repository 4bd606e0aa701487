//! The publisher set: one typed handle per slot for outbound command calls
//! and variable publishes over a shared call channel.
//!
//! The channel belongs to the surrounding runtime; each handle owns its own
//! reference to it, so handles stay valid and independently invocable for
//! the module's whole run, wherever the shell that dispatches inbound
//! traffic may be. The handles encode arguments and decode replies; a reply
//! whose shape does not match the command's declared return fails the call.

use vstd::prelude::*;

use crate::codec::decoded_bool;
use crate::codec::decoded_unit;
use crate::codec::decode_bool;
use crate::codec::decode_unit;
use crate::codec::encode_int;
use crate::error::CallError;
use crate::value::ProtocolValue;
use crate::value::ValueModel;
use crate::value::lemma_record_view_index;
use crate::value::record_view;

verus! {

/// The external call channel: sends an encoded command invocation and
/// blocks for its reply, or publishes an encoded variable payload with no
/// reply. The surrounding runtime implements it; nothing is assumed of
/// what it returns.
pub trait CallChannel: Sized + Clone + Send + Sync {
    /// Sends the command `name` with `args` to the slot `slot_id` and
    /// blocks for the reply.
    fn call(&self, slot_id: &str, name: &str, args: ProtocolValue) -> ProtocolValue;

    /// Publishes `value` for the variable `name` of the slot `slot_id`;
    /// fire and forget.
    fn publish(&self, slot_id: &str, name: &str, value: ProtocolValue);
}

/// The argument record of a key-addressed command: a single entry binding
/// "key" to the key.
pub fn make_key_args(key: String) -> (r: ProtocolValue)
    ensures
        r@ == ValueModel::Record(seq![("key"@, ValueModel::Text(key@))]),
{
    let mut entries: Vec<(String, ProtocolValue)> = Vec::new();
    entries.push(("key".to_owned(), ProtocolValue::Text(key)));
    proof {
        lemma_record_view_index(entries@);
        assert(record_view(entries@) =~= seq![("key"@, ValueModel::Text(key@))]);
    }
    ProtocolValue::Record(entries)
}

/// The argument record of the store command: "key" bound to the key and
/// "value" to the value.
pub fn make_key_value_args(key: String, value: ProtocolValue) -> (r: ProtocolValue)
    ensures
        r@ == ValueModel::Record(
            seq![("key"@, ValueModel::Text(key@)), ("value"@, value@)],
        ),
{
    let ghost value_model = value@;
    let mut entries: Vec<(String, ProtocolValue)> = Vec::new();
    entries.push(("key".to_owned(), ProtocolValue::Text(key)));
    entries.push(("value".to_owned(), value));
    proof {
        lemma_record_view_index(entries@);
        assert(record_view(entries@) =~= seq![
            ("key"@, ValueModel::Text(key@)),
            ("value"@, value_model),
        ]);
    }
    ProtocolValue::Record(entries)
}

/// Decodes the reply of a command whose declared return is void: null and
/// nothing else succeeds.
pub fn decode_unit_reply(blob: &ProtocolValue) -> (r: Result<(), CallError>)
    ensures
        match decoded_unit(blob@) {
            Some(_) => r == Ok::<(), CallError>(()),
            None => r == Err::<(), CallError>(CallError::Invalid),
        },
{
    match decode_unit(blob) {
        Ok(_) => Ok(()),
        Err(_) => Err(CallError::Invalid),
    }
}

/// Decodes the reply of a command whose declared return is a boolean.
pub fn decode_bool_reply(blob: &ProtocolValue) -> (r: Result<bool, CallError>)
    ensures
        match decoded_bool(blob@) {
            Some(b) => r == Ok::<bool, CallError>(b),
            None => r == Err::<bool, CallError>(CallError::Invalid),
        },
{
    match decode_bool(blob) {
        Ok(b) => Ok(b),
        Err(_) => Err(CallError::Invalid),
    }
}

/// Typed outbound handle for the required their_store slot: the remote
/// key-value store.
#[derive(Clone)]
pub struct KvsClient<C: CallChannel> {
    channel: C,
}

impl<C: CallChannel> KvsClient<C> {
    /// The slot id every call of this handle addresses.
    pub open spec fn slot(&self) -> Seq<char> {
        "their_store"@
    }

    /// A handle calling the their_store slot over `channel`.
    pub fn new(channel: C) -> (r: Self)
        ensures
            r.slot() == "their_store"@,
    {
        KvsClient { channel }
    }

    /// Removes the value stored under `key` in the remote store; the void
    /// reply must decode.
    pub fn delete(&self, key: String) -> (r: Result<(), CallError>)
        ensures
            r matches Err(e) ==> e == CallError::Invalid,
    {
        let args = make_key_args(key);
        let blob = self.channel.call("their_store", "delete", args);
        decode_unit_reply(&blob)
    }

    /// True when the remote store holds something under `key`; answers the
    /// wire command named "exists". The boolean reply must decode.
    pub fn exists_key(&self, key: String) -> (r: Result<bool, CallError>)
        ensures
            r matches Err(e) ==> e == CallError::Invalid,
    {
        let args = make_key_args(key);
        let blob = self.channel.call("their_store", "exists", args);
        decode_bool_reply(&blob)
    }

    /// The value the remote store holds under `key`, or null when the key
    /// is absent; any reply shape decodes.
    pub fn load(&self, key: String) -> (r: Result<ProtocolValue, CallError>)
        ensures
            r is Ok,
    {
        let args = make_key_args(key);
        let blob = self.channel.call("their_store", "load", args);
        Ok(blob)
    }

    /// Stores `value` under `key` in the remote store; the void reply must
    /// decode.
    pub fn store(&self, key: String, value: ProtocolValue) -> (r: Result<(), CallError>)
        ensures
            r matches Err(e) ==> e == CallError::Invalid,
    {
        let args = make_key_value_args(key, value);
        let blob = self.channel.call("their_store", "store", args);
        decode_unit_reply(&blob)
    }
}

/// Typed outbound handle for one required example slot.
#[derive(Clone)]
pub struct ExamplePublisher<C: CallChannel> {
    channel: C,
    slot_id: String,
}

impl<C: CallChannel> ExamplePublisher<C> {
    /// The slot id every call of this handle addresses, fixed at
    /// construction.
    pub closed spec fn slot(&self) -> Seq<char> {
        self.slot_id@
    }

    /// A handle calling the slot `slot_id` over `channel`.
    pub fn new(channel: C, slot_id: String) -> (r: Self)
        ensures
            r.slot() == slot_id@,
    {
        ExamplePublisher { channel, slot_id }
    }

    /// Asks the example service behind this handle's slot whether
    /// something is stored under `key`; the boolean reply must decode.
    pub fn uses_something(&self, key: String) -> (r: Result<bool, CallError>)
        ensures
            r matches Err(e) ==> e == CallError::Invalid,
    {
        let args = make_key_args(key);
        let blob = self.channel.call(self.slot_id.as_str(), "uses_something", args);
        decode_bool_reply(&blob)
    }
}

/// Typed outbound handle publishing the variables of the provided foobar
/// slot.
#[derive(Clone)]
pub struct FoobarPublisher<C: CallChannel> {
    channel: C,
}

impl<C: CallChannel> FoobarPublisher<C> {
    /// The slot id every publish of this handle addresses.
    pub open spec fn slot(&self) -> Seq<char> {
        "foobar"@
    }

    /// A handle publishing on the foobar slot over `channel`.
    pub fn new(channel: C) -> (r: Self)
        ensures
            r.slot() == "foobar"@,
    {
        FoobarPublisher { channel }
    }

    /// Publishes a max_current payload; fire and forget, so it always
    /// succeeds.
    pub fn publish_max_current(&self, max_current: i64) -> (r: Result<(), CallError>)
        ensures
            r == Ok::<(), CallError>(()),
    {
        self.channel.publish("foobar", "max_current", encode_int(max_current));
        Ok(())
    }
}

/// The collection of all publisher handles of the module, one per slot,
/// built once at startup and shareable for the module's whole run.
#[derive(Clone)]
pub struct ModulePublisher<C: CallChannel> {
    /// Handle to the required their_store slot.
    pub their_store_publisher: KvsClient<C>,
    /// Handle to the required their_example slot.
    pub their_publisher: ExamplePublisher<C>,
    /// Handle to the required another_example slot.
    pub another_publisher: ExamplePublisher<C>,
    /// Handle publishing on the provided foobar slot.
    pub foobar_publisher: FoobarPublisher<C>,
}

impl<C: CallChannel> ModulePublisher<C> {
    /// Builds every handle of the module over clones of `channel`, grouped
    /// by slot name: each handle is bound to its slot for the module's
    /// whole run.
    pub fn new(channel: C) -> (r: Self)
        ensures
            r.their_store_publisher.slot() == "their_store"@,
            r.their_publisher.slot() == "their_example"@,
            r.another_publisher.slot() == "another_example"@,
            r.foobar_publisher.slot() == "foobar"@,
    {
        ModulePublisher {
            their_store_publisher: KvsClient::new(channel.clone()),
            their_publisher: ExamplePublisher::new(channel.clone(), "their_example".to_owned()),
            another_publisher: ExamplePublisher::new(
                channel.clone(),
                "another_example".to_owned(),
            ),
            foobar_publisher: FoobarPublisher::new(channel),
        }
    }
}

} // verus!
