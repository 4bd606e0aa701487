//! The typed interfaces a module author writes against: the services the
//! module provides, the subscriber hooks it consumes, and the module trait
//! that bundles them for the shell.

use vstd::prelude::*;

use crate::error::DomainError;
use crate::value::ProtocolValue;

verus! {

/// The key-value-store service provided on the main slot.
pub trait KvsService: Send + Sync {
    /// Removes the value stored under `key`.
    fn delete(&self, key: String) -> Result<(), DomainError>;

    /// True when something is stored under `key`; answers the wire command
    /// named "exists".
    fn exists_key(&self, key: String) -> Result<bool, DomainError>;

    /// The value previously stored under `key`, or null when the key is
    /// absent.
    fn load(&self, key: String) -> Result<ProtocolValue, DomainError>;

    /// Stores `value` under `key`.
    fn store(&self, key: String, value: ProtocolValue) -> Result<(), DomainError>;
}

/// The example service provided on the foobar slot.
pub trait ExampleService: Send + Sync {
    /// True when something is stored under `key`.
    fn uses_something(&self, key: String) -> Result<bool, DomainError>;
}

/// A subscriber to the example interface's max_current variable.
pub trait ExampleSubscriber: Send + Sync {
    /// Called with each max_current payload the slot receives.
    fn on_max_current(&self, value: i64);
}

/// What a module author implements: accessors to the typed services and
/// subscribers behind each slot, and the optional readiness hook.
pub trait Module: Send + Sync {
    type MainService: KvsService;

    type FoobarService: ExampleService;

    type TheirExample: ExampleSubscriber;

    type AnotherExample: ExampleSubscriber;

    /// The service bound to the provided main slot.
    fn main(&self) -> &Self::MainService;

    /// The service bound to the provided foobar slot.
    fn foobar(&self) -> &Self::FoobarService;

    /// The subscriber bound to the required their_example slot.
    fn their_example(&self) -> &Self::TheirExample;

    /// The subscriber bound to the required another_example slot.
    fn another_example(&self) -> &Self::AnotherExample;

    /// One-time readiness hook; no-op unless the module overrides it.
    fn on_ready(&self) {
    }
}

} // verus!
