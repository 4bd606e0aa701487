//! Dispatch and marshalling core for string-addressed device-orchestration
//! modules: a value codec, command and variable dispatchers driven by a
//! startup-built slot table, typed publisher handles over an external call
//! channel, and the module shell that composes them.

pub mod codec;
pub mod dispatch;
pub mod error;
pub mod example;
pub mod publisher;
pub mod schema;
pub mod services;
pub mod shell;
pub mod store;
pub mod value;
pub mod valuemap;

pub use value::ProtocolValue;
pub use value::ValueModel;
