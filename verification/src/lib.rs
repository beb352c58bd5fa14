//! A lifecycle bridge between caller-defined data and elements owned by a
//! host document tree.
//!
//! The host creates, connects, disconnects, re-parents and destroys its
//! elements on its own schedule. This crate keeps the bookkeeping for that:
//! which element kinds are registered, which host element owns which instance
//! data, what lifecycle state each instance is in, and which callback has to
//! run for each notification of the host. The crate never calls into the
//! host: every notification returns the callback that is due, and the caller
//! runs it.

pub mod attribute;
pub mod dispatch;
pub mod dispatcher;
pub mod fragment;
pub mod instance;
pub mod laws;
pub mod registry;
pub mod seal;
pub mod select;
pub mod template;
pub mod text;

pub use attribute::{AttributeChange, AttributeFilter};
pub use dispatch::{
    Callback, CallbackFailure, CallbackKind, ConstructError, ConstructRefusal, Dispatch,
    Invocation,
};
pub use dispatcher::Dispatcher;
pub use fragment::{Fragment, FragmentNode};
pub use instance::{
    HostElement, InsertError, InsertRefusal, Instance, InstanceId, InstanceInfo, InstanceTable,
    LifecycleEvent, LifecycleState, ReentrantAliasViolation,
};
pub use registry::{Registration, RegistrationError, Registry};
pub use seal::Sealed;
pub use select::{AutoComplete, SelectType};
pub use template::{InitClaim, InitInProgress, TemplateCache};
