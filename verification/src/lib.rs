//! Cached method resolution and cross-thread call dispatch for a host VM.
//!
//! Methods are resolved once, through the class loader, into two tables. One
//! executor, on the one thread that is attached to the VM, serves calls that
//! arbitrary threads send over a channel; each call carries the channel its
//! answer goes to. Objects that calls return are kept in a handle table under
//! names the caller chose and can be passed to later calls.
pub mod args;
pub mod cache;
pub mod errors;
pub mod laws;
pub mod executor;
pub mod manifest;
pub mod methods;
pub mod prelude;
pub mod refs;
pub mod response;
pub mod standard_class;
pub mod store;
pub mod text;
pub mod value;
pub mod vm;

pub use crate::args::{JavaArgs, JniArg, MethodType};
pub use crate::cache::{JavaMethodCache, JavaMethodCacheBuilder, JavaMethods};
pub use crate::errors::CallError;
pub use crate::response::{DynJVMResponse, JVMResponse, JVMResponseWrapper, KeptObject};
pub use crate::value::ReturnedValue;
pub use jni::signature;
pub use jni::signature::Primitive as JniPrimitive;
pub use jni::signature::ReturnType;
