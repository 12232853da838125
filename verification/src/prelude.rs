//! The names most users need.
pub use crate::args::{JavaArgs, MethodType};
pub use crate::cache::{JavaMethodCache, JavaMethods};
pub use crate::value::ReturnedValue;
pub use jni::signature::Primitive as JniPrimitive;
pub use jni::signature::ReturnType;
