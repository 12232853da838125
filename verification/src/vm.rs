//! The boundary to the host VM: the `jni` types that pass through the library
//! and one thin call for each native-interface function the library uses.
//!
//! Nothing in this file is proved. Every function here hands its arguments to
//! one function of `jni` and converts what comes back; what the VM answers
//! depends on the VM, so their contracts state only what holds of every answer.
//! Where the VM takes a reference on trust as a class or as an array, the
//! function takes a `ClassRef` or an `ArrayRef`, which exist only for
//! references of that kind.
use crate::refs::{ArrayRef, ClassRef};
use jni::errors::Error;
use jni::objects::{GlobalRef, JMethodID, JObject, JStaticMethodID, JValueGen};
use jni::JNIEnv;
use vstd::prelude::*;

verus! {

// The types of `jni` that the library passes on. But for `JValueGen` they are
// opaque: the library holds and hands over their values and reads nothing in
// them.
#[verifier::external_type_specification]
#[verifier::external_body]
pub struct ExJNIEnv<'local>(JNIEnv<'local>);

#[verifier::external_type_specification]
#[verifier::external_body]
pub struct ExRawObject(jni::sys::_jobject);

#[verifier::external_type_specification]
#[verifier::external_body]
pub struct ExJObject<'local>(JObject<'local>);

#[verifier::external_type_specification]
#[verifier::external_body]
pub struct ExGlobalRef(GlobalRef);

#[verifier::external_type_specification]
#[verifier::external_body]
pub struct ExJMethodID(JMethodID);

#[verifier::external_type_specification]
#[verifier::external_body]
pub struct ExJStaticMethodID(JStaticMethodID);

/// A value that a call into the VM hands back. Its variants are read as they
/// are declared.
#[verifier::external_type_specification]
#[verifier::reject_recursive_types(O)]
pub struct ExJValueGen<O>(JValueGen<O>);

#[verifier::external_type_specification]
#[verifier::external_body]
pub struct ExJniError(Error);

#[verifier::external_type_specification]
#[verifier::external_body]
pub struct ExReturnType(jni::signature::ReturnType);

/// `JNIEnv::find_class`: the class of that name as the VM's ambient lookup
/// finds it, or the VM's error.
#[verifier::external_body]
pub(crate) fn vm_find_class<'local>(env: &mut JNIEnv<'local>, name: &str) -> (r: Result<
    JObject<'local>,
    Error,
>) {
    match env.find_class(name) {
        Ok(class) => Ok(class.into()),
        Err(e) => Err(e),
    }
}

/// `JNIEnv::new_string`: a VM string holding `text`, or the VM's error.
#[verifier::external_body]
pub(crate) fn vm_new_string<'local>(env: &JNIEnv<'local>, text: &str) -> (r: Result<
    JObject<'local>,
    Error,
>) {
    match env.new_string(text) {
        Ok(string) => Ok(string.into()),
        Err(e) => Err(e),
    }
}

/// `JNIEnv::delete_local_ref`: gives a local reference back to the VM.
#[verifier::external_body]
pub(crate) fn vm_delete_local<'local>(env: &JNIEnv<'local>, obj: JObject<'local>) {
    let _ = env.delete_local_ref(obj);
}

/// A signature that names no method type among its parameters: it has no
/// opening bracket after its first character.
pub open spec fn plain_signature(sig: Seq<char>) -> bool {
    forall|i: int| 1 <= i < sig.len() ==> sig[i] != '('
}

/// `JNIEnv::call_method`, for a method that returns an object and takes
/// either nothing or one object: the checked call by name and signature on
/// `target`. The result is the object returned, or the error of the lookup, of
/// the call, or of a result that is no object. `call_method` panics where a
/// parameter of the signature parses as a method type, which
/// `plain_signature` rules out.
#[verifier::external_body]
pub(crate) fn vm_call_object_method<'local>(
    env: &mut JNIEnv<'local>,
    target: &GlobalRef,
    name: &str,
    sig: &str,
    arg: Option<&GlobalRef>,
) -> (r: Result<JObject<'local>, Error>)
    requires
        plain_signature(sig@),
{
    let returned = match arg {
        Some(o) => env.call_method(target, name, sig, &[JValueGen::Object(o.as_obj())]),
        None => env.call_method(target, name, sig, &[]),
    };
    match returned {
        Ok(value) => value.l(),
        Err(e) => Err(e),
    }
}

/// `JNIEnv::get_method_id`: the identifier of the instance method of that name
/// and signature in `class`, or the VM's error.
#[verifier::external_body]
pub(crate) fn vm_get_method_id<'local>(
    env: &mut JNIEnv<'local>,
    class: &ClassRef,
    name: &str,
    sig: &str,
) -> (r: Result<JMethodID, Error>) {
    env.get_method_id(class.as_global(), name, sig)
}

/// `JNIEnv::get_static_method_id`: the identifier of the static method of that
/// name and signature in `class`, or the VM's error.
#[verifier::external_body]
pub(crate) fn vm_get_static_method_id<'local>(
    env: &mut JNIEnv<'local>,
    class: &ClassRef,
    name: &str,
    sig: &str,
) -> (r: Result<JStaticMethodID, Error>) {
    env.get_static_method_id(class.as_global(), name, sig)
}

/// `JObject::null`: the null reference.
#[verifier::external_body]
pub(crate) fn vm_null() -> (r: JObject<'static>) {
    JObject::null()
}

/// `JNIEnv::is_same_object`: whether both references refer to the same
/// object or are both null, or the VM's error.
#[verifier::external_body]
pub(crate) fn vm_same_object<'local>(
    env: &JNIEnv<'local>,
    first: &GlobalRef,
    second: &JObject<'static>,
) -> (r: Result<bool, Error>) {
    env.is_same_object(first, second)
}

/// `JNIEnv::new_global_ref`: a reference to the same object that outlives the
/// current native frame, or the VM's error.
#[verifier::external_body]
pub(crate) fn vm_global_ref<'local>(env: &JNIEnv<'local>, obj: &JObject<'local>) -> (r: Result<
    GlobalRef,
    Error,
>) {
    env.new_global_ref(obj)
}

/// `JNIEnv::exception_clear`: drops the exception pending on this thread, if
/// any, so that later calls are not refused on its account.
#[verifier::external_body]
pub(crate) fn vm_clear_exception<'local>(env: &JNIEnv<'local>) {
    let _ = env.exception_clear();
}

/// `JNIEnv::is_instance_of`: whether `obj` can be cast to `class`, which the
/// VM affirms of the null reference whatever the class, or the VM's error.
#[verifier::external_body]
pub(crate) fn vm_is_instance_of<'local>(
    env: &mut JNIEnv<'local>,
    obj: &GlobalRef,
    class: &ClassRef,
) -> (r: Result<bool, Error>) {
    env.is_instance_of(obj, class.as_global())
}

/// `JNIEnv::get_string`: the text of a VM string as a native string, or the
/// error where `obj` is null or no string.
#[verifier::external_body]
pub(crate) fn vm_get_string<'local>(env: &mut JNIEnv<'local>, obj: &GlobalRef) -> (r: Result<
    String,
    Error,
>) {
    match env.get_string(obj.as_obj().into()) {
        Ok(text) => Ok(text.into()),
        Err(e) => Err(e),
    }
}

/// `JNIEnv::get_array_length`: the number of elements of the array, or the
/// VM's error.
#[verifier::external_body]
pub(crate) fn vm_array_length<'local>(env: &JNIEnv<'local>, array: &ArrayRef) -> (r: Result<
    i32,
    Error,
>) {
    let array: &jni::objects::JIntArray = array.as_global().as_obj().into();
    env.get_array_length(array)
}

/// `JNIEnv::get_int_array_region` from index 0: fills `buf` with the first
/// `buf.len()` elements of an array of 32-bit integers, or returns the VM's
/// error. The buffer keeps its length.
#[verifier::external_body]
pub(crate) fn vm_int_array_region<'local>(
    env: &JNIEnv<'local>,
    array: &ArrayRef,
    buf: &mut Vec<i32>,
) -> (r: Result<(), Error>)
    requires
        !array.of_doubles(),
    ensures
        final(buf)@.len() == old(buf)@.len(),
{
    let array: &jni::objects::JIntArray = array.as_global().as_obj().into();
    env.get_int_array_region(array, 0, buf)
}

/// `JNIEnv::get_double_array_region` from index 0: the first `len` elements of
/// an array of doubles, each as its IEEE-754 bit pattern, or the VM's error.
#[verifier::external_body]
pub(crate) fn vm_double_array_bits<'local>(
    env: &JNIEnv<'local>,
    array: &ArrayRef,
    len: usize,
) -> (r: Result<Vec<u64>, Error>)
    requires
        array.of_doubles(),
    ensures
        r matches Ok(bits) ==> bits@.len() == len,
{
    let array: &jni::objects::JDoubleArray = array.as_global().as_obj().into();
    let mut buf: Vec<jni::sys::jdouble> = vec![Default::default(); len];
    match env.get_double_array_region(array, 0, &mut buf) {
        Ok(()) => Ok(buf.into_iter().map(|d| d.to_bits()).collect()),
        Err(e) => Err(e),
    }
}

} // verus!
