//! References whose kind is known: a class object, an array of numbers. The
//! VM takes such a reference on trust, so the library makes one only from what
//! a checked lookup returned or after it has asked the VM what the reference
//! is. The fields are private to this file; the functions below are the only
//! way to a value.
use crate::vm::{
    plain_signature, vm_call_object_method, vm_clear_exception, vm_delete_local, vm_find_class,
    vm_global_ref, vm_is_instance_of, vm_new_string, vm_null, vm_same_object,
};
use jni::objects::{GlobalRef, JObject};
use jni::JNIEnv;
use vstd::prelude::*;

verus! {

/// Whether `object` is the null reference; `None` where the VM does not say.
fn is_null<'local>(env: &mut JNIEnv<'local>, object: &GlobalRef) -> (r: Option<bool>) {
    let null = vm_null();
    match vm_same_object(env, object, &null) {
        Ok(same) => Some(same),
        Err(_) => {
            vm_clear_exception(env);
            None
        },
    }
}

/// A reference that outlives the current native frame to the object that
/// `local` refers to; `local` is given back to the VM. `None` where the VM
/// makes none or the object is null. No exception is left pending.
pub fn owned<'local>(env: &mut JNIEnv<'local>, local: JObject<'local>) -> (r: Option<GlobalRef>) {
    let global = vm_global_ref(env, &local);
    vm_delete_local(env, local);
    match global {
        Ok(object) => match is_null(env, &object) {
            Some(false) => Some(object),
            _ => None,
        },
        Err(_) => {
            vm_clear_exception(env);
            None
        },
    }
}

/// A reference to a class object, never null.
pub struct ClassRef {
    handle: GlobalRef,
}

impl ClassRef {
    /// The reference.
    pub closed spec fn global(&self) -> GlobalRef {
        self.handle
    }

    pub fn as_global(&self) -> (r: &GlobalRef)
        ensures
            *r == self.global(),
    {
        &self.handle
    }

    /// The class of that name as the VM's ambient lookup finds it. `None`
    /// where the VM finds none; no exception is left pending.
    pub fn find<'local>(env: &mut JNIEnv<'local>, name: &str) -> (r: Option<ClassRef>) {
        match vm_find_class(env, name) {
            Ok(local) => match owned(env, local) {
                Some(handle) => Some(ClassRef { handle }),
                None => None,
            },
            Err(_) => {
                vm_clear_exception(env);
                None
            },
        }
    }

    /// The class of that name as `loader` loads it: what its `loadClass`
    /// returns, once the VM has confirmed that it is a class object. `None`
    /// where the VM refuses any step; no exception is left pending.
    pub fn load<'local>(env: &mut JNIEnv<'local>, loader: &GlobalRef, name: &str) -> (r: Option<
        ClassRef,
    >) {
        let name_local = match vm_new_string(env, name) {
            Ok(s) => s,
            Err(_) => {
                vm_clear_exception(env);
                return None;
            },
        };
        let name_object = match owned(env, name_local) {
            Some(n) => n,
            None => {
                return None;
            },
        };
        proof {
            reveal_strlit("(Ljava/lang/String;)Ljava/lang/Class;");
        }
        let loaded = vm_call_object_method(
            env,
            loader,
            "loadClass",
            "(Ljava/lang/String;)Ljava/lang/Class;",
            Some(&name_object),
        );
        let handle = match loaded {
            Ok(local) => match owned(env, local) {
                Some(h) => h,
                None => {
                    return None;
                },
            },
            Err(_) => {
                vm_clear_exception(env);
                return None;
            },
        };
        let class_of_classes = match ClassRef::find(env, "java/lang/Class") {
            Some(c) => c,
            None => {
                return None;
            },
        };
        match vm_is_instance_of(env, &handle, &class_of_classes) {
            Ok(true) => Some(ClassRef { handle }),
            Ok(false) => None,
            Err(_) => {
                vm_clear_exception(env);
                None
            },
        }
    }
}

/// A reference to an array of doubles or of 32-bit integers, never null.
pub struct ArrayRef<'a> {
    handle: &'a GlobalRef,
    doubles: bool,
}

impl<'a> ArrayRef<'a> {
    /// The reference.
    pub closed spec fn global(&self) -> GlobalRef {
        *self.handle
    }

    /// Whether the elements are doubles; they are 32-bit integers otherwise.
    pub closed spec fn of_doubles(&self) -> bool {
        self.doubles
    }

    pub fn as_global(&self) -> (r: &'a GlobalRef)
        ensures
            *r == self.global(),
    {
        self.handle
    }

    /// `object` as an array of doubles (`doubles`) or of 32-bit integers,
    /// once the VM has confirmed that it is one: it is not null and an
    /// instance of the array class that the VM finds under `[D` or `[I`.
    /// `None` where it is not, or where the VM does not say; no exception is
    /// left pending.
    pub fn of<'local>(env: &mut JNIEnv<'local>, object: &'a GlobalRef, doubles: bool) -> (r:
        Option<ArrayRef<'a>>)
        ensures
            r matches Some(array) ==> array.global() == *object && array.of_doubles() == doubles,
    {
        let class = if doubles {
            ClassRef::find(env, "[D")
        } else {
            ClassRef::find(env, "[I")
        };
        let class = match class {
            Some(c) => c,
            None => {
                return None;
            },
        };
        match is_null(env, object) {
            Some(false) => {},
            _ => {
                return None;
            },
        }
        match vm_is_instance_of(env, object, &class) {
            Ok(true) => Some(ArrayRef { handle: object, doubles }),
            Ok(false) => None,
            Err(_) => {
                vm_clear_exception(env);
                None
            },
        }
    }
}

} // verus!
