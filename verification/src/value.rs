//! Call results as native values, and the decoding of what the VM returns.
use crate::errors::CallError;
use crate::standard_class::StandardClassCache;
use crate::store::JObjectStore;
use crate::text::same_text;
use crate::refs::ArrayRef;
use crate::vm::{
    vm_array_length, vm_clear_exception, vm_delete_local, vm_double_array_bits, vm_get_string,
    vm_global_ref, vm_int_array_region, vm_is_instance_of,
};
use jni::errors::Error;
use jni::objects::{GlobalRef, JObject, JValueGen};
use jni::JNIEnv;
use vstd::prelude::*;

verus! {

/// The value of a finished call.
#[derive(Clone, Debug)]
pub enum ReturnedValue {
    /// A 32-bit integer.
    I32(i32),
    /// An object that was not unpacked; it is kept in the handle table under
    /// this name.
    JObject(String),
    /// No value.
    Void,
    /// A 64-bit integer.
    Long(i64),
    /// An array of 32-bit floats; not carried.
    ArrayFloat,
    /// Text.
    String(String),
    /// An array of doubles, each element as its IEEE-754 bit pattern.
    VecDouble(Vec<u64>),
    /// An array of 32-bit integers.
    VecI32(Vec<i32>),
}

/// A returned value as mathematics.
pub enum ReturnedModel {
    I32(i32),
    JObject(Seq<char>),
    Void,
    Long(i64),
    ArrayFloat,
    Text(Seq<char>),
    VecDouble(Seq<u64>),
    VecI32(Seq<i32>),
}

impl View for ReturnedValue {
    type V = ReturnedModel;

    open spec fn view(&self) -> ReturnedModel {
        match self {
            ReturnedValue::I32(v) => ReturnedModel::I32(*v),
            ReturnedValue::JObject(id) => ReturnedModel::JObject(id@),
            ReturnedValue::Void => ReturnedModel::Void,
            ReturnedValue::Long(v) => ReturnedModel::Long(*v),
            ReturnedValue::ArrayFloat => ReturnedModel::ArrayFloat,
            ReturnedValue::String(s) => ReturnedModel::Text(s@),
            ReturnedValue::VecDouble(v) => ReturnedModel::VecDouble(v@),
            ReturnedValue::VecI32(v) => ReturnedModel::VecI32(v@),
        }
    }
}

/// How the instances of a class are unpacked.
#[derive(Clone, Copy, Debug, PartialEq, Eq, Structural)]
pub enum Extraction {
    /// As text.
    Text,
    /// As an array of doubles.
    Doubles,
    /// As an array of 32-bit integers.
    Ints,
}

/// How the instances of the class of that name are unpacked, if at all.
pub open spec fn extraction_of(class_name: Seq<char>) -> Option<Extraction> {
    if class_name == "java/lang/String"@ {
        Some(Extraction::Text)
    } else if class_name == "[D"@ {
        Some(Extraction::Doubles)
    } else if class_name == "[I"@ {
        Some(Extraction::Ints)
    } else {
        None
    }
}

/// How the instances of the class of that name are unpacked, if at all.
pub fn extraction_kind(class_name: &str) -> (r: Option<Extraction>)
    ensures
        r == extraction_of(class_name@),
{
    if same_text(class_name, "java/lang/String") {
        Some(Extraction::Text)
    } else if same_text(class_name, "[D") {
        Some(Extraction::Doubles)
    } else if same_text(class_name, "[I") {
        Some(Extraction::Ints)
    } else {
        None
    }
}

/// Whether `chosen` is the first position of `answers` that says yes, and
/// `None` where none does.
pub open spec fn first_yes(answers: Seq<bool>, chosen: Option<usize>) -> bool {
    match chosen {
        Some(i) => i < answers.len() && answers[i as int] && forall|j: int|
            0 <= j < i ==> !answers[j],
        None => forall|j: int| 0 <= j < answers.len() ==> !answers[j],
    }
}

/// Whether `answers` are the answers of the first of `classes` classes, asked
/// in order up to the first yes: nothing follows a yes, and the asking ends
/// early only on a yes.
pub open spec fn asked_in_order(answers: Seq<bool>, classes: nat) -> bool {
    &&& answers.len() <= classes
    &&& forall|j: int| 0 <= j < answers.len() - 1 ==> !answers[j]
    &&& answers.len() < classes ==> answers.len() > 0 && answers.last()
}

/// Of the classes to unpack, asked in priority order whether the object is an
/// instance of them, the one that is used: the first that answered yes, even
/// where a later one answered yes too.
pub fn first_extractible(answers: &Vec<bool>) -> (r: Option<usize>)
    ensures
        first_yes(answers@, r),
{
    let mut i: usize = 0;
    while i < answers.len()
        invariant
            i <= answers@.len(),
            forall|j: int| 0 <= j < i ==> !answers@[j],
        decreases answers@.len() - i,
    {
        if answers[i] {
            return Some(i);
        }
        i = i + 1;
    }
    None
}

/// Asks the VM, class by class in priority order, whether `object` is an
/// instance, and stops at the first yes. The result is the position of that
/// class, `None` where every class was asked and none said yes.
fn check_if_extractible_classes<'local>(
    env: &mut JNIEnv<'local>,
    standard_class_list: &StandardClassCache,
    object: &GlobalRef,
) -> (r: Result<Option<usize>, CallError>)
    ensures
        r matches Ok(Some(i)) ==> i < standard_class_list@.len(),
        r matches Err(e) ==> e == CallError::ResultUnreadable,
        standard_class_list@.len() == 0 ==> r == Ok::<Option<usize>, CallError>(None),
        r matches Ok(chosen) ==> exists|answers: Seq<bool>|
            asked_in_order(answers, standard_class_list@.len()) && first_yes(answers, chosen),
{
    let mut answers: Vec<bool> = Vec::new();
    let mut matched: bool = false;
    while answers.len() < standard_class_list.len() && !matched
        invariant
            answers@.len() <= standard_class_list@.len(),
            forall|j: int| 0 <= j < answers@.len() - 1 ==> !answers@[j],
            matched ==> answers@.len() > 0 && answers@.last(),
            !matched ==> forall|j: int| 0 <= j < answers@.len() ==> !answers@[j],
        decreases standard_class_list@.len() - answers@.len() + (if matched {
            0int
        } else {
            1int
        }),
    {
        let class = standard_class_list.get(answers.len()).class_object();
        let is_std_class: bool = match vm_is_instance_of(env, object, class) {
            Ok(b) => b,
            Err(_) => {
                vm_clear_exception(env);
                return Err(CallError::ResultUnreadable);
            },
        };
        answers.push(is_std_class);
        matched = is_std_class;
    }
    let chosen = first_extractible(&answers);
    assert(asked_in_order(answers@, standard_class_list@.len() as nat) && first_yes(
        answers@,
        chosen,
    ));
    Ok(chosen)
}

/// Unpacks `object` as the instances of the class of that name are unpacked:
/// text as a native string, a numeric array as a native sequence of all its
/// elements. `Ok(None)` where that class is not unpacked.
fn extract_value<'local>(env: &mut JNIEnv<'local>, class_name: &str, object: &GlobalRef) -> (r:
    Result<Option<ReturnedValue>, CallError>)
    ensures
        r matches Ok(None) <==> extraction_of(class_name@) is None,
        r matches Ok(Some(v)) ==> match extraction_of(class_name@) {
            Some(Extraction::Text) => v@ is Text,
            Some(Extraction::Doubles) => v@ is VecDouble,
            Some(Extraction::Ints) => v@ is VecI32,
            None => false,
        },
        r matches Err(e) ==> e == CallError::ResultUnreadable,
{
    match extraction_kind(class_name) {
        None => Ok(None),
        Some(Extraction::Text) => match vm_get_string(env, object) {
            Ok(rust_string) => Ok(Some(ReturnedValue::String(rust_string))),
            Err(_) => {
                vm_clear_exception(env);
                Err(CallError::ResultUnreadable)
            },
        },
        Some(Extraction::Doubles) => read_whole_array(env, object, true),
        Some(Extraction::Ints) => read_whole_array(env, object, false),
    }
}

/// Reads `object` as a whole array of doubles (`doubles`) or of 32-bit
/// integers: confirms with the VM that it is one, asks for its length and
/// reads that many elements from its start.
fn read_whole_array<'local>(env: &mut JNIEnv<'local>, object: &GlobalRef, doubles: bool) -> (r:
    Result<Option<ReturnedValue>, CallError>)
    ensures
        r matches Ok(found) ==> (found matches Some(v) && if doubles {
            v@ is VecDouble
        } else {
            v@ is VecI32
        }),
        r matches Err(e) ==> e == CallError::ResultUnreadable,
{
    let array = match ArrayRef::of(env, object, doubles) {
        Some(a) => a,
        None => {
            return Err(CallError::ResultUnreadable);
        },
    };
    let length: usize = match array_length(env, &array) {
        Some(l) => l,
        None => {
            return Err(CallError::ResultUnreadable);
        },
    };
    match read_array(env, &array, doubles, length) {
        Ok(value) => Ok(Some(value)),
        Err(e) => Err(e),
    }
}

/// Reads the first `length` elements of `array` into a native sequence of
/// that length: bit patterns for an array of doubles, 32-bit integers
/// otherwise. No exception is left pending.
pub fn read_array<'local>(
    env: &mut JNIEnv<'local>,
    array: &ArrayRef,
    doubles: bool,
    length: usize,
) -> (r: Result<ReturnedValue, CallError>)
    requires
        array.of_doubles() == doubles,
    ensures
        r matches Ok(v) ==> (if doubles {
            v@ matches ReturnedModel::VecDouble(s) && s.len() == length
        } else {
            v@ matches ReturnedModel::VecI32(s) && s.len() == length
        }),
        r matches Err(e) ==> e == CallError::ResultUnreadable,
{
    if doubles {
        match vm_double_array_bits(env, array, length) {
            Ok(bits) => Ok(ReturnedValue::VecDouble(bits)),
            Err(_) => {
                vm_clear_exception(env);
                Err(CallError::ResultUnreadable)
            },
        }
    } else {
        let mut buffer: Vec<i32> = zeroes(length);
        match vm_int_array_region(env, array, &mut buffer) {
            Ok(()) => Ok(ReturnedValue::VecI32(buffer)),
            Err(_) => {
                vm_clear_exception(env);
                Err(CallError::ResultUnreadable)
            },
        }
    }
}

/// The length to read an array with, for what the VM reported as its length:
/// the reported number where it is one, and none where the VM failed or the
/// number is negative.
pub open spec fn usable_length(reported: Result<i32, Error>) -> Option<usize> {
    match reported {
        Ok(length) => if length >= 0 {
            Some(length as usize)
        } else {
            None
        },
        Err(_) => None,
    }
}

/// The length to read an array with, for what the VM reported as its length.
pub fn usable(reported: Result<i32, Error>) -> (r: Option<usize>)
    ensures
        r == usable_length(reported),
{
    match reported {
        Ok(length) => if length >= 0 {
            Some(length as usize)
        } else {
            None
        },
        Err(_) => None,
    }
}

/// Asks the VM for the length of `array`. The result is the usable length for
/// what the VM reported; no exception is left pending.
fn array_length<'local>(env: &mut JNIEnv<'local>, array: &ArrayRef) -> (r: Option<usize>)
    ensures
        exists|reported: Result<i32, Error>| r == usable_length(reported),
{
    let reported = vm_array_length(env, array);
    if reported.is_err() {
        vm_clear_exception(env);
    }
    let ghost given = reported;
    let r = usable(reported);
    assert(r == usable_length(given));
    r
}

fn zeroes(length: usize) -> (r: Vec<i32>)
    ensures
        r@.len() == length,
        forall|i: int| 0 <= i < length ==> r@[i] == 0,
{
    let mut buffer: Vec<i32> = Vec::new();
    let mut i: usize = 0;
    while i < length
        invariant
            i <= length,
            buffer@.len() == i,
            forall|k: int| 0 <= k < i ==> buffer@[k] == 0,
        decreases length - i,
    {
        buffer.push(0);
        i = i + 1;
    }
    buffer
}

/// Keeps a returned object in the handle table under the name the caller gave
/// and returns that name as the call's value. Without a name nothing is kept
/// and the call fails.
pub fn register_object(
    j_object_method_store: &mut JObjectStore,
    object_store_id: Option<String>,
    object: GlobalRef,
) -> (r: Result<ReturnedValue, CallError>)
    requires
        old(j_object_method_store).wf(),
    ensures
        final(j_object_method_store).wf(),
        match object_store_id {
            Some(id) => (r matches Ok(v) && v@ == ReturnedModel::JObject(id@)) && final(
                j_object_method_store)@ == old(j_object_method_store)@.insert(id@, object),
            None => r == Err::<ReturnedValue, CallError>(CallError::MissingObjectId) && final(
                j_object_method_store)@ == old(j_object_method_store)@,
        },
{
    match object_store_id {
        Some(id) => {
            j_object_method_store.add_object_with_id(id.as_str(), object);
            Ok(ReturnedValue::JObject(id))
        },
        None => Err(CallError::MissingObjectId),
    }
}

impl ReturnedValue {
    /// Whether a returned value of this model leaves the handle table as it
    /// was, or names the one entry that was written.
    pub open spec fn accounts_for(
        value: ReturnedModel,
        before: Map<Seq<char>, GlobalRef>,
        after: Map<Seq<char>, GlobalRef>,
        object_store_id: Option<String>,
    ) -> bool {
        match value {
            ReturnedModel::JObject(id) => object_store_id matches Some(given) && given@ == id
                && after.dom() == before.dom().insert(id) && after.remove(id) == before.remove(id),
            _ => after == before,
        }
    }

    /// What decoding `result` may give, with `classes` the names of the
    /// classes to unpack: a primitive decodes to itself, a 32-bit integer, a
    /// 64-bit integer, or nothing for every other kind; an object decodes to
    /// text or to a numeric array only where the class of that kind is among
    /// `classes`, else to the name it is kept under, or fails because the VM
    /// did not hand it over or because no name was given.
    pub open spec fn decodes_to<'local>(
        result: JValueGen<JObject<'local>>,
        classes: Seq<Seq<char>>,
        object_store_id: Option<String>,
        r: Result<ReturnedValue, CallError>,
    ) -> bool {
        match result {
            JValueGen::Int(i) => r matches Ok(v) && v@ == ReturnedModel::I32(i),
            JValueGen::Long(l) => r matches Ok(v) && v@ == ReturnedModel::Long(l),
            JValueGen::Object(_) => match r {
                Ok(v) => {
                    &&& v@ is JObject || v@ is Text || v@ is VecDouble || v@ is VecI32
                    &&& v@ is Text ==> classes.contains("java/lang/String"@)
                    &&& v@ is VecDouble ==> classes.contains("[D"@)
                    &&& v@ is VecI32 ==> classes.contains("[I"@)
                },
                Err(e) => e == CallError::ResultUnreadable || (e == CallError::MissingObjectId
                    && object_store_id is None),
            },
            _ => r matches Ok(v) && v@ == ReturnedModel::Void,
        }
    }

    /// Whether the handle table changed as `r` says: a result that names a
    /// kept object accounts for one written entry, every other outcome for
    /// none.
    pub open spec fn table_follows(
        r: Result<ReturnedValue, CallError>,
        before: Map<Seq<char>, GlobalRef>,
        after: Map<Seq<char>, GlobalRef>,
        object_store_id: Option<String>,
    ) -> bool {
        match r {
            Ok(v) => Self::accounts_for(v@, before, after, object_store_id),
            Err(_) => after == before,
        }
    }

    /// Decodes what the VM returned. A primitive is returned as it is: a
    /// 32-bit integer, a 64-bit integer, or nothing for every other kind. An
    /// object is tested against the classes to unpack and unpacked as the
    /// first class that it is an instance of; where there is none, or that
    /// class is not unpacked, the object is kept in the handle table under
    /// `object_store_id`.
    pub fn get_result_type<'local>(
        env: &mut JNIEnv<'local>,
        result: JValueGen<JObject<'local>>,
        standard_class_list: &StandardClassCache,
        object_store_id: Option<String>,
        j_object_method_store: &mut JObjectStore,
    ) -> (r: Result<ReturnedValue, CallError>)
        requires
            old(j_object_method_store).wf(),
        ensures
            final(j_object_method_store).wf(),
            Self::decodes_to(result, standard_class_list.names(), object_store_id, r),
            Self::table_follows(
                r,
                old(j_object_method_store)@,
                final(j_object_method_store)@,
                object_store_id,
            ),
    {
        match result {
            JValueGen::Object(local) => {
                let global = vm_global_ref(env, &local);
                vm_delete_local(env, local);
                let o = match global {
                    Ok(o) => o,
                    Err(_) => {
                        vm_clear_exception(env);
                        return Err(CallError::ResultUnreadable);
                    },
                };
                let matched = match check_if_extractible_classes(env, standard_class_list, &o) {
                    Ok(m) => m,
                    Err(e) => {
                        return Err(e);
                    },
                };
                let extracted = match matched {
                    Some(i) => {
                        assert(standard_class_list.names()[i as int]
                            == standard_class_list@[i as int].name());
                        match extract_value(env, standard_class_list.get(i).class_name(), &o) {
                            Ok(x) => x,
                            Err(e) => {
                                return Err(e);
                            },
                        }
                    },
                    None => None,
                };
                match extracted {
                    Some(value) => Ok(value),
                    None => {
                        let ghost before = j_object_method_store@;
                        let ghost given = object_store_id;
                        let r = register_object(j_object_method_store, object_store_id, o);
                        proof {
                            if let Some(id) = given {
                                assert(j_object_method_store@.remove(id@) =~= before.remove(id@));
                            }
                        }
                        r
                    },
                }
            },
            JValueGen::Int(i) => Ok(ReturnedValue::I32(i)),
            JValueGen::Long(long) => Ok(ReturnedValue::Long(long)),
            _ => Ok(ReturnedValue::Void),
        }
    }
}

} // verus!
