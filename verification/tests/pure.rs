use jni_method_cache::args::{JavaArgs, MethodType};
use jni_method_cache::errors::CallError;
use jni::signature::{Primitive, ReturnType};
use jni_method_cache::cache::JavaMethods;
use jni_method_cache::executor::{
    typed_result, Executor, ExecutorReceiver, ExecutorState, JvmCallEvent, JvmCaller, Step,
};
use jni_method_cache::manifest::JavaMethodsListRefs;
use jni_method_cache::response::{JVMResponse, JVMResponseWrapper, JVMResult, KeptObject};
use jni_method_cache::standard_class::StandardClassPreList;
use jni_method_cache::store::JObjectStore;
use jni_method_cache::value::{
    extraction_kind, first_extractible, usable, Extraction, ReturnedValue,
};

#[test]
fn pre_list_keeps_names_in_order() {
    let mut list = StandardClassPreList::new();
    assert!(list.list.is_empty());
    list.add_standard_class_name("java/lang/String");
    list.add_standard_class_name("[I");
    assert_eq!(list.list, vec!["java/lang/String".to_string(), "[I".to_string()]);
}

#[test]
fn manifest_keeps_entries_in_order() {
    let mut manifest = JavaMethodsListRefs::new();
    assert_eq!(manifest.len(), 0);
    manifest.add(MethodType::Static, "java.lang.String", "valueOf", "(I)Ljava/lang/String;");
    manifest.add(MethodType::NonStatic, "java.lang.Object", "hashCode", "()I");
    assert_eq!(manifest.len(), 2);
    assert_eq!(manifest.get(0).method_type(), MethodType::Static);
    assert_eq!(manifest.get(0).class_name(), "java.lang.String");
    assert_eq!(manifest.get(0).method_name(), "valueOf");
    assert_eq!(manifest.get(0).method_signature(), "(I)Ljava/lang/String;");
    assert_eq!(manifest.get(1).method_type(), MethodType::NonStatic);
    assert_eq!(manifest.get(1).method_name(), "hashCode");
}

#[test]
fn first_yes_wins() {
    assert_eq!(first_extractible(&vec![]), None);
    assert_eq!(first_extractible(&vec![false, false]), None);
    assert_eq!(first_extractible(&vec![true]), Some(0));
    assert_eq!(first_extractible(&vec![false, true, true]), Some(1));
    assert_eq!(first_extractible(&vec![true, true, true]), Some(0));
    assert_eq!(first_extractible(&vec![false, false, true]), Some(2));
}

#[test]
fn extraction_goes_by_class_name() {
    assert_eq!(extraction_kind("java/lang/String"), Some(Extraction::Text));
    assert_eq!(extraction_kind("[D"), Some(Extraction::Doubles));
    assert_eq!(extraction_kind("[I"), Some(Extraction::Ints));
    assert_eq!(extraction_kind("java/lang/Object"), None);
    assert_eq!(extraction_kind("java.lang.String"), None);
    assert_eq!(extraction_kind(""), None);
}

#[test]
fn arguments_without_known_objects() {
    let store = JObjectStore::new();
    assert!(!store.contains("native_activity"));
    assert_eq!(store.len(), 0);
    assert!(JavaArgs::Empty.to_jvalue(&store).is_none());
    assert!(JavaArgs::F32.to_jvalue(&store).is_none());
    assert!(JavaArgs::JObject("missing".to_string()).to_jvalue(&store).is_none());
    assert!(JavaArgs::Array(vec![]).to_jvalue(&store).is_none());
    assert!(JavaArgs::Array(vec![JavaArgs::JObject("missing".to_string()), JavaArgs::F32])
        .to_jvalue(&store)
        .is_none());
    let single = JavaArgs::I32(7).to_jvalue(&store).unwrap();
    assert_eq!(format!("{:?}", single), "[Int(7)]");
    let with_a_stranger = JavaArgs::Array(vec![
        JavaArgs::JObject("missing".to_string()),
        JavaArgs::I32(5),
    ]);
    assert!(!with_a_stranger.names_resolve(&store));
    assert!(with_a_stranger.to_jvalue(&store).is_none());
    assert!(!JavaArgs::JObject("missing".to_string()).names_resolve(&store));
    assert!(JavaArgs::Empty.names_resolve(&store));
    assert!(JavaArgs::I32(1).names_resolve(&store));
    let several = JavaArgs::Array(vec![
        JavaArgs::I32(1),
        JavaArgs::Array(vec![JavaArgs::I32(9)]),
        JavaArgs::Empty,
        JavaArgs::F32,
        JavaArgs::I32(-2),
    ]);
    assert!(several.names_resolve(&store));
    let several = several.to_jvalue(&store).unwrap();
    assert_eq!(format!("{:?}", several), "[Int(1), Int(-2)]");
}

#[test]
fn narrowing_to_the_right_type() {
    assert_eq!(JVMResponseWrapper::new(5i32).to_value::<i32>(), Ok(5));
    assert_eq!(JVMResponseWrapper::new(-5i64).to_value::<i64>(), Ok(-5));
    assert_eq!(JVMResponseWrapper::new("héllo".to_string()).to_value::<String>(), Ok("héllo".to_string()));
    assert_eq!(JVMResponseWrapper::new(vec![1, -2, 3]).to_value::<Vec<i32>>(), Ok(vec![1, -2, 3]));
    assert_eq!(JVMResponseWrapper::new(()).to_value::<()>(), Ok(()));
}

#[test]
fn narrowing_to_another_type_is_a_mismatch() {
    assert_eq!(JVMResponseWrapper::new(5i32).to_value::<i64>(), Err(CallError::DecodeMismatch));
    assert_eq!(JVMResponseWrapper::new(5i32).to_value::<String>(), Err(CallError::DecodeMismatch));
    assert_eq!(JVMResponseWrapper::new(5i64).to_value::<i32>(), Err(CallError::DecodeMismatch));
    assert_eq!(JVMResponseWrapper::new(String::new()).to_value::<()>(), Err(CallError::DecodeMismatch));
    assert_eq!(JVMResponseWrapper::new(()).to_value::<Vec<i32>>(), Err(CallError::DecodeMismatch));
    assert_eq!(JVMResponseWrapper::new(vec![0]).to_value::<i32>(), Err(CallError::DecodeMismatch));
}

#[test]
fn every_value_is_asked_as_what_it_is() {
    let object = JVMResponseWrapper::from_returned(ReturnedValue::JObject("id".to_string()));
    assert_eq!(object.to_value::<()>(), Err(CallError::DecodeMismatch));
    assert_eq!(object.to_value::<String>(), Err(CallError::DecodeMismatch));
    assert_eq!(object.to_value::<KeptObject>(), Ok(KeptObject { id: "id".to_string() }));
    let doubles = JVMResponseWrapper::from_returned(ReturnedValue::VecDouble(vec![
        1.0f64.to_bits(),
        2.0f64.to_bits(),
    ]));
    assert_eq!(doubles.to_value::<()>(), Err(CallError::DecodeMismatch));
    assert_eq!(doubles.to_value::<Vec<i32>>(), Err(CallError::DecodeMismatch));
    assert_eq!(doubles.to_value::<Vec<u64>>(), Ok(vec![1.0f64.to_bits(), 2.0f64.to_bits()]));
    let floats = JVMResponseWrapper::from_returned(ReturnedValue::ArrayFloat);
    assert_eq!(floats.to_value::<()>(), Err(CallError::DecodeMismatch));
    assert_eq!(floats.to_value::<Vec<u64>>(), Err(CallError::DecodeMismatch));
    let nothing = JVMResponseWrapper::from_returned(ReturnedValue::Void);
    assert_eq!(nothing.to_value::<()>(), Ok(()));
    assert_eq!(nothing.to_value::<KeptObject>(), Err(CallError::DecodeMismatch));
    let text = JVMResponseWrapper::from_returned(ReturnedValue::String("a".to_string()));
    assert_eq!(text.to_value::<String>(), Ok("a".to_string()));
    assert_eq!(text.to_value::<KeptObject>(), Err(CallError::DecodeMismatch));
}

#[test]
fn an_array_of_doubles_that_arrives_keeps_its_shape() {
    let result = JVMResult::new();
    let sent = result
        .get_sender()
        .send(ReturnedValue::VecDouble(vec![1.0f64.to_bits(), 2.0f64.to_bits()]));
    assert!(sent.is_ok());
    let wrapper = result.wait_for_result().unwrap();
    assert_eq!(wrapper.to_value::<()>(), Err(CallError::DecodeMismatch));
    assert_eq!(wrapper.to_value::<Vec<u64>>(), Ok(vec![1.0f64.to_bits(), 2.0f64.to_bits()]));
}

#[test]
fn typed_results() {
    assert_eq!(typed_result::<i32>(Ok(ReturnedValue::I32(3))), Ok(3));
    assert_eq!(typed_result::<i64>(Ok(ReturnedValue::I32(3))), Err(CallError::DecodeMismatch));
    assert_eq!(typed_result::<i32>(Err(CallError::LookupError)), Err(CallError::LookupError));
    assert_eq!(typed_result::<()>(Err(CallError::InvocationError)), Err(CallError::InvocationError));
    assert_eq!(typed_result::<Vec<i32>>(Ok(ReturnedValue::VecI32(vec![]))), Ok(vec![]));
    assert_eq!(typed_result::<()>(Ok(ReturnedValue::VecDouble(vec![0]))), Err(CallError::DecodeMismatch));
    assert_eq!(typed_result::<()>(Ok(ReturnedValue::JObject("id".to_string()))), Err(CallError::DecodeMismatch));
    assert_eq!(
        typed_result::<i32>(Err(CallError::ArgumentResolutionError)),
        Err(CallError::ArgumentResolutionError)
    );
}

#[test]
fn widening_and_copies() {
    assert!(matches!(7i32.widen(), ReturnedValue::I32(7)));
    assert!(matches!(7i64.widen(), ReturnedValue::Long(7)));
    assert!(matches!(().widen(), ReturnedValue::Void));
    assert!(matches!("x".to_string().widen(), ReturnedValue::String(s) if s == "x"));
    assert!(matches!(vec![4, 5].widen(), ReturnedValue::VecI32(v) if v == vec![4, 5]));
    assert_eq!(JVMResponse::get_value(&7i32), 7);
    assert_eq!(JVMResponse::get_value(&"x".to_string()), "x".to_string());
    assert_eq!(JVMResponse::get_value(&vec![1, 2]), vec![1, 2]);
}

#[test]
fn every_error_has_words() {
    assert_eq!(CallError::NoCache.message(), "No cache initialized in java_method_cache !");
    assert_eq!(CallError::LookupError.message(), "no such method in the cache");
    assert_eq!(CallError::DecodeMismatch.message(), "the returned value has another type");
    for e in [
        CallError::LookupError,
        CallError::ArgumentResolutionError,
        CallError::InvocationError,
        CallError::MissingObjectId,
        CallError::ResultUnreadable,
        CallError::DecodeMismatch,
        CallError::ChannelClosed,
    ] {
        assert!(!e.message().is_empty());
    }
}

#[test]
fn a_request_travels_with_its_own_channel() {
    let (sender, receiver) = crossbeam_channel::unbounded();
    let receiver = ExecutorReceiver::new(receiver);
    let first = JVMResult::new();
    let second = JVMResult::new();
    sender
        .send(JvmCallEvent::static_call(
            first.get_sender(),
            "java.lang.Math",
            "abs",
            "(I)I",
            JavaArgs::I32(-1),
            ReturnType::Primitive(Primitive::Int),
            None,
        ))
        .unwrap();
    sender
        .send(JvmCallEvent::instance_call(
            second.get_sender(),
            "java.lang.Object",
            "hashCode",
            "()I",
            JavaArgs::Empty,
            ReturnType::Primitive(Primitive::Int),
            Some("kept".to_string()),
        ))
        .unwrap();
    let caller = JvmCaller::new(sender);
    let third = caller
        .submit_call("java.lang.Object", "hashCode", "()I", JavaArgs::Empty, ReturnType::Object, None)
        .unwrap();
    drop(caller);

    let methods = JavaMethods::default();
    let mut executor = Executor::new();
    let mut replies = Vec::new();
    for _ in 0..3 {
        match executor.on_event(&methods, receiver.receive()) {
            Step::Answer(reply) => {
                assert!(matches!(reply.outcome, Err(CallError::NoCache)));
                replies.push(reply);
            }
            _ => panic!("without a cache every request is answered at once"),
        }
        assert_eq!(executor.current_state(), ExecutorState::Idle);
    }
    assert!(matches!(executor.on_event(&methods, receiver.receive()), Step::Stop));
    assert_eq!(executor.current_state(), ExecutorState::Stopped);

    let last = replies.pop().unwrap();
    assert!(last.deliver());
    assert!(matches!(third.wait_for_value(), Err(CallError::NoCache)));
    drop(replies.pop());
    assert!(matches!(second.wait_for_result(), Err(CallError::ChannelClosed)));
    let kept = replies.pop().unwrap();
    assert!(kept.response_channel.send(ReturnedValue::I32(1)).is_ok());
    assert_eq!(first.wait_for_result().unwrap().to_value::<i32>(), Ok(1));
}

#[test]
fn the_length_that_an_array_is_read_with() {
    assert_eq!(usable(Ok(0)), Some(0));
    assert_eq!(usable(Ok(1)), Some(1));
    assert_eq!(usable(Ok(10_000)), Some(10_000));
    assert_eq!(usable(Ok(i32::MAX)), Some(2_147_483_647));
    assert_eq!(usable(Ok(-1)), None);
    assert_eq!(usable(Ok(i32::MIN)), None);
    assert_eq!(usable(Err(jni::errors::Error::JavaException)), None);
}
