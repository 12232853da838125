use jni::objects::{GlobalRef, JObject, JValue, JValueGen};
use jni::signature::{Primitive, ReturnType};
use jni::{InitArgsBuilder, JNIEnv, JNIVersion, JavaVM};
use jni_method_cache::args::{JavaArgs, JniArg, MethodType};
use jni_method_cache::cache::{JavaMethodCache, JavaMethodCacheBuilder, JavaMethods};
use jni_method_cache::errors::CallError;
use jni_method_cache::executor::{
    Executor, ExecutorChannel, ExecutorReceiver, ExecutorState, Invocation, Step,
};
use jni_method_cache::methods::{
    native_class_loader_construction, JavaMethodsList, JavaStaticMethodsList, ResolutionStage,
};
use jni_method_cache::manifest::JavaMethodsListRefs;
use jni_method_cache::refs::{ArrayRef, ClassRef};
use jni_method_cache::response::KeptObject;
use jni_method_cache::standard_class::{StandardClass, StandardClassCache, StandardClassPreList};
use jni_method_cache::store::JObjectStore;
use jni_method_cache::value::{read_array, ReturnedValue};

fn launch() -> JavaVM {
    let args = InitArgsBuilder::new().version(JNIVersion::V8).build().unwrap();
    JavaVM::new(args).unwrap()
}

fn classes(env: &mut JNIEnv, names: &[&str]) -> StandardClassCache {
    let mut listed = StandardClassPreList::new();
    for name in names {
        listed.add_standard_class_name(name);
    }
    let mut cache = StandardClassCache::new();
    let found = cache.build_standard_class_list(env, &listed);
    assert_eq!(found, vec![true; names.len()]);
    cache
}

fn activity(env: &mut JNIEnv) -> GlobalRef {
    let class = env.find_class("java/sql/Timestamp").unwrap();
    env.new_global_ref(class).unwrap()
}

fn jvalues<'a>(args: &'a [JniArg<'a>]) -> Vec<JValue<'static, 'a>> {
    args.iter()
        .map(|a| match a {
            JniArg::Object(o) => JValueGen::Object(o.as_obj()),
            JniArg::Int(i) => JValueGen::Int(*i),
        })
        .collect()
}

fn text<'l>(env: &mut JNIEnv<'l>, s: &str) -> JValueGen<JObject<'l>> {
    JValueGen::Object(env.new_string(s).unwrap().into())
}

fn ints<'l>(env: &mut JNIEnv<'l>, elements: &[i32]) -> JValueGen<JObject<'l>> {
    let array = env.new_int_array(elements.len() as i32).unwrap();
    env.set_int_array_region(&array, 0, elements).unwrap();
    JValueGen::Object(array.into())
}

fn built_cache(env: &mut JNIEnv) -> JavaMethodCache {
    let mut builder = JavaMethodCacheBuilder::new(activity(env));
    builder.add_standard_class_name("java/lang/String");
    builder.add_standard_class_name("[I");
    builder.add_java_method(MethodType::Static, "java.lang.String", "valueOf", "(I)Ljava/lang/String;");
    builder.add_java_method(MethodType::Static, "java.lang.Integer", "valueOf", "(I)Ljava/lang/Integer;");
    builder.add_java_method(MethodType::Static, "java.lang.String", "valueOf", "(Ljava/lang/Object;)Ljava/lang/String;");
    builder.add_java_method(MethodType::Static, "java.lang.Math", "abs", "(I)I");
    builder.add_java_method(MethodType::Static, "java.lang.Integer", "parseInt", "(Ljava/lang/String;)I");
    builder.add_java_method(MethodType::NonStatic, "java.lang.Object", "hashCode", "()I");
    builder.add_java_method(MethodType::NonStatic, "java.lang.Class", "getName", "()Ljava/lang/String;");
    let mut cache = builder.build(env).unwrap();
    assert!(!cache.is_built());
    cache.build_cache(env).unwrap();
    assert!(cache.is_built());
    cache
}

fn invoke<'l>(env: &mut JNIEnv<'l>, call: &Invocation) -> jni::errors::Result<JValueGen<JObject<'l>>> {
    match call {
        Invocation::Static(c) => env.call_static_method(
            c.method.instance_ref(),
            c.method.method_name(),
            c.method.method_signature(),
            &jvalues(&c.args),
        ),
        Invocation::Instance(c) => env.call_method(
            c.method.instance_ref(),
            c.method.method_name(),
            c.method.method_signature(),
            &jvalues(&c.args),
        ),
    }
}

fn serve_one(
    executor: &mut Executor,
    receiver: &ExecutorReceiver,
    methods: &mut JavaMethods,
    env: &mut JNIEnv,
) {
    let outcome = match executor.next(receiver, methods) {
        Some(call) => Some(invoke(env, &call)),
        None => None,
    };
    if let Some(outcome) = outcome {
        assert_eq!(executor.current_state(), ExecutorState::Processing);
        executor.complete(methods, env, outcome);
    }
}

#[test]
fn text_round_trip_ascii() {
    let vm = launch();
    let mut env = vm.attach_current_thread().unwrap();
    let list = classes(&mut env, &["java/lang/String"]);
    let mut store = JObjectStore::new();
    let raw = text(&mut env, "hello, world");
    let decoded = ReturnedValue::get_result_type(&mut env, raw, &list, None, &mut store).unwrap();
    assert!(matches!(decoded, ReturnedValue::String(s) if s == "hello, world"));
    assert_eq!(store.len(), 0);
}

#[test]
fn text_round_trip_non_ascii() {
    let vm = launch();
    let mut env = vm.attach_current_thread().unwrap();
    let list = classes(&mut env, &["java/lang/String"]);
    let mut store = JObjectStore::new();
    for sample in ["héllo wörld", "日本語", "a\u{0}b", "😀 emoji", ""] {
        let raw = text(&mut env, sample);
        let decoded = ReturnedValue::get_result_type(&mut env, raw, &list, None, &mut store).unwrap();
        assert!(matches!(decoded, ReturnedValue::String(s) if s == sample));
    }
}

#[test]
fn int_arrays_of_every_length() {
    let vm = launch();
    let mut env = vm.attach_current_thread().unwrap();
    let list = classes(&mut env, &["java/lang/String", "[I"]);
    let mut store = JObjectStore::new();
    for n in [0usize, 1, 10_000] {
        let source: Vec<i32> = (0..n as i32).map(|i| i * 7 - 5_000).collect();
        let raw = ints(&mut env, &source);
        let decoded = ReturnedValue::get_result_type(&mut env, raw, &list, None, &mut store).unwrap();
        match decoded {
            ReturnedValue::VecI32(v) => {
                assert_eq!(v.len(), n);
                assert_eq!(v, source);
            }
            _ => panic!("not an array of integers"),
        }
    }
    let raw = ints(&mut env, &[i32::MIN, -1, 0, i32::MAX]);
    let decoded = ReturnedValue::get_result_type(&mut env, raw, &list, None, &mut store).unwrap();
    assert!(matches!(decoded, ReturnedValue::VecI32(v) if v == vec![i32::MIN, -1, 0, i32::MAX]));
}

#[test]
fn double_arrays_as_bit_patterns() {
    let vm = launch();
    let mut env = vm.attach_current_thread().unwrap();
    let list = classes(&mut env, &["[D"]);
    let mut store = JObjectStore::new();
    let source = [1.5f64, -0.0, f64::MAX, 3.25];
    let array = env.new_double_array(4).unwrap();
    env.set_double_array_region(&array, 0, &source).unwrap();
    let raw = JValueGen::Object(array.into());
    let decoded = ReturnedValue::get_result_type(&mut env, raw, &list, None, &mut store).unwrap();
    match decoded {
        ReturnedValue::VecDouble(bits) => {
            let back: Vec<f64> = bits.iter().map(|b| f64::from_bits(*b)).collect();
            assert_eq!(back.len(), 4);
            assert_eq!(bits, source.iter().map(|d| d.to_bits()).collect::<Vec<u64>>());
        }
        _ => panic!("not an array of doubles"),
    }
}

#[test]
fn primitives_are_returned_as_they_are() {
    let vm = launch();
    let mut env = vm.attach_current_thread().unwrap();
    let list = classes(&mut env, &["java/lang/String"]);
    let mut store = JObjectStore::new();
    let decoded = ReturnedValue::get_result_type(&mut env, JValueGen::Int(-7), &list, None, &mut store);
    assert!(matches!(decoded, Ok(ReturnedValue::I32(-7))));
    let decoded = ReturnedValue::get_result_type(&mut env, JValueGen::Long(1 << 40), &list, None, &mut store);
    assert!(matches!(decoded, Ok(ReturnedValue::Long(v)) if v == 1 << 40));
    let decoded = ReturnedValue::get_result_type(&mut env, JValueGen::Void, &list, None, &mut store);
    assert!(matches!(decoded, Ok(ReturnedValue::Void)));
    let decoded = ReturnedValue::get_result_type(&mut env, JValueGen::Bool(1), &list, None, &mut store);
    assert!(matches!(decoded, Ok(ReturnedValue::Void)));
    let decoded = ReturnedValue::get_result_type(&mut env, JValueGen::Short(3), &list, None, &mut store);
    assert!(matches!(decoded, Ok(ReturnedValue::Void)));
    assert_eq!(store.len(), 0);
}

#[test]
fn the_first_class_that_matches_is_used() {
    let vm = launch();
    let mut env = vm.attach_current_thread().unwrap();
    let mut store = JObjectStore::new();

    let text_first = classes(&mut env, &["java/lang/String", "java/lang/Object"]);
    let raw = text(&mut env, "abc");
    let decoded = ReturnedValue::get_result_type(&mut env, raw, &text_first, Some("t".to_string()), &mut store);
    assert!(matches!(decoded, Ok(ReturnedValue::String(s)) if s == "abc"));
    assert!(!store.contains("t"));

    let object_first = classes(&mut env, &["java/lang/Object", "java/lang/String"]);
    let raw = text(&mut env, "abc");
    let decoded = ReturnedValue::get_result_type(&mut env, raw, &object_first, Some("t".to_string()), &mut store);
    assert!(matches!(decoded, Ok(ReturnedValue::JObject(id)) if id == "t"));
    assert!(store.contains("t"));

    let sequence_first = classes(&mut env, &["java/lang/CharSequence", "[I", "java/lang/String"]);
    let raw = ints(&mut env, &[1, 2]);
    let decoded = ReturnedValue::get_result_type(&mut env, raw, &sequence_first, None, &mut store);
    assert!(matches!(decoded, Ok(ReturnedValue::VecI32(v)) if v == vec![1, 2]));
}

#[test]
fn classes_the_vm_does_not_know_are_passed_over() {
    let vm = launch();
    let mut env = vm.attach_current_thread().unwrap();
    let mut listed = StandardClassPreList::new();
    listed.add_standard_class_name("no/such/Class");
    listed.add_standard_class_name("java/lang/String");
    listed.add_standard_class_name("also/Missing");
    listed.add_standard_class_name("[I");
    let mut cache = StandardClassCache::new();
    let found = cache.build_standard_class_list(&mut env, &listed);
    assert_eq!(found, vec![false, true, false, true]);
    assert_eq!(cache.len(), 2);
    assert_eq!(cache.classes()[0].class_name(), "java/lang/String");
    assert_eq!(cache.classes()[1].class_name(), "[I");
    assert_eq!(cache.classes()[1].get_class_ref().0, "[I");
    assert!(!env.exception_check().unwrap());
}

#[test]
fn an_unmatched_object_is_kept_and_can_be_passed_on() {
    let vm = launch();
    let mut env = vm.attach_current_thread().unwrap();
    let list = classes(&mut env, &["java/lang/String", "[I"]);
    let mut store = JObjectStore::new();
    let seven = env
        .call_static_method("java/lang/Integer", "valueOf", "(I)Ljava/lang/Integer;", &[JValue::Int(7)])
        .unwrap();
    let decoded = ReturnedValue::get_result_type(&mut env, seven, &list, Some("seven".to_string()), &mut store);
    assert!(matches!(decoded, Ok(ReturnedValue::JObject(id)) if id == "seven"));
    assert!(store.contains("seven"));
    assert_eq!(store.len(), 1);
    assert!(store.find("seven").is_some());
    assert!(store.find("eight").is_none());

    let args = JavaArgs::JObject("seven".to_string()).to_jvalue(&store).unwrap();
    assert_eq!(args.len(), 1);
    let printed = env
        .call_static_method("java/lang/String", "valueOf", "(Ljava/lang/Object;)Ljava/lang/String;", &jvalues(&args))
        .unwrap();
    let decoded = ReturnedValue::get_result_type(&mut env, printed, &list, None, &mut store);
    assert!(matches!(decoded, Ok(ReturnedValue::String(s)) if s == "7"));

    let with_a_stranger = JavaArgs::Array(vec![
        JavaArgs::I32(1),
        JavaArgs::JObject("seven".to_string()),
        JavaArgs::JObject("eight".to_string()),
        JavaArgs::F32,
    ]);
    assert!(!with_a_stranger.names_resolve(&store));
    assert!(with_a_stranger.to_jvalue(&store).is_none());
    let mixed = JavaArgs::Array(vec![
        JavaArgs::I32(1),
        JavaArgs::JObject("seven".to_string()),
        JavaArgs::F32,
    ]);
    assert!(mixed.names_resolve(&store));
    let mixed = mixed.to_jvalue(&store).unwrap();
    assert_eq!(mixed.len(), 2);
    assert!(matches!(mixed[0], JniArg::Int(1)));
    assert!(matches!(mixed[1], JniArg::Object(_)));
}

#[test]
fn an_unmatched_object_needs_a_name() {
    let vm = launch();
    let mut env = vm.attach_current_thread().unwrap();
    let list = classes(&mut env, &["[I"]);
    let mut store = JObjectStore::new();
    let raw = text(&mut env, "abc");
    let decoded = ReturnedValue::get_result_type(&mut env, raw, &list, None, &mut store);
    assert!(matches!(decoded, Err(CallError::MissingObjectId)));
    assert_eq!(store.len(), 0);
}

#[test]
fn the_last_object_added_under_a_name_wins() {
    let vm = launch();
    let mut env = vm.attach_current_thread().unwrap();
    let mut store = JObjectStore::new();
    let first = env.new_string("first").unwrap();
    let first = env.new_global_ref(first).unwrap();
    let second = env.new_string("second").unwrap();
    let second = env.new_global_ref(second).unwrap();
    let other = env.new_string("other").unwrap();
    let other = env.new_global_ref(other).unwrap();
    store.add_object_with_id("a", first);
    store.add_object_with_id("b", other);
    store.add_object_with_id("a", second);
    assert_eq!(store.len(), 2);
    let kept = store.find("a").unwrap();
    let s: String = env.get_string(kept.as_obj().into()).unwrap().into();
    assert_eq!(s, "second");
    let kept = store.find("b").unwrap();
    let s: String = env.get_string(kept.as_obj().into()).unwrap().into();
    assert_eq!(s, "other");
}

#[test]
fn every_manifest_entry_is_found_after_the_build() {
    let vm = launch();
    let mut env = vm.attach_current_thread().unwrap();
    let cache = built_cache(&mut env);
    let statics = cache.static_methods();
    assert_eq!(statics.methods_list().len(), 5);
    for (class, name, sig) in [
        ("java.lang.String", "valueOf", "(I)Ljava/lang/String;"),
        ("java.lang.Integer", "valueOf", "(I)Ljava/lang/Integer;"),
        ("java.lang.String", "valueOf", "(Ljava/lang/Object;)Ljava/lang/String;"),
        ("java.lang.Math", "abs", "(I)I"),
        ("java.lang.Integer", "parseInt", "(Ljava/lang/String;)I"),
    ] {
        let found = statics.find(class, name, sig).unwrap();
        assert_eq!(found.method_class(), class);
        assert_eq!(found.method_name(), name);
        assert_eq!(found.method_signature(), sig);
    }
    assert!(statics.find("java.lang.Object", "hashCode", "()I").is_none());
    assert!(statics.find("java.lang.String", "valueOf", "(J)Ljava/lang/String;").is_none());
    let instances = cache.methods();
    assert_eq!(instances.methods_list().len(), 2);
    let found = instances.find("java.lang.Object", "hashCode", "()I").unwrap();
    assert_eq!(found.method_name(), "hashCode");
    assert!(instances.find("java.lang.Math", "abs", "(I)I").is_none());
    assert_eq!(cache.standard_classes().len(), 2);
    assert!(cache.objects().contains("native_activity"));
}

#[test]
fn a_method_is_bound_once() {
    let vm = launch();
    let mut env = vm.attach_current_thread().unwrap();
    let host = activity(&mut env);
    let finder = native_class_loader_construction(&mut env, &host).unwrap();
    let mut manifest = JavaMethodsListRefs::new();
    manifest.add(MethodType::Static, "java.lang.Math", "abs", "(I)I");
    manifest.add(MethodType::NonStatic, "java.lang.Object", "hashCode", "()I");
    manifest.add(MethodType::Static, "java.lang.Math", "abs", "(I)I");
    manifest.add(MethodType::Static, "java.lang.Math", "abs", "(J)J");
    let mut statics = JavaStaticMethodsList::new();
    statics.build_list_with_ref(&mut env, &manifest, &finder).unwrap();
    assert_eq!(statics.methods_list().len(), 2);
    assert_eq!(statics.methods_list()[0].method_signature(), "(I)I");
    assert_eq!(statics.methods_list()[1].method_signature(), "(J)J");
    statics.build_list_with_ref(&mut env, &manifest, &finder).unwrap();
    assert_eq!(statics.methods_list().len(), 2);
    let mut instances = JavaMethodsList::new();
    instances.build_list_with_ref(&mut env, &manifest, &finder).unwrap();
    assert_eq!(instances.methods_list().len(), 1);
}

#[test]
fn a_method_the_vm_does_not_know_fails_the_build() {
    let vm = launch();
    let mut env = vm.attach_current_thread().unwrap();
    let host = activity(&mut env);
    let finder = native_class_loader_construction(&mut env, &host).unwrap();
    let mut manifest = JavaMethodsListRefs::new();
    manifest.add(MethodType::Static, "java.lang.Math", "abs", "(I)I");
    manifest.add(MethodType::NonStatic, "no.such.Class", "f", "()V");
    manifest.add(MethodType::Static, "java.lang.Math", "noSuchMethod", "()V");
    manifest.add(MethodType::Static, "no.such.Class", "f", "()V");
    let mut statics = JavaStaticMethodsList::new();
    let failed = statics.build_list_with_ref(&mut env, &manifest, &finder).unwrap_err();
    assert_eq!(failed.entry, 2);
    assert_eq!(failed.stage, ResolutionStage::Method);
    assert_eq!(statics.methods_list().len(), 0);
    let mut instances = JavaMethodsList::new();
    let failed = instances.build_list_with_ref(&mut env, &manifest, &finder).unwrap_err();
    assert_eq!(failed.entry, 1);
    assert_eq!(failed.stage, ResolutionStage::Class);
    assert!(!env.exception_check().unwrap());

    let mut builder = JavaMethodCacheBuilder::new(activity(&mut env));
    builder.add_java_method(MethodType::Static, "java.lang.Math", "abs", "(I)I");
    builder.add_java_method(MethodType::Static, "java.lang.Math", "noSuchMethod", "()V");
    let mut cache = builder.build(&mut env).unwrap();
    let failed = cache.build_cache(&mut env).unwrap_err();
    assert_eq!(failed.entry, 1);
    assert_eq!(failed.stage, ResolutionStage::Method);
    assert!(!cache.is_built());
    assert_eq!(cache.static_methods().methods_list().len(), 0);
    let again = builder.build(&mut env);
    assert!(matches!(again, Err(e) if e.stage == ResolutionStage::Activity));
}

#[test]
fn the_build_runs_once() {
    let vm = launch();
    let mut env = vm.attach_current_thread().unwrap();
    let mut cache = built_cache(&mut env);
    cache.build_cache(&mut env).unwrap();
    assert_eq!(cache.static_methods().methods_list().len(), 5);
    assert_eq!(cache.methods().methods_list().len(), 2);
    assert_eq!(cache.standard_classes().len(), 2);
}

#[test]
fn a_call_without_a_cache() {
    let methods = JavaMethods::default();
    let prepared = methods.call_static_method("java.lang.Math", "abs", "(I)I", JavaArgs::I32(1), ReturnType::Primitive(Primitive::Int));
    assert!(matches!(prepared, Err(CallError::NoCache)));
    let prepared = methods.call_method("java.lang.Object", "hashCode", "()I", JavaArgs::Empty, ReturnType::Primitive(Primitive::Int));
    assert!(matches!(prepared, Err(CallError::NoCache)));
}

#[test]
fn a_static_call_through_the_executor() {
    let vm = launch();
    let mut env = vm.attach_current_thread().unwrap();
    let mut methods = built_cache(&mut env).set_to_java_methods();
    let channel = ExecutorChannel::new();
    let receiver = channel.get_receiver();
    let caller = channel.get_jvm_caller();
    let mut executor = Executor::new();
    assert_eq!(executor.current_state(), ExecutorState::Idle);

    let pending = caller
        .submit_static_call("java.lang.String", "valueOf", "(I)Ljava/lang/String;", JavaArgs::I32(42), ReturnType::Object, None)
        .unwrap();
    serve_one(&mut executor, &receiver, &mut methods, &mut env);
    assert_eq!(executor.current_state(), ExecutorState::Idle);
    assert_eq!(pending.wait_for_result().unwrap().to_value::<String>(), Ok("42".to_string()));

    let pending = caller
        .submit_static_call("java.lang.Math", "abs", "(I)I", JavaArgs::Array(vec![JavaArgs::I32(-5)]), ReturnType::Primitive(Primitive::Int), None)
        .unwrap();
    serve_one(&mut executor, &receiver, &mut methods, &mut env);
    assert_eq!(pending.wait_for_result().unwrap().to_value::<i32>(), Ok(5));
}

#[test]
fn a_returned_object_is_an_argument_of_the_next_call() {
    let vm = launch();
    let mut env = vm.attach_current_thread().unwrap();
    let mut methods = built_cache(&mut env).set_to_java_methods();
    let channel = ExecutorChannel::new();
    let receiver = channel.get_receiver();
    let caller = channel.get_jvm_caller();
    let mut executor = Executor::new();

    let pending = caller
        .submit_static_call("java.lang.Integer", "valueOf", "(I)Ljava/lang/Integer;", JavaArgs::I32(1234), ReturnType::Object, Some("boxed".to_string()))
        .unwrap();
    serve_one(&mut executor, &receiver, &mut methods, &mut env);
    assert!(matches!(pending.wait_for_value(), Ok(ReturnedValue::JObject(id)) if id == "boxed"));

    let pending = caller
        .submit_static_call(
            "java.lang.String",
            "valueOf",
            "(Ljava/lang/Object;)Ljava/lang/String;",
            JavaArgs::JObject("boxed".to_string()),
            ReturnType::Object,
            None,
        )
        .unwrap();
    serve_one(&mut executor, &receiver, &mut methods, &mut env);
    assert_eq!(pending.wait_for_result().unwrap().to_value::<String>(), Ok("1234".to_string()));
}

#[test]
fn an_instance_call_through_the_executor() {
    let vm = launch();
    let mut env = vm.attach_current_thread().unwrap();
    let mut methods = built_cache(&mut env).set_to_java_methods();
    let channel = ExecutorChannel::new();
    let receiver = channel.get_receiver();
    let caller = channel.get_jvm_caller();
    let mut executor = Executor::new();
    let pending = caller
        .submit_call("java.lang.Class", "getName", "()Ljava/lang/String;", JavaArgs::Empty, ReturnType::Object, None)
        .unwrap();
    serve_one(&mut executor, &receiver, &mut methods, &mut env);
    assert!(matches!(pending.wait_for_value(), Ok(ReturnedValue::String(s)) if s == "java.lang.Class"));
}

#[test]
fn an_unknown_method_is_a_lookup_error_and_the_executor_goes_on() {
    let vm = launch();
    let mut env = vm.attach_current_thread().unwrap();
    let mut methods = built_cache(&mut env).set_to_java_methods();
    let channel = ExecutorChannel::new();
    let receiver = channel.get_receiver();
    let caller = channel.get_jvm_caller();
    let mut executor = Executor::new();

    let unknown = caller
        .submit_static_call("java.lang.String", "noSuchMethod", "()V", JavaArgs::Empty, ReturnType::Primitive(Primitive::Void), None)
        .unwrap();
    let wrong_table = caller
        .submit_call("java.lang.Math", "abs", "(I)I", JavaArgs::I32(1), ReturnType::Primitive(Primitive::Int), None)
        .unwrap();
    let known = caller
        .submit_static_call("java.lang.Math", "abs", "(I)I", JavaArgs::I32(-9), ReturnType::Primitive(Primitive::Int), None)
        .unwrap();
    serve_one(&mut executor, &receiver, &mut methods, &mut env);
    assert_eq!(executor.current_state(), ExecutorState::Idle);
    serve_one(&mut executor, &receiver, &mut methods, &mut env);
    assert_eq!(executor.current_state(), ExecutorState::Idle);
    serve_one(&mut executor, &receiver, &mut methods, &mut env);
    assert!(matches!(unknown.wait_for_result(), Err(CallError::LookupError)));
    assert!(matches!(wrong_table.wait_for_value(), Err(CallError::LookupError)));
    assert_eq!(known.wait_for_result().unwrap().to_value::<i32>(), Ok(9));
}

#[test]
fn a_failing_call_is_an_invocation_error_and_the_executor_goes_on() {
    let vm = launch();
    let mut env = vm.attach_current_thread().unwrap();
    let mut methods = built_cache(&mut env).set_to_java_methods();
    let channel = ExecutorChannel::new();
    let receiver = channel.get_receiver();
    let caller = channel.get_jvm_caller();
    let mut executor = Executor::new();

    let text = env.new_string("not a number").unwrap();
    let text = env.new_global_ref(text).unwrap();
    if let JavaMethods::Cache { cache } = &mut methods {
        assert!(!cache.objects().contains("text"));
        cache.add_object_with_id("text", text);
        assert!(cache.objects().contains("text"));
    }
    let pending = caller
        .submit_static_call("java.lang.Integer", "parseInt", "(Ljava/lang/String;)I", JavaArgs::JObject("text".to_string()), ReturnType::Primitive(Primitive::Int), None)
        .unwrap();
    serve_one(&mut executor, &receiver, &mut methods, &mut env);
    assert!(matches!(pending.wait_for_result(), Err(CallError::InvocationError)));
    assert!(!env.exception_check().unwrap());

    let pending = caller
        .submit_static_call("java.lang.String", "valueOf", "(Ljava/lang/Object;)Ljava/lang/String;", JavaArgs::Empty, ReturnType::Object, None)
        .unwrap();
    serve_one(&mut executor, &receiver, &mut methods, &mut env);
    assert!(matches!(pending.wait_for_result(), Err(CallError::InvocationError)));
    assert!(!env.exception_check().unwrap());

    let pending = caller
        .submit_static_call("java.lang.Math", "abs", "(I)I", JavaArgs::I32(-1), ReturnType::Primitive(Primitive::Int), None)
        .unwrap();
    serve_one(&mut executor, &receiver, &mut methods, &mut env);
    assert_eq!(pending.wait_for_result().unwrap().to_value::<i32>(), Ok(1));
}

#[test]
fn asking_for_another_type_is_a_decode_mismatch() {
    let vm = launch();
    let mut env = vm.attach_current_thread().unwrap();
    let mut methods = built_cache(&mut env).set_to_java_methods();
    let channel = ExecutorChannel::new();
    let receiver = channel.get_receiver();
    let caller = channel.get_jvm_caller();
    let mut executor = Executor::new();
    let pending = caller
        .submit_static_call("java.lang.String", "valueOf", "(I)Ljava/lang/String;", JavaArgs::I32(3), ReturnType::Object, None)
        .unwrap();
    serve_one(&mut executor, &receiver, &mut methods, &mut env);
    let wrapper = pending.wait_for_result().unwrap();
    assert_eq!(wrapper.to_value::<i32>(), Err(CallError::DecodeMismatch));
    assert_eq!(wrapper.to_value::<()>(), Err(CallError::DecodeMismatch));
    assert_eq!(wrapper.to_value::<String>(), Ok("3".to_string()));
}

#[test]
fn the_executor_stops_when_every_caller_is_gone() {
    let methods = JavaMethods::default();
    let channel = ExecutorChannel::new();
    let receiver = channel.get_receiver();
    let caller = channel.get_jvm_caller();
    let mut executor = Executor::new();
    let pending = caller
        .submit_static_call("java.lang.Math", "abs", "(I)I", JavaArgs::I32(1), ReturnType::Primitive(Primitive::Int), None)
        .unwrap();
    drop(caller);
    drop(channel);
    assert!(executor.next(&receiver, &methods).is_none());
    assert_eq!(executor.current_state(), ExecutorState::Idle);
    assert!(matches!(pending.wait_for_result(), Err(CallError::NoCache)));
    assert!(executor.next(&receiver, &methods).is_none());
    assert_eq!(executor.current_state(), ExecutorState::Stopped);
}

#[test]
fn a_caller_without_an_executor_sees_a_closed_channel() {
    let channel = ExecutorChannel::new();
    let receiver = channel.get_receiver();
    let caller = channel.get_jvm_caller();
    let pending = caller
        .submit_static_call("java.lang.Math", "abs", "(I)I", JavaArgs::I32(1), ReturnType::Primitive(Primitive::Int), None)
        .unwrap();
    drop(receiver);
    drop(channel);
    assert!(matches!(pending.wait_for_result(), Err(CallError::ChannelClosed)));
    let answer = caller.call_static_method::<i32>("java.lang.Math", "abs", "(I)I", JavaArgs::I32(1), ReturnType::Primitive(Primitive::Int), None);
    assert_eq!(answer, Err(CallError::ChannelClosed));
    let answer = caller.call_method("java.lang.Object", "hashCode", "()I", JavaArgs::Empty, ReturnType::Primitive(Primitive::Int), None);
    assert!(matches!(answer, Err(CallError::ChannelClosed)));
}

#[test]
fn the_steps_of_one_request() {
    let vm = launch();
    let mut env = vm.attach_current_thread().unwrap();
    let mut methods = built_cache(&mut env).set_to_java_methods();
    let channel = ExecutorChannel::new();
    let receiver = channel.get_receiver();
    let caller = channel.get_jvm_caller();
    let mut executor = Executor::new();
    let pending = caller
        .submit_static_call("java.lang.Math", "abs", "(I)I", JavaArgs::I32(-3), ReturnType::Primitive(Primitive::Int), None)
        .unwrap();
    let outcome = match executor.on_event(&methods, receiver.receive()) {
        Step::Invoke(call) => {
            assert!(matches!(&call, Invocation::Static(c) if c.args.len() == 1 && c.method.method_name() == "abs"));
            invoke(&mut env, &call)
        }
        _ => panic!("the method is bound"),
    };
    assert_eq!(executor.current_state(), ExecutorState::Processing);
    let reply = executor.on_invoked(&mut methods, &mut env, outcome);
    assert!(matches!(reply.outcome, Ok(ReturnedValue::I32(3))));
    assert_eq!(executor.current_state(), ExecutorState::Idle);
    assert!(reply.deliver());
    assert_eq!(pending.wait_for_result().unwrap().to_value::<i32>(), Ok(3));

    let gone = caller
        .submit_static_call("java.lang.Math", "abs", "(I)I", JavaArgs::I32(-3), ReturnType::Primitive(Primitive::Int), None)
        .unwrap();
    drop(gone);
    let outcome = match executor.on_event(&methods, receiver.receive()) {
        Step::Invoke(call) => invoke(&mut env, &call),
        _ => panic!("the method is bound"),
    };
    let reply = executor.on_invoked(&mut methods, &mut env, outcome);
    assert!(!reply.deliver());
    assert_eq!(executor.current_state(), ExecutorState::Idle);
}

#[test]
fn an_argument_without_an_object_is_refused() {
    let vm = launch();
    let mut env = vm.attach_current_thread().unwrap();
    let mut methods = built_cache(&mut env).set_to_java_methods();
    let prepared = methods.call_static_method(
        "java.lang.String",
        "valueOf",
        "(Ljava/lang/Object;)Ljava/lang/String;",
        JavaArgs::JObject("nobody".to_string()),
        ReturnType::Object,
    );
    assert!(matches!(prepared, Err(CallError::ArgumentResolutionError)));
    let prepared = methods.call_static_method(
        "java.lang.String",
        "valueOf",
        "(Ljava/lang/Object;)Ljava/lang/String;",
        JavaArgs::Array(vec![JavaArgs::JObject("nobody".to_string()), JavaArgs::I32(5)]),
        ReturnType::Object,
    );
    assert!(matches!(prepared, Err(CallError::ArgumentResolutionError)));
    let prepared = methods.call_static_method(
        "java.lang.String",
        "noSuchMethod",
        "()V",
        JavaArgs::JObject("nobody".to_string()),
        ReturnType::Object,
    );
    assert!(matches!(prepared, Err(CallError::LookupError)));
    let prepared = methods.call_method(
        "java.lang.Object",
        "hashCode",
        "()I",
        JavaArgs::JObject("nobody".to_string()),
        ReturnType::Primitive(Primitive::Int),
    );
    assert!(matches!(prepared, Err(CallError::ArgumentResolutionError)));

    let channel = ExecutorChannel::new();
    let receiver = channel.get_receiver();
    let caller = channel.get_jvm_caller();
    let mut executor = Executor::new();
    let refused = caller
        .submit_static_call(
            "java.lang.String",
            "valueOf",
            "(Ljava/lang/Object;)Ljava/lang/String;",
            JavaArgs::JObject("nobody".to_string()),
            ReturnType::Object,
            None,
        )
        .unwrap();
    let served = caller
        .submit_static_call("java.lang.Math", "abs", "(I)I", JavaArgs::I32(-2), ReturnType::Primitive(Primitive::Int), None)
        .unwrap();
    serve_one(&mut executor, &receiver, &mut methods, &mut env);
    assert_eq!(executor.current_state(), ExecutorState::Idle);
    serve_one(&mut executor, &receiver, &mut methods, &mut env);
    assert!(matches!(refused.wait_for_result(), Err(CallError::ArgumentResolutionError)));
    assert_eq!(served.wait_for_result().unwrap().to_value::<i32>(), Ok(2));

    let prepared = methods
        .call_static_method(
            "java.lang.String",
            "valueOf",
            "(Ljava/lang/Object;)Ljava/lang/String;",
            JavaArgs::JObject("native_activity".to_string()),
            ReturnType::Object,
        )
        .unwrap();
    assert_eq!(prepared.args.len(), 1);
    assert_eq!(prepared.method.method_name(), "valueOf");
    let printed = invoke(&mut env, &Invocation::Static(prepared)).unwrap();
    let mut store = JObjectStore::new();
    let list = classes(&mut env, &["java/lang/String"]);
    let decoded = ReturnedValue::get_result_type(&mut env, printed, &list, None, &mut store);
    assert!(matches!(decoded, Ok(ReturnedValue::String(s)) if s == "class java.sql.Timestamp"));
}

#[test]
fn a_reference_is_read_as_an_array_only_if_it_is_one() {
    let vm = launch();
    let mut env = vm.attach_current_thread().unwrap();
    let text = env.new_string("no array").unwrap();
    let text = env.new_global_ref(text).unwrap();
    assert!(ArrayRef::of(&mut env, &text, false).is_none());
    assert!(ArrayRef::of(&mut env, &text, true).is_none());
    let numbers = env.new_int_array(3).unwrap();
    let numbers = env.new_global_ref(numbers).unwrap();
    assert!(ArrayRef::of(&mut env, &numbers, false).is_some());
    assert!(ArrayRef::of(&mut env, &numbers, true).is_none());
    let doubles = env.new_double_array(3).unwrap();
    let doubles = env.new_global_ref(doubles).unwrap();
    assert!(ArrayRef::of(&mut env, &doubles, true).is_some());
    assert!(ArrayRef::of(&mut env, &doubles, false).is_none());
    let nothing = env.new_global_ref(JObject::null()).unwrap();
    assert!(ArrayRef::of(&mut env, &nothing, false).is_none());
    assert!(!env.exception_check().unwrap());

    assert!(ClassRef::find(&mut env, "java/lang/String").is_some());
    assert!(ClassRef::find(&mut env, "no/such/Class").is_none());
    assert!(StandardClass::new(&mut env, "no/such/Class").is_none());
    let found = StandardClass::new(&mut env, "[I").unwrap();
    assert_eq!(found.class_name(), "[I");
    assert!(env.is_instance_of(&numbers, found.class()).unwrap());
    assert!(!env.exception_check().unwrap());
}

#[test]
fn a_null_result_is_never_read() {
    let vm = launch();
    let mut env = vm.attach_current_thread().unwrap();
    let mut store = JObjectStore::new();
    for names in [vec!["java/lang/String"], vec!["[I"], vec!["[D"]] {
        let list = classes(&mut env, &names);
        let decoded = ReturnedValue::get_result_type(
            &mut env,
            JValueGen::Object(JObject::null()),
            &list,
            Some("nothing".to_string()),
            &mut store,
        );
        assert!(matches!(decoded, Err(CallError::ResultUnreadable)));
        assert!(!env.exception_check().unwrap());
    }
    assert_eq!(store.len(), 0);
}

#[test]
fn without_classes_to_unpack_an_object_is_kept() {
    let vm = launch();
    let mut env = vm.attach_current_thread().unwrap();
    let mut store = JObjectStore::new();
    let list = classes(&mut env, &[]);
    let raw = text(&mut env, "kept as it is");
    let decoded = ReturnedValue::get_result_type(&mut env, raw, &list, Some("t".to_string()), &mut store);
    assert!(matches!(decoded, Ok(ReturnedValue::JObject(id)) if id == "t"));
    let only_arrays = classes(&mut env, &["[I", "[D"]);
    let raw = text(&mut env, "kept as it is");
    let decoded = ReturnedValue::get_result_type(&mut env, raw, &only_arrays, Some("u".to_string()), &mut store);
    assert!(matches!(decoded, Ok(ReturnedValue::JObject(id)) if id == "u"));
    assert_eq!(store.len(), 2);
}

#[test]
fn a_kept_object_and_an_array_of_doubles_are_asked_as_what_they_are() {
    let vm = launch();
    let mut env = vm.attach_current_thread().unwrap();
    let mut methods = built_cache(&mut env).set_to_java_methods();
    let channel = ExecutorChannel::new();
    let receiver = channel.get_receiver();
    let caller = channel.get_jvm_caller();
    let mut executor = Executor::new();
    let pending = caller
        .submit_static_call("java.lang.Integer", "valueOf", "(I)Ljava/lang/Integer;", JavaArgs::I32(8), ReturnType::Object, Some("eight".to_string()))
        .unwrap();
    serve_one(&mut executor, &receiver, &mut methods, &mut env);
    let wrapper = pending.wait_for_result().unwrap();
    assert_eq!(wrapper.to_value::<()>(), Err(CallError::DecodeMismatch));
    assert_eq!(wrapper.to_value::<String>(), Err(CallError::DecodeMismatch));
    assert_eq!(wrapper.to_value::<KeptObject>(), Ok(KeptObject { id: "eight".to_string() }));
}

#[test]
fn the_builder_chains() {
    let vm = launch();
    let mut env = vm.attach_current_thread().unwrap();
    let mut builder = JavaMethodCacheBuilder::new(activity(&mut env));
    builder
        .add_standard_class_name("java/lang/String")
        .add_java_method(MethodType::Static, "java.lang.Math", "abs", "(I)I")
        .add_standard_class_name("[D")
        .add_java_method(MethodType::NonStatic, "java.lang.Object", "toString", "()Ljava/lang/String;");
    assert_eq!(builder.standard_class_pre_list.list, vec!["java/lang/String".to_string(), "[D".to_string()]);
    assert_eq!(builder.java_methods_list_ref.len(), 2);
    assert!(!builder.cache_builded);
    let mut cache = builder.build(&mut env).unwrap();
    assert!(builder.activity.is_none());
    assert_eq!(builder.java_methods_list_ref.len(), 0);
    cache.build_cache(&mut env).unwrap();
    assert_eq!(cache.static_methods().methods_list().len(), 1);
    assert_eq!(cache.methods().methods_list().len(), 1);
    assert_eq!(cache.standard_classes().len(), 2);
}

#[test]
fn the_class_loader_bridge() {
    let vm = launch();
    let mut env = vm.attach_current_thread().unwrap();
    let host = activity(&mut env);
    let finder = native_class_loader_construction(&mut env, &host).unwrap();
    let loaded = finder.load_class(&mut env, "java.util.ArrayList").unwrap();
    let name = env
        .call_method(loaded.as_global(), "getName", "()Ljava/lang/String;", &[])
        .unwrap()
        .l()
        .unwrap();
    let name: String = env.get_string((&name).into()).unwrap().into();
    assert_eq!(name, "java.util.ArrayList");
    assert!(finder.load_class(&mut env, "no.such.Class").is_none());
    assert!(!env.exception_check().unwrap());
    assert!(finder.load_class(&mut env, "java/util/ArrayList").is_none());
    assert!(!env.exception_check().unwrap());

    let text = env.new_string("no loader of its own").unwrap();
    let text = env.new_global_ref(text).unwrap();
    let failed = native_class_loader_construction(&mut env, &text);
    assert!(matches!(failed, Err(e) if e.stage == ResolutionStage::ClassLoader));
    assert!(!env.exception_check().unwrap());
}

#[test]
fn an_array_is_read_in_the_length_that_is_asked() {
    let vm = launch();
    let mut env = vm.attach_current_thread().unwrap();
    let numbers = env.new_int_array(4).unwrap();
    env.set_int_array_region(&numbers, 0, &[-1, 0, i32::MAX, 7]).unwrap();
    let numbers = env.new_global_ref(numbers).unwrap();
    let array = ArrayRef::of(&mut env, &numbers, false).unwrap();
    let whole = read_array(&mut env, &array, false, 4);
    assert!(matches!(whole, Ok(ReturnedValue::VecI32(v)) if v == vec![-1, 0, i32::MAX, 7]));
    let front = read_array(&mut env, &array, false, 2);
    assert!(matches!(front, Ok(ReturnedValue::VecI32(v)) if v == vec![-1, 0]));
    let none = read_array(&mut env, &array, false, 0);
    assert!(matches!(none, Ok(ReturnedValue::VecI32(v)) if v.is_empty()));
    let beyond = read_array(&mut env, &array, false, 5);
    assert!(matches!(beyond, Err(CallError::ResultUnreadable)));
    assert!(!env.exception_check().unwrap());

    let doubles = env.new_double_array(3).unwrap();
    env.set_double_array_region(&doubles, 0, &[0.5, -2.0, 1e300]).unwrap();
    let doubles = env.new_global_ref(doubles).unwrap();
    let array = ArrayRef::of(&mut env, &doubles, true).unwrap();
    let whole = read_array(&mut env, &array, true, 3);
    let expected: Vec<u64> = [0.5f64, -2.0, 1e300].iter().map(|d| d.to_bits()).collect();
    assert!(matches!(whole, Ok(ReturnedValue::VecDouble(v)) if v == expected));
    let none = read_array(&mut env, &array, true, 0);
    assert!(matches!(none, Ok(ReturnedValue::VecDouble(v)) if v.is_empty()));
    let beyond = read_array(&mut env, &array, true, 4);
    assert!(matches!(beyond, Err(CallError::ResultUnreadable)));
    assert!(!env.exception_check().unwrap());

    let list = classes(&mut env, &["[D", "[I"]);
    let mut store = JObjectStore::new();
    let empty = env.new_double_array(0).unwrap();
    let decoded = ReturnedValue::get_result_type(&mut env, JValueGen::Object(empty.into()), &list, None, &mut store);
    assert!(matches!(decoded, Ok(ReturnedValue::VecDouble(v)) if v.is_empty()));
}
