use jni::objects::{GlobalRef, JObject, JValue, JValueGen};
use jni::signature::ReturnType;
use jni::{InitArgsBuilder, JNIEnv, JNIVersion, JavaVM};
use jni_method_cache::args::{JavaArgs, JniArg, MethodType};
use jni_method_cache::cache::JavaMethodCacheBuilder;
use jni_method_cache::errors::CallError;
use jni_method_cache::executor::{Executor, ExecutorChannel, ExecutorState, Invocation};

fn values<'a>(args: &'a [JniArg<'a>]) -> Vec<JValue<'static, 'a>> {
    args.iter()
        .map(|a| match a {
            JniArg::Object(o) => JValueGen::Object(o.as_obj()),
            JniArg::Int(i) => JValueGen::Int(*i),
        })
        .collect()
}

fn perform<'l>(env: &mut JNIEnv<'l>, call: &Invocation) -> jni::errors::Result<JValueGen<JObject<'l>>> {
    match call {
        Invocation::Static(c) => env.call_static_method(
            c.method.instance_ref(),
            c.method.method_name(),
            c.method.method_signature(),
            &values(&c.args),
        ),
        Invocation::Instance(c) => env.call_method(
            c.method.instance_ref(),
            c.method.method_name(),
            c.method.method_signature(),
            &values(&c.args),
        ),
    }
}

#[test]
fn every_caller_receives_its_own_answer() {
    let args = InitArgsBuilder::new().version(JNIVersion::V8).build().unwrap();
    let vm = JavaVM::new(args).unwrap();
    let mut env = vm.attach_current_thread().unwrap();
    let class = env.find_class("java/sql/Timestamp").unwrap();
    let host: GlobalRef = env.new_global_ref(class).unwrap();
    let mut builder = JavaMethodCacheBuilder::new(host);
    builder.add_standard_class_name("java/lang/String");
    builder.add_java_method(MethodType::Static, "java.lang.String", "valueOf", "(I)Ljava/lang/String;");
    let mut cache = builder.build(&mut env).unwrap();
    cache.build_cache(&mut env).unwrap();
    let mut methods = cache.set_to_java_methods();

    let channel = ExecutorChannel::new();
    let receiver = channel.get_receiver();
    let callers: i32 = 16;
    let rounds: i32 = 5;
    let handles: Vec<_> = (0..callers).map(|_| channel.get_jvm_caller()).collect();
    drop(channel);

    let mut waiting = Vec::new();
    for round in 0..rounds {
        for (k, caller) in handles.iter().enumerate() {
            let sentinel = (k as i32) * 1_000 + round;
            let pending = caller
                .submit_static_call(
                    "java.lang.String",
                    "valueOf",
                    "(I)Ljava/lang/String;",
                    JavaArgs::I32(sentinel),
                    ReturnType::Object,
                    None,
                )
                .unwrap();
            waiting.push((sentinel, Some(pending)));
            if k % 4 == 0 {
                let missing = caller
                    .submit_static_call("java.lang.String", "noSuchMethod", "()V", JavaArgs::I32(sentinel), ReturnType::Object, None)
                    .unwrap();
                waiting.push((-1, Some(missing)));
            }
        }
    }
    drop(handles);

    let mut executor = Executor::new();
    let mut served = 0;
    loop {
        let outcome = match executor.next(&receiver, &methods) {
            Some(call) => Some(perform(&mut env, &call)),
            None => None,
        };
        match outcome {
            Some(outcome) => {
                assert!(executor.complete(&mut methods, &mut env, outcome));
                served += 1;
            }
            None => {
                if executor.current_state() == ExecutorState::Stopped {
                    break;
                }
            }
        }
    }
    assert_eq!(served, callers * rounds);

    for (sentinel, pending) in waiting.iter_mut().rev() {
        let answer = pending.take().unwrap().wait_for_result();
        if *sentinel < 0 {
            assert!(matches!(answer, Err(CallError::LookupError)));
        } else {
            assert_eq!(answer.unwrap().to_value::<String>(), Ok(sentinel.to_string()));
        }
    }
}
