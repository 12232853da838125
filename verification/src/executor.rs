//! The way in: the request channel between the callers and the one thread
//! that may talk to the VM, and the executor's decisions as it serves one
//! request after the other.
use crate::args::JavaArgs;
use crate::cache::{
    passed, refused, InstanceCall, JavaMethodCache, JavaMethods, StaticCall,
};
use crate::errors::CallError;
use crate::manifest::MethodKey;
use crate::response::{JVMResponse, JVMResult, JVMResultSender};
use crate::value::ReturnedValue;
use jni::errors::Error;
use jni::objects::{JObject, JValueGen};
use jni::signature::ReturnType;
use jni::JNIEnv;
use vstd::prelude::*;

verus! {

#[verifier::external_type_specification]
#[verifier::external_body]
#[verifier::reject_recursive_types(T)]
pub struct ExRequestSender<T>(crossbeam_channel::Sender<T>);

#[verifier::external_type_specification]
#[verifier::external_body]
#[verifier::reject_recursive_types(T)]
pub struct ExRequestReceiver<T>(crossbeam_channel::Receiver<T>);

#[verifier::external_type_specification]
#[verifier::external_body]
pub struct ExRecvError(crossbeam_channel::RecvError);

#[verifier::external_type_specification]
#[verifier::external_body]
#[verifier::reject_recursive_types(T)]
pub struct ExSendError<T>(crossbeam_channel::SendError<T>);

/// A request to the executor.
#[derive(Debug)]
pub enum JvmCallEvent {
    /// Call a static method.
    CallStaticMethod {
        response_channel: JVMResultSender,
        class_name: String,
        method_name: String,
        sig: String,
        args: JavaArgs,
        return_type: ReturnType,
        returned_object_id: Option<String>,
    },
    /// Call an instance method.
    CallMethod {
        response_channel: JVMResultSender,
        class_name: String,
        method_name: String,
        sig: String,
        args: JavaArgs,
        return_type: ReturnType,
        returned_object_id: Option<String>,
    },
}

impl JvmCallEvent {
    /// The method that is asked for.
    pub open spec fn key(self) -> MethodKey {
        match self {
            JvmCallEvent::CallStaticMethod { class_name, method_name, sig, .. } => MethodKey {
                class: class_name@,
                name: method_name@,
                signature: sig@,
            },
            JvmCallEvent::CallMethod { class_name, method_name, sig, .. } => MethodKey {
                class: class_name@,
                name: method_name@,
                signature: sig@,
            },
        }
    }

    /// The channel on which the answer is expected.
    pub open spec fn channel(self) -> JVMResultSender {
        match self {
            JvmCallEvent::CallStaticMethod { response_channel, .. } => response_channel,
            JvmCallEvent::CallMethod { response_channel, .. } => response_channel,
        }
    }

    /// The arguments.
    pub open spec fn arguments(self) -> JavaArgs {
        match self {
            JvmCallEvent::CallStaticMethod { args, .. } => args,
            JvmCallEvent::CallMethod { args, .. } => args,
        }
    }

    /// The kind of value that the caller expects.
    pub open spec fn expected(self) -> ReturnType {
        match self {
            JvmCallEvent::CallStaticMethod { return_type, .. } => return_type,
            JvmCallEvent::CallMethod { return_type, .. } => return_type,
        }
    }

    /// The name under which a returned object is to be kept.
    pub open spec fn object_id(self) -> Option<String> {
        match self {
            JvmCallEvent::CallStaticMethod { returned_object_id, .. } => returned_object_id,
            JvmCallEvent::CallMethod { returned_object_id, .. } => returned_object_id,
        }
    }

    /// The request for a static call, as a caller sends it.
    pub fn static_call(
        response_channel: JVMResultSender,
        class_name: &str,
        method_name: &str,
        sig: &str,
        args: JavaArgs,
        return_type: ReturnType,
        returned_object_id: Option<String>,
    ) -> (event: JvmCallEvent)
        ensures
            event is CallStaticMethod,
            event.channel() == response_channel,
            event.key() == (MethodKey { class: class_name@, name: method_name@, signature: sig@ }),
            event.arguments() == args,
            event.expected() == return_type,
            event.object_id() == returned_object_id,
    {
        JvmCallEvent::CallStaticMethod {
            response_channel,
            class_name: class_name.to_owned(),
            method_name: method_name.to_owned(),
            sig: sig.to_owned(),
            args,
            return_type,
            returned_object_id,
        }
    }

    /// The request for an instance call, as a caller sends it.
    pub fn instance_call(
        response_channel: JVMResultSender,
        class_name: &str,
        method_name: &str,
        sig: &str,
        args: JavaArgs,
        return_type: ReturnType,
        returned_object_id: Option<String>,
    ) -> (event: JvmCallEvent)
        ensures
            event is CallMethod,
            event.channel() == response_channel,
            event.key() == (MethodKey { class: class_name@, name: method_name@, signature: sig@ }),
            event.arguments() == args,
            event.expected() == return_type,
            event.object_id() == returned_object_id,
    {
        JvmCallEvent::CallMethod {
            response_channel,
            class_name: class_name.to_owned(),
            method_name: method_name.to_owned(),
            sig: sig.to_owned(),
            args,
            return_type,
            returned_object_id,
        }
    }

    /// Why the request is answered at once, if it is: `NoCache` without a
    /// cache, `LookupError` where the table that the request is for does not
    /// hold the method, `ArgumentResolutionError` where an argument names an
    /// object that the handle table does not hold.
    pub open spec fn refusal(self, methods: JavaMethods) -> Option<CallError> {
        match methods {
            JavaMethods::Unset => Some(CallError::NoCache),
            JavaMethods::Cache { cache } => match self {
                JvmCallEvent::CallStaticMethod { .. } => refused(
                    cache.statics().keys(),
                    self.key(),
                    self.arguments(),
                    cache.store()@,
                ),
                JvmCallEvent::CallMethod { .. } => refused(
                    cache.instances().keys(),
                    self.key(),
                    self.arguments(),
                    cache.store()@,
                ),
            },
        }
    }
}

/// `crossbeam_channel::unbounded`: the two ends of a new channel of requests
/// that never blocks its senders.
#[verifier::external_body]
fn request_channel() -> (r: (
    crossbeam_channel::Sender<JvmCallEvent>,
    crossbeam_channel::Receiver<JvmCallEvent>,
)) {
    crossbeam_channel::unbounded()
}

/// `crossbeam_channel::Sender::clone`: another handle to the same sending end.
/// The clone shares the channel of the end it was cloned from and is, in
/// contracts, that end.
#[verifier::external_body]
fn request_sender_clone(sender: &crossbeam_channel::Sender<JvmCallEvent>) -> (r:
    crossbeam_channel::Sender<JvmCallEvent>)
    ensures
        r == *sender,
{
    sender.clone()
}

/// `crossbeam_channel::Receiver::clone`: another handle to the same receiving
/// end. The clone shares the channel of the end it was cloned from and is, in
/// contracts, that end.
#[verifier::external_body]
fn request_receiver_clone(receiver: &crossbeam_channel::Receiver<JvmCallEvent>) -> (r:
    crossbeam_channel::Receiver<JvmCallEvent>)
    ensures
        r == *receiver,
{
    receiver.clone()
}

/// `crossbeam_channel::Sender::send`: hands the request to the channel, or
/// fails where every receiver is gone.
#[verifier::external_body]
fn request_send(sender: &crossbeam_channel::Sender<JvmCallEvent>, event: JvmCallEvent) -> (r:
    Result<(), crossbeam_channel::SendError<JvmCallEvent>>) {
    sender.send(event)
}

/// `crossbeam_channel::Receiver::recv`: waits for the next request, or fails
/// where the channel is empty and every sender is gone.
#[verifier::external_body]
fn request_recv(receiver: &crossbeam_channel::Receiver<JvmCallEvent>) -> (r: Result<
    JvmCallEvent,
    crossbeam_channel::RecvError,
>) {
    receiver.recv()
}

/// The request channel.
pub struct ExecutorChannel {
    channel: (crossbeam_channel::Sender<JvmCallEvent>, crossbeam_channel::Receiver<JvmCallEvent>),
}

impl ExecutorChannel {
    /// The sending end of the channel.
    pub closed spec fn sender_end(&self) -> crossbeam_channel::Sender<JvmCallEvent> {
        self.channel.0
    }

    /// The receiving end of the channel.
    pub closed spec fn receiver_end(&self) -> crossbeam_channel::Receiver<JvmCallEvent> {
        self.channel.1
    }

    pub fn new() -> (r: Self) {
        ExecutorChannel { channel: request_channel() }
    }

    /// A receiving end, for the executor.
    pub fn get_receiver(&self) -> (r: ExecutorReceiver)
        ensures
            r.end() == self.receiver_end(),
    {
        ExecutorReceiver::new(request_receiver_clone(&self.channel.1))
    }

    /// A sending end, for callers.
    pub fn get_jvm_caller(&self) -> (r: JvmCaller)
        ensures
            r.end() == self.sender_end(),
    {
        JvmCaller::new(request_sender_clone(&self.channel.0))
    }
}

/// The executor's end of the request channel.
pub struct ExecutorReceiver {
    event_receiver: crossbeam_channel::Receiver<JvmCallEvent>,
}

impl ExecutorReceiver {
    /// The receiving end that is held.
    pub closed spec fn end(&self) -> crossbeam_channel::Receiver<JvmCallEvent> {
        self.event_receiver
    }

    pub fn new(receiver: crossbeam_channel::Receiver<JvmCallEvent>) -> (r: Self)
        ensures
            r.end() == receiver,
    {
        ExecutorReceiver { event_receiver: receiver }
    }

    /// Waits for the next request. An error means that every caller is gone.
    pub fn receive(&self) -> (r: Result<JvmCallEvent, crossbeam_channel::RecvError>) {
        request_recv(&self.event_receiver)
    }
}

/// Whether `r` is the outcome of a call as a `T`: the value as it arrived,
/// where it has a shape of `T`; `DecodeMismatch` where it has not; the error
/// where the call failed.
pub open spec fn narrowed<T: JVMResponse>(
    outcome: Result<ReturnedValue, CallError>,
    r: Result<T, CallError>,
) -> bool {
    match outcome {
        Ok(value) => match r {
            Ok(x) => x.model() == value@,
            Err(e) => e == CallError::DecodeMismatch && forall|x: T|
                x.model() != value@,
        },
        Err(e) => r matches Err(f) && f == e,
    }
}

/// The result of a finished call as a `T`: the reply's value where it has the
/// shape of `T`, `DecodeMismatch` where it has another, the reply's error
/// where the call failed.
pub fn typed_result<T: JVMResponse>(outcome: Result<ReturnedValue, CallError>) -> (r: Result<
    T,
    CallError,
>)
    ensures
        narrowed(outcome, r),
{
    match crate::response::received_result(Ok(outcome)) {
        Ok(wrapper) => wrapper.to_value::<T>(),
        Err(e) => Err(e),
    }
}

/// A caller's handle to the executor.
pub struct JvmCaller {
    event_channel: crossbeam_channel::Sender<JvmCallEvent>,
}

impl JvmCaller {
    /// The sending end that is held.
    pub closed spec fn end(&self) -> crossbeam_channel::Sender<JvmCallEvent> {
        self.event_channel
    }

    pub fn new(sender: crossbeam_channel::Sender<JvmCallEvent>) -> (r: Self)
        ensures
            r.end() == sender,
    {
        JvmCaller { event_channel: sender }
    }

    /// Sends a request for a static call and returns the channel on which its
    /// answer will arrive. `ChannelClosed` where the executor is gone.
    pub fn submit_static_call(
        &self,
        class_name: &str,
        method_name: &str,
        sig: &str,
        args: JavaArgs,
        return_type: ReturnType,
        returned_object_id: Option<String>,
    ) -> (r: Result<JVMResult, CallError>)
        ensures
            r matches Err(e) ==> e == CallError::ChannelClosed,
    {
        let jvm_result = JVMResult::new();
        let msg = JvmCallEvent::static_call(
            jvm_result.get_sender(),
            class_name,
            method_name,
            sig,
            args,
            return_type,
            returned_object_id,
        );
        match request_send(&self.event_channel, msg) {
            Ok(()) => Ok(jvm_result),
            Err(_) => Err(CallError::ChannelClosed),
        }
    }

    /// Sends a request for an instance call and returns the channel on which
    /// its answer will arrive. `ChannelClosed` where the executor is gone.
    pub fn submit_call(
        &self,
        class_name: &str,
        method_name: &str,
        sig: &str,
        args: JavaArgs,
        return_type: ReturnType,
        returned_object_id: Option<String>,
    ) -> (r: Result<JVMResult, CallError>)
        ensures
            r matches Err(e) ==> e == CallError::ChannelClosed,
    {
        let jvm_result = JVMResult::new();
        let msg = JvmCallEvent::instance_call(
            jvm_result.get_sender(),
            class_name,
            method_name,
            sig,
            args,
            return_type,
            returned_object_id,
        );
        match request_send(&self.event_channel, msg) {
            Ok(()) => Ok(jvm_result),
            Err(_) => Err(CallError::ChannelClosed),
        }
    }

    /// Calls a static method and waits for its result as a `T`: sends the
    /// request with a response channel of its own, waits for the outcome and
    /// narrows it. The result is what `typed_result` makes of the outcome that
    /// arrived; a channel that closed at either end counts as the outcome
    /// `ChannelClosed`.
    pub fn call_static_method<T: JVMResponse>(
        &self,
        class_name: &str,
        method_name: &str,
        sig: &str,
        args: JavaArgs,
        return_type: ReturnType,
        returned_object_id: Option<String>,
    ) -> (r: Result<T, CallError>)
        ensures
            exists|outcome: Result<ReturnedValue, CallError>| narrowed(outcome, r),
    {
        let outcome = match self.submit_static_call(
            class_name,
            method_name,
            sig,
            args,
            return_type,
            returned_object_id,
        ) {
            Ok(pending) => pending.wait_for_value(),
            Err(e) => Err(e),
        };
        let ghost arrived = outcome;
        let r = typed_result::<T>(outcome);
        assert(narrowed(arrived, r));
        r
    }

    /// Calls an instance method and waits for its result.
    pub fn call_method(
        &self,
        class_name: &str,
        method_name: &str,
        sig: &str,
        args: JavaArgs,
        return_type: ReturnType,
        returned_object_id: Option<String>,
    ) -> (r: Result<ReturnedValue, CallError>) {
        let jvm_result = match self.submit_call(
            class_name,
            method_name,
            sig,
            args,
            return_type,
            returned_object_id,
        ) {
            Ok(pending) => pending,
            Err(e) => {
                return Err(e);
            },
        };
        jvm_result.wait_for_value()
    }
}

/// Where the executor stands.
#[derive(Clone, Copy, Debug, PartialEq, Eq, Structural)]
pub enum ExecutorState {
    /// Waiting for a request.
    Idle,
    /// A call has been prepared and the VM is running it.
    Processing,
    /// The request channel is closed; nothing more will be served.
    Stopped,
}

/// The call that the VM is to make.
pub enum Invocation<'a> {
    Static(StaticCall<'a>),
    Instance(InstanceCall<'a>),
}

impl<'a> Invocation<'a> {
    /// The key of the method to invoke.
    pub open spec fn key(self) -> MethodKey {
        match self {
            Invocation::Static(call) => call.method.key(),
            Invocation::Instance(call) => call.method.key(),
        }
    }

    /// The kind of value to expect of it.
    pub open spec fn expected(self) -> ReturnType {
        match self {
            Invocation::Static(call) => call.return_type,
            Invocation::Instance(call) => call.return_type,
        }
    }

    /// Whether the method to invoke is an entry of the table it was asked of.
    pub open spec fn bound_in(self, methods: JavaMethods) -> bool {
        methods matches JavaMethods::Cache { cache } && match self {
            Invocation::Static(call) => cache.statics()@.contains(*call.method),
            Invocation::Instance(call) => cache.instances()@.contains(*call.method),
        }
    }

    /// The arguments to invoke it with.
    pub open spec fn arguments(self) -> Seq<crate::args::JniArg<'a>> {
        match self {
            Invocation::Static(call) => call.args@,
            Invocation::Instance(call) => call.args@,
        }
    }
}

/// An answer and the channel it goes to.
pub struct Reply {
    pub response_channel: JVMResultSender,
    pub outcome: Result<ReturnedValue, CallError>,
}

impl Reply {
    /// Sends the answer. A caller that is gone is no error: the answer is
    /// dropped, and the result says so.
    pub fn deliver(self) -> (delivered: bool) {
        let Reply { response_channel, outcome } = self;
        match response_channel.reply(outcome) {
            Ok(()) => true,
            Err(_) => false,
        }
    }
}

/// What the executor does next.
pub enum Step<'a> {
    /// Have the VM make this call, then report with `on_invoked`.
    Invoke(Invocation<'a>),
    /// Send this answer, then wait for the next request.
    Answer(Reply),
    /// Stop: no caller is left.
    Stop,
}

impl<'a> Step<'a> {
    /// The call to make, where the step is to make one.
    pub open spec fn call(self) -> Option<Invocation<'a>> {
        match self {
            Step::Invoke(call) => Some(call),
            _ => None,
        }
    }
}

/// The answer that is due once the VM has made the call.
struct Pending {
    response_channel: JVMResultSender,
    returned_object_id: Option<String>,
}

/// The executor: the decisions of the one thread that talks to the VM.
pub struct Executor {
    state: ExecutorState,
    pending: Option<Pending>,
}

impl Executor {
    /// Where the executor stands.
    pub closed spec fn state(&self) -> ExecutorState {
        self.state
    }

    /// While a call is being made: the channel its answer goes to.
    pub closed spec fn awaited_channel(&self) -> JVMResultSender {
        self.pending.unwrap().response_channel
    }

    /// While a call is being made: the name to keep a returned object under.
    pub closed spec fn awaited_object_id(&self) -> Option<String> {
        self.pending.unwrap().returned_object_id
    }

    /// Well-formedness: an answer is due exactly while a call is being made.
    pub closed spec fn wf(&self) -> bool {
        self.pending is Some <==> self.state == ExecutorState::Processing
    }

    /// An executor that waits for its first request.
    pub fn new() -> (r: Self)
        ensures
            r.wf(),
            r.state() == ExecutorState::Idle,
    {
        Executor { state: ExecutorState::Idle, pending: None }
    }

    pub fn current_state(&self) -> (r: ExecutorState)
        ensures
            r == self.state(),
    {
        self.state
    }

    /// Whether an executor that was waiting stands as `self` does, with `step`
    /// to take, after the request channel gave `received`. A closed channel
    /// stops it. A request that nothing speaks against gives the call to make,
    /// bound in its table and with the request's arguments marshalled, and
    /// leaves it waiting for the VM with the request's channel and name kept.
    /// Any other request gives its `refusal` as the answer for the request's
    /// channel and leaves it waiting for the next request.
    pub open spec fn decided<'a>(
        self,
        methods: JavaMethods,
        received: Result<JvmCallEvent, crossbeam_channel::RecvError>,
        step: Step<'a>,
    ) -> bool {
        match received {
            Err(_) => step is Stop && self.state() == ExecutorState::Stopped,
            Ok(event) => if event.refusal(methods) is None {
                &&& step matches Step::Invoke(call)
                &&& call.key() == event.key()
                &&& call.bound_in(methods)
                &&& call.expected() == event.expected()
                &&& (call is Static <==> event is CallStaticMethod)
                &&& methods matches JavaMethods::Cache { cache }
                &&& call.arguments() == passed(event.arguments(), cache.store()@)
                &&& self.state() == ExecutorState::Processing
                &&& self.awaited_channel() == event.channel()
                &&& self.awaited_object_id() == event.object_id()
            } else {
                &&& step matches Step::Answer(reply)
                &&& reply.response_channel == event.channel()
                &&& reply.outcome matches Err(e)
                &&& event.refusal(methods) == Some(e)
                &&& self.state() == ExecutorState::Idle
            },
        }
    }

    /// Decides what to do with what the request channel gave. A closed
    /// channel stops the executor. A request for a method that the table holds,
    /// with arguments whose names resolve, becomes the call to make, and the
    /// executor waits for the VM. Any other request is answered at once with
    /// its error, on the channel that came with it, and the executor stays
    /// ready for the next request.
    pub fn on_event<'a>(
        &mut self,
        methods: &'a JavaMethods,
        received: Result<JvmCallEvent, crossbeam_channel::RecvError>,
    ) -> (step: Step<'a>)
        requires
            old(self).wf(),
            old(self).state() == ExecutorState::Idle,
            methods.wf(),
        ensures
            final(self).wf(),
            final(self).decided(*methods, received, step),
    {
        match received {
            Err(_) => {
                self.state = ExecutorState::Stopped;
                Step::Stop
            },
            Ok(
                JvmCallEvent::CallStaticMethod {
                    response_channel,
                    class_name,
                    method_name,
                    sig,
                    args,
                    return_type,
                    returned_object_id,
                },
            ) => match methods.call_static_method(
                class_name.as_str(),
                method_name.as_str(),
                sig.as_str(),
                args,
                return_type,
            ) {
                Ok(call) => {
                    self.pending = Some(Pending { response_channel, returned_object_id });
                    self.state = ExecutorState::Processing;
                    Step::Invoke(Invocation::Static(call))
                },
                Err(e) => Step::Answer(Reply { response_channel, outcome: Err(e) }),
            },
            Ok(
                JvmCallEvent::CallMethod {
                    response_channel,
                    class_name,
                    method_name,
                    sig,
                    args,
                    return_type,
                    returned_object_id,
                },
            ) => match methods.call_method(
                class_name.as_str(),
                method_name.as_str(),
                sig.as_str(),
                args,
                return_type,
            ) {
                Ok(call) => {
                    self.pending = Some(Pending { response_channel, returned_object_id });
                    self.state = ExecutorState::Processing;
                    Step::Invoke(Invocation::Instance(call))
                },
                Err(e) => Step::Answer(Reply { response_channel, outcome: Err(e) }),
            },
        }
    }

    /// Takes what the VM made of the call and returns the answer that is due,
    /// for the channel that came with the request. A failure that the VM
    /// reported is answered with `InvocationError`. Either way the executor is
    /// ready for the next request.
    pub fn on_invoked<'local>(
        &mut self,
        methods: &mut JavaMethods,
        env: &mut JNIEnv<'local>,
        outcome: Result<JValueGen<JObject<'local>>, Error>,
    ) -> (reply: Reply)
        requires
            old(self).wf(),
            old(self).state() == ExecutorState::Processing,
            old(methods).wf(),
        ensures
            final(self).wf(),
            final(self).state() == ExecutorState::Idle,
            final(methods).wf(),
            reply.response_channel == old(self).awaited_channel(),
            match *old(methods) {
                JavaMethods::Unset => *final(methods) is Unset && reply.outcome == Err::<
                    ReturnedValue,
                    CallError,
                >(CallError::NoCache),
                JavaMethods::Cache { cache: before } => {
                    &&& *final(methods) matches JavaMethods::Cache { cache: after }
                    &&& JavaMethodCache::finishes_as(
                        outcome,
                        before.classes().names(),
                        old(self).awaited_object_id(),
                        reply.outcome,
                    )
                    &&& ReturnedValue::table_follows(
                        reply.outcome,
                        before.store()@,
                        after.store()@,
                        old(self).awaited_object_id(),
                    )
                    &&& after.statics() == before.statics()
                    &&& after.instances() == before.instances()
                    &&& after.classes() == before.classes()
                    &&& after.built() == before.built()
                },
            },
    {
        let pending = self.pending.take();
        self.state = ExecutorState::Idle;
        match pending {
            Some(Pending { response_channel, returned_object_id }) => {
                let decoded = methods.finish_call(env, outcome, returned_object_id);
                Reply { response_channel, outcome: decoded }
            },
            None => {
                proof {
                    assert(false);
                }
                unreached()
            },
        }
    }

    /// Waits for the next request and decides what to do with it, as
    /// `on_event` decides for what the channel gave. An answer that is due at
    /// once is sent here. The result is the call to make, if there is one;
    /// `None` where the request was answered or the executor stopped, which
    /// the state tells apart.
    pub fn next<'a>(&mut self, receiver: &ExecutorReceiver, methods: &'a JavaMethods) -> (call:
        Option<Invocation<'a>>)
        requires
            old(self).wf(),
            old(self).state() == ExecutorState::Idle,
            methods.wf(),
        ensures
            final(self).wf(),
            call is Some <==> final(self).state() == ExecutorState::Processing,
            call is None ==> final(self).state() == ExecutorState::Idle || final(self).state()
                == ExecutorState::Stopped,
            exists|received: Result<JvmCallEvent, crossbeam_channel::RecvError>, step: Step<'a>|
                final(self).decided(*methods, received, step) && call == step.call(),
    {
        let received = receiver.receive();
        let ghost given = received;
        let step = self.on_event(methods, received);
        let ghost taken = step;
        let call = match step {
            Step::Invoke(call) => Some(call),
            Step::Answer(reply) => {
                reply.deliver();
                None
            },
            Step::Stop => None,
        };
        assert(self.decided(*methods, given, taken) && call == taken.call());
        call
    }

    /// Reports what the VM made of the call and sends the answer that
    /// `on_invoked` gives. The result is whether the answer was delivered.
    pub fn complete<'local>(
        &mut self,
        methods: &mut JavaMethods,
        env: &mut JNIEnv<'local>,
        outcome: Result<JValueGen<JObject<'local>>, Error>,
    ) -> (delivered: bool)
        requires
            old(self).wf(),
            old(self).state() == ExecutorState::Processing,
            old(methods).wf(),
        ensures
            final(self).wf(),
            final(self).state() == ExecutorState::Idle,
            final(methods).wf(),
            match *old(methods) {
                JavaMethods::Unset => *final(methods) is Unset,
                JavaMethods::Cache { cache: before } => {
                    &&& *final(methods) matches JavaMethods::Cache { cache: after }
                    &&& after.statics() == before.statics()
                    &&& after.instances() == before.instances()
                    &&& after.classes() == before.classes()
                    &&& after.built() == before.built()
                    &&& exists|answer: Result<ReturnedValue, CallError>|
                        JavaMethodCache::finishes_as(
                            outcome,
                            before.classes().names(),
                            old(self).awaited_object_id(),
                            answer,
                        ) && ReturnedValue::table_follows(
                            answer,
                            before.store()@,
                            after.store()@,
                            old(self).awaited_object_id(),
                        )
                },
            },
    {
        let reply = self.on_invoked(methods, env, outcome);
        let ghost answer = reply.outcome;
        proof {
            if let JavaMethods::Cache { cache: before } = *old(methods) {
                assert(JavaMethodCache::finishes_as(
                    outcome,
                    before.classes().names(),
                    old(self).awaited_object_id(),
                    answer,
                ));
            }
        }
        reply.deliver()
    }
}

} // verus!
