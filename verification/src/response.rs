//! The way back: the one-shot channel on which a call's result reaches its
//! caller, and the checked narrowing of that result to the type the caller
//! asked for.
use crate::errors::CallError;
use crate::value::{ReturnedModel, ReturnedValue};
use vstd::prelude::*;

verus! {

#[verifier::external_type_specification]
#[verifier::external_body]
#[verifier::reject_recursive_types(T)]
pub struct ExKanalSender<T>(kanal::Sender<T>);

#[verifier::external_type_specification]
#[verifier::external_body]
#[verifier::reject_recursive_types(T)]
pub struct ExKanalReceiver<T>(kanal::Receiver<T>);

#[verifier::external_type_specification]
#[verifier::external_body]
pub struct ExKanalSendError(kanal::SendError);

#[verifier::external_type_specification]
#[verifier::external_body]
pub struct ExKanalReceiveError(kanal::ReceiveError);

/// `kanal::bounded`: the two ends of a new channel that buffers up to `size`
/// replies.
#[verifier::external_body]
fn reply_channel(size: usize) -> (r: (
    kanal::Sender<Result<ReturnedValue, CallError>>,
    kanal::Receiver<Result<ReturnedValue, CallError>>,
)) {
    kanal::bounded(size)
}

/// `kanal::Sender::clone`: another handle to the same sending end. The clone
/// shares the channel of the end it was cloned from and is, in contracts, that
/// end.
#[verifier::external_body]
fn reply_sender_clone(sender: &kanal::Sender<Result<ReturnedValue, CallError>>) -> (r:
    kanal::Sender<Result<ReturnedValue, CallError>>)
    ensures
        r == *sender,
{
    sender.clone()
}

/// `kanal::Sender::send`: hands `reply` to the channel, or fails where the
/// channel is closed or its receiver is gone.
#[verifier::external_body]
fn reply_send(
    sender: &kanal::Sender<Result<ReturnedValue, CallError>>,
    reply: Result<ReturnedValue, CallError>,
) -> (r: Result<(), kanal::SendError>) {
    sender.send(reply)
}

/// `kanal::Receiver::recv`: waits for the next reply, or fails where none is
/// buffered and the channel is closed or every sender is gone.
#[verifier::external_body]
fn reply_recv(receiver: &kanal::Receiver<Result<ReturnedValue, CallError>>) -> (r: Result<
    Result<ReturnedValue, CallError>,
    kanal::ReceiveError,
>) {
    receiver.recv()
}

/// A type that a call's result can be asked as.
pub trait JVMResponse: Sized {
    type Item;

    /// The returned value that stands for `self`.
    spec fn model(&self) -> ReturnedModel;

    /// The returned value that stands for an item.
    spec fn item_model(item: Self::Item) -> ReturnedModel;

    /// A copy of the value.
    fn get_value(&self) -> (r: Self::Item)
        ensures
            Self::item_model(r) == self.model(),
    ;

    /// The value as a returned value.
    fn widen(&self) -> (r: ReturnedValue)
        ensures
            r@ == self.model(),
    ;

    /// The returned value as this type, where it has this type's shape.
    fn narrow(value: &ReturnedValue) -> (r: Option<Self>)
        ensures
            match r {
                Some(x) => x.model() == value@,
                None => forall|x: Self| x.model() != value@,
            },
    ;
}

impl JVMResponse for () {
    type Item = ();

    open spec fn model(&self) -> ReturnedModel {
        ReturnedModel::Void
    }

    open spec fn item_model(item: ()) -> ReturnedModel {
        ReturnedModel::Void
    }

    fn get_value(&self) -> (r: ()) {
        *self
    }

    fn widen(&self) -> (r: ReturnedValue) {
        ReturnedValue::Void
    }

    fn narrow(value: &ReturnedValue) -> (r: Option<()>) {
        match value {
            ReturnedValue::Void => Some(()),
            _ => None,
        }
    }
}

impl JVMResponse for i64 {
    type Item = i64;

    open spec fn model(&self) -> ReturnedModel {
        ReturnedModel::Long(*self)
    }

    open spec fn item_model(item: i64) -> ReturnedModel {
        ReturnedModel::Long(item)
    }

    fn get_value(&self) -> (r: i64) {
        *self
    }

    fn widen(&self) -> (r: ReturnedValue) {
        ReturnedValue::Long(*self)
    }

    fn narrow(value: &ReturnedValue) -> (r: Option<i64>) {
        match value {
            ReturnedValue::Long(v) => Some(*v),
            _ => None,
        }
    }
}

impl JVMResponse for String {
    type Item = String;

    open spec fn model(&self) -> ReturnedModel {
        ReturnedModel::Text(self@)
    }

    open spec fn item_model(item: String) -> ReturnedModel {
        ReturnedModel::Text(item@)
    }

    fn get_value(&self) -> (r: String) {
        self.clone()
    }

    fn widen(&self) -> (r: ReturnedValue) {
        ReturnedValue::String(self.clone())
    }

    fn narrow(value: &ReturnedValue) -> (r: Option<String>) {
        match value {
            ReturnedValue::String(s) => Some(s.clone()),
            _ => None,
        }
    }
}

impl JVMResponse for i32 {
    type Item = i32;

    open spec fn model(&self) -> ReturnedModel {
        ReturnedModel::I32(*self)
    }

    open spec fn item_model(item: i32) -> ReturnedModel {
        ReturnedModel::I32(item)
    }

    fn get_value(&self) -> (r: i32) {
        *self
    }

    fn widen(&self) -> (r: ReturnedValue) {
        ReturnedValue::I32(*self)
    }

    fn narrow(value: &ReturnedValue) -> (r: Option<i32>) {
        match value {
            ReturnedValue::I32(v) => Some(*v),
            _ => None,
        }
    }
}

fn copy_of(source: &Vec<i32>) -> (r: Vec<i32>)
    ensures
        r@ == source@,
{
    let mut copy: Vec<i32> = Vec::new();
    let mut i: usize = 0;
    while i < source.len()
        invariant
            i <= source@.len(),
            copy@ == source@.take(i as int),
        decreases source@.len() - i,
    {
        copy.push(source[i]);
        assert(copy@ =~= source@.take(i + 1));
        i = i + 1;
    }
    assert(source@.take(i as int) =~= source@);
    copy
}

impl JVMResponse for Vec<i32> {
    type Item = Vec<i32>;

    open spec fn model(&self) -> ReturnedModel {
        ReturnedModel::VecI32(self@)
    }

    open spec fn item_model(item: Vec<i32>) -> ReturnedModel {
        ReturnedModel::VecI32(item@)
    }

    fn get_value(&self) -> (r: Vec<i32>) {
        copy_of(self)
    }

    fn widen(&self) -> (r: ReturnedValue) {
        ReturnedValue::VecI32(copy_of(self))
    }

    fn narrow(value: &ReturnedValue) -> (r: Option<Vec<i32>>) {
        match value {
            ReturnedValue::VecI32(v) => Some(copy_of(v)),
            _ => None,
        }
    }
}

/// The name under which an object that a call returned is kept in the handle
/// table.
#[derive(Clone, Debug, PartialEq, Eq)]
pub struct KeptObject {
    pub id: String,
}

impl JVMResponse for KeptObject {
    type Item = KeptObject;

    open spec fn model(&self) -> ReturnedModel {
        ReturnedModel::JObject(self.id@)
    }

    open spec fn item_model(item: KeptObject) -> ReturnedModel {
        ReturnedModel::JObject(item.id@)
    }

    fn get_value(&self) -> (r: KeptObject) {
        KeptObject { id: self.id.clone() }
    }

    fn widen(&self) -> (r: ReturnedValue) {
        ReturnedValue::JObject(self.id.clone())
    }

    fn narrow(value: &ReturnedValue) -> (r: Option<KeptObject>) {
        match value {
            ReturnedValue::JObject(id) => Some(KeptObject { id: id.clone() }),
            _ => None,
        }
    }
}

fn copy_of_bits(source: &Vec<u64>) -> (r: Vec<u64>)
    ensures
        r@ == source@,
{
    let mut copy: Vec<u64> = Vec::new();
    let mut i: usize = 0;
    while i < source.len()
        invariant
            i <= source@.len(),
            copy@ == source@.take(i as int),
        decreases source@.len() - i,
    {
        copy.push(source[i]);
        assert(copy@ =~= source@.take(i + 1));
        i = i + 1;
    }
    assert(source@.take(i as int) =~= source@);
    copy
}

/// An array of doubles, each element as its IEEE-754 bit pattern.
impl JVMResponse for Vec<u64> {
    type Item = Vec<u64>;

    open spec fn model(&self) -> ReturnedModel {
        ReturnedModel::VecDouble(self@)
    }

    open spec fn item_model(item: Vec<u64>) -> ReturnedModel {
        ReturnedModel::VecDouble(item@)
    }

    fn get_value(&self) -> (r: Vec<u64>) {
        copy_of_bits(self)
    }

    fn widen(&self) -> (r: ReturnedValue) {
        ReturnedValue::VecDouble(copy_of_bits(self))
    }

    fn narrow(value: &ReturnedValue) -> (r: Option<Vec<u64>>) {
        match value {
            ReturnedValue::VecDouble(v) => Some(copy_of_bits(v)),
            _ => None,
        }
    }
}

/// A value of any type that a result can be asked as, with its type erased.
pub trait DynJVMResponse {
    /// The returned value that stands for `self`.
    spec fn erased(&self) -> ReturnedModel;

    /// The value as a returned value.
    fn get_value(&self) -> (r: ReturnedValue)
        ensures
            r@ == self.erased(),
    ;
}

impl<T: JVMResponse> DynJVMResponse for T {
    open spec fn erased(&self) -> ReturnedModel {
        self.model()
    }

    fn get_value(&self) -> (r: ReturnedValue) {
        self.widen()
    }
}

/// A call's result, waiting to be asked as a type.
pub struct JVMResponseWrapper {
    inner: ReturnedValue,
}

impl JVMResponseWrapper {
    /// The returned value that is held.
    pub closed spec fn model(&self) -> ReturnedModel {
        self.inner@
    }

    pub fn new<T: JVMResponse>(value: T) -> (r: Self)
        ensures
            r.model() == value.model(),
    {
        JVMResponseWrapper { inner: value.widen() }
    }

    /// Wraps a returned value as it arrived.
    pub fn from_returned(value: ReturnedValue) -> (r: Self)
        ensures
            r.model() == value@,
    {
        JVMResponseWrapper { inner: value }
    }

    /// The result as a `T`. Where the result has another shape than `T` the
    /// answer is `DecodeMismatch`, never a default value.
    pub fn to_value<T: JVMResponse>(&self) -> (r: Result<T, CallError>)
        ensures
            match r {
                Ok(x) => x.model() == self.model(),
                Err(e) => e == CallError::DecodeMismatch && forall|x: T| x.model() != self.model(),
            },
    {
        match T::narrow(&self.inner) {
            Some(x) => Ok(x),
            None => Err(CallError::DecodeMismatch),
        }
    }
}

/// The sending end of a call's response channel. It travels with the request.
#[derive(Debug)]
pub struct JVMResultSender {
    sender: kanal::Sender<Result<ReturnedValue, CallError>>,
}

impl JVMResultSender {
    /// The sending end that is held.
    pub closed spec fn end(&self) -> kanal::Sender<Result<ReturnedValue, CallError>> {
        self.sender
    }

    /// Sends a value as the call's result.
    pub fn send(&self, value: ReturnedValue) -> (r: Result<(), kanal::SendError>) {
        reply_send(&self.sender, Ok(value))
    }

    /// Sends the call's outcome, a value or the reason why there is none.
    pub fn reply(&self, outcome: Result<ReturnedValue, CallError>) -> (r: Result<
        (),
        kanal::SendError,
    >) {
        reply_send(&self.sender, outcome)
    }
}

/// Whether `r` is what the caller makes of what the response channel gave: a
/// reply that is a value is wrapped as it arrived, a reply that is an error is
/// that error, and a channel that closed without a reply is `ChannelClosed`.
pub open spec fn received_as(
    received: Result<Result<ReturnedValue, CallError>, kanal::ReceiveError>,
    r: Result<JVMResponseWrapper, CallError>,
) -> bool {
    match received {
        Ok(Ok(value)) => r matches Ok(w) && w.model() == value@,
        Ok(Err(e)) => r matches Err(f) && f == e,
        Err(_) => r matches Err(f) && f == CallError::ChannelClosed,
    }
}

/// What the caller makes of what the response channel gave: a reply that is a
/// value is wrapped, a reply that is an error is that error, and a channel
/// that closed without a reply is `ChannelClosed`.
pub fn received_result(
    received: Result<Result<ReturnedValue, CallError>, kanal::ReceiveError>,
) -> (r: Result<JVMResponseWrapper, CallError>)
    ensures
        received_as(received, r),
{
    match received {
        Ok(Ok(value)) => Ok(JVMResponseWrapper::from_returned(value)),
        Ok(Err(e)) => Err(e),
        Err(_) => Err(CallError::ChannelClosed),
    }
}

/// What the caller makes of what the response channel gave, with the value
/// as it was sent.
pub fn received_value(
    received: Result<Result<ReturnedValue, CallError>, kanal::ReceiveError>,
) -> (r: Result<ReturnedValue, CallError>)
    ensures
        match received {
            Ok(outcome) => r == outcome,
            Err(_) => r matches Err(f) && f == CallError::ChannelClosed,
        },
{
    match received {
        Ok(outcome) => outcome,
        Err(_) => Err(CallError::ChannelClosed),
    }
}

fn release(_sender: kanal::Sender<Result<ReturnedValue, CallError>>) {
}

/// The receiving end of a call's response channel, made for one call.
#[derive(Debug)]
pub struct JVMResult {
    channel: (
        kanal::Sender<Result<ReturnedValue, CallError>>,
        kanal::Receiver<Result<ReturnedValue, CallError>>,
    ),
}

impl JVMResult {
    /// The sending end of this channel.
    pub closed spec fn sender_end(&self) -> kanal::Sender<Result<ReturnedValue, CallError>> {
        self.channel.0
    }

    pub fn new() -> (r: Self) {
        JVMResult { channel: reply_channel(1) }
    }

    /// A sender for this channel, to travel with the request.
    pub fn get_sender(&self) -> (r: JVMResultSender)
        ensures
            r.end() == self.sender_end(),
    {
        JVMResultSender { sender: reply_sender_clone(&self.channel.0) }
    }

    /// Waits for the call's outcome. The channel's own sender is given up
    /// first, so that the wait ends when the request is dropped unanswered.
    /// The result is what `received_result` makes of what the channel gave.
    pub fn wait_for_result(self) -> (r: Result<JVMResponseWrapper, CallError>)
        ensures
            exists|received: Result<Result<ReturnedValue, CallError>, kanal::ReceiveError>|
                received_as(received, r),
    {
        let (sender, receiver) = self.channel;
        release(sender);
        let received = reply_recv(&receiver);
        let ghost given = received;
        let r = received_result(received);
        assert(received_as(given, r));
        r
    }

    /// Waits for the call's outcome and returns the value as it was sent.
    pub fn wait_for_value(self) -> (r: Result<ReturnedValue, CallError>) {
        let (sender, receiver) = self.channel;
        release(sender);
        received_value(reply_recv(&receiver))
    }
}

} // verus!
