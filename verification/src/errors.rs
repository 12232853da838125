//! Why a call did not yield a value.
use vstd::prelude::*;

verus! {

/// The failures of one call. Each reaches the caller that made the call and
/// nobody else.
#[derive(Clone, Copy, Debug, PartialEq, Eq, Structural)]
pub enum CallError {
    /// No cache has been set up.
    NoCache,
    /// The table holds no method of that class, name and signature.
    LookupError,
    /// An argument names an object that the handle table does not hold.
    ArgumentResolutionError,
    /// The VM reported a failure while it ran the method.
    InvocationError,
    /// The VM returned an object that is not unpacked, and the caller gave no
    /// name to keep it under.
    MissingObjectId,
    /// The VM refused to hand over the contents of the result.
    ResultUnreadable,
    /// The result has another shape than the type the caller asked for.
    DecodeMismatch,
    /// The executor is gone.
    ChannelClosed,
}

impl CallError {
    /// The error in words.
    pub open spec fn words(self) -> Seq<char> {
        match self {
            CallError::NoCache => "No cache initialized in java_method_cache !"@,
            CallError::LookupError => "no such method in the cache"@,
            CallError::ArgumentResolutionError => "no object is kept under the name of an argument"@,
            CallError::InvocationError => "error while calling the java method"@,
            CallError::MissingObjectId => "no object identifier given"@,
            CallError::ResultUnreadable => "error while reading the returned value"@,
            CallError::DecodeMismatch => "the returned value has another type"@,
            CallError::ChannelClosed => "error while receiving response from java method call"@,
        }
    }

    /// The error in words.
    pub fn message(&self) -> (r: String)
        ensures
            r@ == self.words(),
    {
        match self {
            CallError::NoCache => "No cache initialized in java_method_cache !".to_owned(),
            CallError::LookupError => "no such method in the cache".to_owned(),
            CallError::ArgumentResolutionError => "no object is kept under the name of an argument".to_owned(),
            CallError::InvocationError => "error while calling the java method".to_owned(),
            CallError::MissingObjectId => "no object identifier given".to_owned(),
            CallError::ResultUnreadable => "error while reading the returned value".to_owned(),
            CallError::DecodeMismatch => "the returned value has another type".to_owned(),
            CallError::ChannelClosed => "error while receiving response from java method call".to_owned(),
        }
    }
}

} // verus!
