//! The life of one call through a facade: built, sent, and then either
//! delivered or abandoned.

use vstd::prelude::*;
use vstd::string::StringExecFns;
use crate::transport::Sender;

verus! {

/// A call that ended without a result: the sender of its command was let go
/// before anything was sent through it.
///
/// The failure does not tell a method that came to no result from an
/// adapter that let the command go. In both cases the sender is let go
/// unused, and that is all the caller's receiver gets to see.
#[derive(Debug, Clone, PartialEq, Eq)]
pub struct CallFailure {
    /// The method that was called.
    pub method: String,
}

/// What a [`CallFailure`] holds, as a mathematical value.
pub struct CallFailureView {
    pub method: Seq<char>,
}

impl View for CallFailure {
    type V = CallFailureView;

    open spec fn view(&self) -> CallFailureView {
        CallFailureView { method: self.method@ }
    }
}

/// What a failed call of `method` says of itself.
pub open spec fn failure_message(method: Seq<char>) -> Seq<char> {
    "call to "@ + method + " produced no result"@
}

impl CallFailure {
    /// The failure in words; it names the method.
    pub fn message(&self) -> (text: String)
        ensures
            text@ == failure_message(self.method@),
    {
        String::from_str("call to ").concat(self.method.as_str()).concat(" produced no result")
    }
}

/// Where a call stands.
#[derive(Debug, Clone, PartialEq, Eq)]
pub enum CallState<T> {
    /// The command is constructed and not yet handed on.
    Built,
    /// The command has been handed to `handle`; the caller waits on the
    /// receiver.
    Sent,
    /// The dispatcher ran the method and sent this result.
    Delivered(T),
    /// The sender was let go without anything sent.
    Abandoned,
}

/// What can happen to a call.
#[derive(Debug, Clone, PartialEq, Eq)]
pub enum CallEvent<T> {
    /// The command is handed to `handle`.
    Handed,
    /// The dispatcher sends this result through the command's sender.
    Responded(T),
    /// The command's sender is let go unused.
    Dropped,
}

impl<T> CallEvent<T> {
    /// The event by which a dispatcher ends a call whose method has come to
    /// `outcome`: the value is sent, or, where there is none, the sender is
    /// let go.
    pub open spec fn ending(outcome: Option<T>) -> CallEvent<T> {
        match outcome {
            Some(value) => CallEvent::Responded(value),
            None => CallEvent::Dropped,
        }
    }

    /// This event has gone through `sender`: a value that the event carries
    /// was sent through it. An event without a value asks for no send.
    pub open spec fn went_through<S: Sender<T>>(self, sender: S) -> bool where T: Send {
        self matches CallEvent::Responded(value) ==> sender.send_promise(value)
    }

    /// The event by which a dispatcher ends a call whose method has come to
    /// `outcome`.
    pub fn end(outcome: Option<T>) -> (event: Self)
        ensures
            event == Self::ending(outcome),
    {
        match outcome {
            Some(value) => CallEvent::Responded(value),
            None => CallEvent::Dropped,
        }
    }

    /// Lets the event happen to `sender`: a value is sent through it, and
    /// for any other event the sender is let go unused.
    pub fn deliver<S: Sender<T>>(self, sender: S) where T: Send
        ensures
            self.went_through(sender),
    {
        match self {
            CallEvent::Responded(value) => sender.send(value),
            _ => {},
        }
    }
}

impl<T> CallState<T> {
    /// The call has come to its end: nothing can happen to it any more.
    pub open spec fn is_final(self) -> bool {
        self is Delivered || self is Abandoned
    }

    /// The state after `event`, or `None` where the event cannot happen in
    /// this state. A built call can only be handed on; a sent call is
    /// answered once or loses its sender; a call at its end admits nothing.
    pub open spec fn after(self, event: CallEvent<T>) -> Option<CallState<T>> {
        match (self, event) {
            (CallState::Built, CallEvent::Handed) => Some(CallState::Sent),
            (CallState::Sent, CallEvent::Responded(value)) => Some(CallState::Delivered(value)),
            (CallState::Sent, CallEvent::Dropped) => Some(CallState::Abandoned),
            _ => None,
        }
    }

    /// What the waiting caller receives once the call has come to its end:
    /// the value, or nothing after an abandoned call. `None` while the call
    /// is under way.
    pub open spec fn received(self) -> Option<Option<T>> {
        match self {
            CallState::Delivered(value) => Some(Some(value)),
            CallState::Abandoned => Some(None),
            _ => None,
        }
    }

    /// The state after `event`, or `None` where the event cannot happen in
    /// this state.
    pub fn step(self, event: CallEvent<T>) -> (next: Option<CallState<T>>)
        ensures
            next == self.after(event),
    {
        match self {
            CallState::Built => match event {
                CallEvent::Handed => Some(CallState::Sent),
                CallEvent::Dropped => None,
                CallEvent::Responded(_) => None,
            },
            CallState::Sent => match event {
                CallEvent::Responded(value) => Some(CallState::Delivered(value)),
                CallEvent::Dropped => Some(CallState::Abandoned),
                CallEvent::Handed => None,
            },
            CallState::Delivered(_) => None,
            CallState::Abandoned => None,
        }
    }

    /// What the waiting caller receives, once the call has come to its end.
    pub fn receive(self) -> (outcome: Option<Option<T>>)
        ensures
            outcome == self.received(),
    {
        match self {
            CallState::Delivered(value) => Some(Some(value)),
            CallState::Abandoned => Some(None),
            CallState::Built => None,
            CallState::Sent => None,
        }
    }
}

/// The state that `events`, taken in order, bring a call to from `state`,
/// or `None` where one of them cannot happen when its turn comes.
pub open spec fn after_all<T>(state: CallState<T>, events: Seq<CallEvent<T>>) -> Option<
    CallState<T>,
>
    decreases events.len(),
{
    if events.len() == 0 {
        Some(state)
    } else {
        match after_all(state, events.drop_last()) {
            Some(reached) => reached.after(events.last()),
            None => None,
        }
    }
}

/// What a call of `method` returns once the receiver has yielded: the
/// value, or for an absent result the failure that names the method.
pub open spec fn settled<T>(method: Seq<char>, received: Option<T>) -> Result<T, CallFailureView> {
    match received {
        Some(value) => Ok(value),
        None => Err(CallFailureView { method }),
    }
}

/// `result` is how a call of `method` ends whose receiver has yielded
/// `received`.
pub open spec fn settles<T>(
    result: Result<T, CallFailure>,
    method: Seq<char>,
    received: Option<T>,
) -> bool {
    match result {
        Ok(value) => settled(method, received) == Ok::<T, CallFailureView>(value),
        Err(failure) => settled(method, received) == Err::<T, CallFailureView>(failure@),
    }
}

/// Ends a call of `method` with what its receiver yielded. The call has
/// been sent; a value tells that it was answered, and its absence that the
/// sender was let go. The state that the call comes to decides: delivered,
/// it gives the value, and abandoned, a failure, never a made-up value.
pub fn settle<T>(method: &str, received: Option<T>) -> (result: Result<T, CallFailure>)
    ensures
        settles(result, method@, received),
        CallState::<T>::Sent.after(CallEvent::ending(received)) matches Some(end) && end.received()
            == Some(received),
{
    match CallState::Sent.step(CallEvent::end(received)) {
        Some(CallState::Delivered(value)) => Ok(value),
        _ => Err(CallFailure { method: String::from_str(method) }),
    }
}

/// What a call of `method` returns that has been sent and is ended by
/// `event`: the receiver yields what the end state holds, and the call is
/// settled with that. `None` for an event that cannot end a sent call.
pub open spec fn ended_by<T>(method: Seq<char>, event: CallEvent<T>) -> Option<
    Result<T, CallFailureView>,
> {
    match CallState::<T>::Sent.after(event) {
        Some(end) => match end.received() {
            Some(received) => Some(settled(method, received)),
            None => None,
        },
        None => None,
    }
}

/// Round trip, for every method and every outcome. Where the method comes
/// to a value, the dispatcher answers the call with it, and the call returns
/// that value. Where it comes to none, the dispatcher lets the sender go,
/// and the call fails with the failure that names the method.
pub proof fn lemma_round_trip<T>(method: Seq<char>, outcome: Option<T>)
    ensures
        ended_by(method, CallEvent::ending(outcome)) == Some(settled(method, outcome)),
        outcome matches Some(value) ==> ended_by(method, CallEvent::ending(outcome)) == Some(
            Ok::<T, CallFailureView>(value),
        ),
        outcome is None ==> ended_by(method, CallEvent::ending(outcome)) == Some(
            Err::<T, CallFailureView>(CallFailureView { method }),
        ),
{
}

/// A call that is handed on and answered with `value` delivers `value`.
pub proof fn lemma_answered_call_delivers<T>(method: Seq<char>, value: T)
    ensures
        CallState::<T>::Built.after(CallEvent::Handed) == Some(CallState::<T>::Sent),
        CallState::<T>::Sent.after(CallEvent::Responded(value)) == Some(
            CallState::Delivered(value),
        ),
        CallState::Delivered(value).received() == Some(Some(value)),
        settled(method, Some(value)) == Ok::<T, CallFailureView>(value),
{
}

/// A call whose command is let go after it was handed on ends as a failure
/// that names the method: it neither stays open nor yields a value.
pub proof fn lemma_dropped_call_fails<T>(method: Seq<char>)
    ensures
        CallState::<T>::Sent.after(CallEvent::Dropped) == Some(CallState::<T>::Abandoned),
        CallState::<T>::Abandoned.received() == Some(None::<T>),
        settled(method, None::<T>) == Err::<T, CallFailureView>(CallFailureView { method }),
{
}

/// Whatever happens to a call from the moment it is built, its sender is
/// used exactly once by the time the call has come to its end: a delivered
/// call was handed on and then answered once, with the value delivered; an
/// abandoned call was handed on and then lost its sender; and nothing else
/// happened to either.
pub proof fn lemma_one_answer_per_call<T>(events: Seq<CallEvent<T>>)
    ensures
        match after_all(CallState::<T>::Built, events) {
            Some(CallState::Built) => events == Seq::<CallEvent<T>>::empty(),
            Some(CallState::Sent) => events == seq![CallEvent::<T>::Handed],
            Some(CallState::Delivered(value)) => events == seq![
                CallEvent::Handed,
                CallEvent::Responded(value),
            ],
            Some(CallState::Abandoned) => events == seq![
                CallEvent::<T>::Handed,
                CallEvent::<T>::Dropped,
            ],
            None => true,
        },
    decreases events.len(),
{
    if events.len() > 0 {
        let before = events.drop_last();
        lemma_one_answer_per_call(before);
        assert(events =~= before.push(events.last()));
        match after_all(CallState::<T>::Built, events) {
            Some(CallState::Built) => {},
            Some(CallState::Sent) => {
                assert(events =~= seq![CallEvent::<T>::Handed]);
            },
            Some(CallState::Delivered(value)) => {
                assert(events =~= seq![CallEvent::Handed, CallEvent::Responded(value)]);
            },
            Some(CallState::Abandoned) => {
                assert(events =~= seq![CallEvent::<T>::Handed, CallEvent::<T>::Dropped]);
            },
            None => {},
        }
    } else {
        assert(events =~= Seq::<CallEvent<T>>::empty());
    }
}

/// Nothing happens to a call that has come to its end, so a sender is used
/// at most once; and a call that has not come to its end yields nothing yet.
pub proof fn lemma_end_is_final<T>(state: CallState<T>, event: CallEvent<T>)
    ensures
        state.is_final() ==> state.after(event) is None,
        state.is_final() <==> state.received() is Some,
        state.after(event) matches Some(next) ==> (next is Delivered <==> event is Responded),
{
}

} // verus!
