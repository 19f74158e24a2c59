//! A small receiver with its command union, its dispatcher and its two
//! facades written out.

use vstd::prelude::*;
use crate::call::{
    ended_by,
    lemma_round_trip,
    settle,
    settles,
    CallEvent,
    CallFailure,
    CallFailureView,
};
use crate::transport::{Performer, Receiver, Sender, Transport};

verus! {

/// The receiver.
pub struct Gamer;

impl Gamer {
    /// Whether `nice` is 4.
    pub fn good(&mut self, nice: u32) -> (answer: bool)
        ensures
            answer == (nice == 4),
    {
        nice == 4
    }

    /// A method that never comes to a result: it gives `None` for every
    /// payload.
    pub fn good_job_media(&mut self, _wow: Vec<u8>) -> (answer: Option<String>)
        ensures
            answer is None,
    {
        None
    }

    /// Decides how the call behind `command` ends: calls the method that
    /// the command stands for, with the arguments that the command holds,
    /// and gives the event that its outcome asks for, together with the
    /// sender that the command holds.
    pub fn reply<T: Transport<bool> + Transport<String>>(
        &mut self,
        command: GamerCommand<T>,
    ) -> (reply: GamerReply<T>)
        ensures
            reply == reply_of(command),
    {
        match command {
            GamerCommand::Good(arg_0, resp) => GamerReply::Good(
                CallEvent::end(Some(self.good(arg_0))),
                resp,
            ),
            GamerCommand::GoodJobMedia(arg_0, resp) => GamerReply::GoodJobMedia(
                CallEvent::end(self.good_job_media(arg_0)),
                resp,
            ),
        }
    }
}

/// The commands of a [`Gamer`], over the transport `T`.
pub enum GamerCommand<T: Transport<bool> + Transport<String>> {
    /// A call of [`Gamer::good`].
    Good(u32, <T as Transport<bool>>::Sender),
    /// A call of [`Gamer::good_job_media`].
    GoodJobMedia(Vec<u8>, <T as Transport<String>>::Sender),
}

/// How a [`Gamer`] ends the call behind a command: the event, and the
/// sender through which it is to go.
pub enum GamerReply<T: Transport<bool> + Transport<String>> {
    /// The end of a call of [`Gamer::good`].
    Good(CallEvent<bool>, <T as Transport<bool>>::Sender),
    /// The end of a call of [`Gamer::good_job_media`].
    GoodJobMedia(CallEvent<String>, <T as Transport<String>>::Sender),
}

/// How a [`Gamer`] ends the call behind `command`. A call of `good` is
/// answered with whether its argument is 4. A call of `good_job_media` is
/// not answered: its sender is let go. Either way the event goes through
/// the sender of the command itself.
pub open spec fn reply_of<T: Transport<bool> + Transport<String>>(
    command: GamerCommand<T>,
) -> GamerReply<T> {
    match command {
        GamerCommand::Good(nice, resp) => GamerReply::Good(CallEvent::Responded(nice == 4), resp),
        GamerCommand::GoodJobMedia(_, resp) => GamerReply::GoodJobMedia(CallEvent::Dropped, resp),
    }
}

/// A [`Gamer`] has carried `command` out: the event that ends the call has
/// gone through the sender of the command.
pub open spec fn carried_out<T: Transport<bool> + Transport<String>>(
    command: GamerCommand<T>,
) -> bool {
    match reply_of(command) {
        GamerReply::Good(event, resp) => event.went_through(resp),
        GamerReply::GoodJobMedia(event, resp) => event.went_through(resp),
    }
}

/// A call through a facade has run its course and ended in `result`: the
/// transport made `sender` and `receiver` as a pair and promises of them what
/// it promises of a pair, the receiver yielded `received` and promises of it
/// what it promises of what it yields, and `result` is what a call of
/// `method` makes of `received`.
pub open spec fn returned<V: Send, T: Transport<V>>(
    sender: T::Sender,
    receiver: T::Receiver,
    received: Option<V>,
    method: Seq<char>,
    result: Result<V, CallFailure>,
) -> bool {
    &&& T::pair_promise(sender, receiver)
    &&& receiver.receive_promise(received)
    &&& settles(result, method, received)
}

impl<T: Transport<bool> + Transport<String>> Performer<GamerCommand<T>> for Gamer {
    /// Carries `command` out: decides with [`Gamer::reply`] how the call
    /// ends, and lets that event happen to the sender of the command. A
    /// method with a result has it sent; a method without one has the sender
    /// let go, and the caller's receiver yields `None`.
    fn perform(&mut self, command: GamerCommand<T>)
        ensures
            carried_out(command),
    {
        match self.reply(command) {
            GamerReply::Good(event, resp) => event.deliver(resp),
            GamerReply::GoodJobMedia(event, resp) => event.deliver(resp),
        }
    }
}

/// The facade of a [`Gamer`] for adapters that can be reached through
/// shared access.
pub trait GamerFacade<T: Transport<bool> + Transport<String>> {
    /// What this adapter promises of a command once `handle` has taken it.
    /// By default it promises nothing; an adapter that carries every command
    /// out can promise [`carried_out`].
    open spec fn handle_promise(&self, command: GamerCommand<T>) -> bool {
        true
    }

    /// Calls [`Gamer::good`] through `handle`: makes a pair, hands `handle`
    /// the command with `nice` and the sender, waits on the receiver, and
    /// returns what it yields. Where no value comes back the call fails, and
    /// the failure names `good`.
    fn good(&self, nice: u32) -> (result: Result<bool, CallFailure>)
        ensures
            result matches Err(failure) ==> failure@ == (CallFailureView { method: "good"@ }),
            exists|
                sender: <T as Transport<bool>>::Sender,
                receiver: <T as Transport<bool>>::Receiver,
                received: Option<bool>,
            |
                self.handle_promise(GamerCommand::Good(nice, sender)) && #[trigger] returned::<bool, T>(
                    sender,
                    receiver,
                    received,
                    "good"@,
                    result,
                ),
    {
        let (s, r) = <T as Transport<bool>>::pair();
        let ghost sender = s;
        let ghost receiver = r;
        self.handle(GamerCommand::Good(nice, s));
        let received = r.receive();
        let result = settle("good", received);
        assert(returned::<bool, T>(sender, receiver, received, "good"@, result));
        result
    }

    /// Calls [`Gamer::good_job_media`] through `handle`: makes a pair, hands
    /// `handle` the command with the payload and the sender, waits on the
    /// receiver, and returns what it yields. Where no value comes back the
    /// call fails, and the failure names `good_job_media`.
    fn good_job_media(&self, _wow: Vec<u8>) -> (result: Result<String, CallFailure>)
        ensures
            result matches Err(failure) ==> failure@ == (CallFailureView {
                method: "good_job_media"@,
            }),
            exists|
                sender: <T as Transport<String>>::Sender,
                receiver: <T as Transport<String>>::Receiver,
                received: Option<String>,
            |
                self.handle_promise(GamerCommand::GoodJobMedia(_wow, sender)) && #[trigger] returned::<
                    String,
                    T,
                >(sender, receiver, received, "good_job_media"@, result),
    {
        let (s, r) = <T as Transport<String>>::pair();
        let ghost sender = s;
        let ghost receiver = r;
        self.handle(GamerCommand::GoodJobMedia(_wow, s));
        let received = r.receive();
        let result = settle("good_job_media", received);
        assert(returned::<String, T>(sender, receiver, received, "good_job_media"@, result));
        result
    }

    /// Brings `command` to where a [`Gamer`] can carry it out.
    fn handle(&self, command: GamerCommand<T>)
        ensures
            self.handle_promise(command),
    ;
}

/// The facade of a [`Gamer`] for adapters that need exclusive access.
pub trait GamerFacadeMut<T: Transport<bool> + Transport<String>> {
    /// What this adapter, as `handle` leaves it, promises of a command
    /// once `handle` has taken it. By default it promises nothing; an
    /// adapter that carries every command out can promise [`carried_out`].
    open spec fn handle_promise(&self, command: GamerCommand<T>) -> bool {
        true
    }

    /// Calls [`Gamer::good`] through `handle`: makes a pair, hands `handle`
    /// the command with `nice` and the sender, waits on the receiver, and
    /// returns what it yields. Where no value comes back the call fails, and
    /// the failure names `good`.
    fn good(&mut self, nice: u32) -> (result: Result<bool, CallFailure>)
        ensures
            result matches Err(failure) ==> failure@ == (CallFailureView { method: "good"@ }),
            exists|
                sender: <T as Transport<bool>>::Sender,
                receiver: <T as Transport<bool>>::Receiver,
                received: Option<bool>,
            |
                final(self).handle_promise(GamerCommand::Good(nice, sender)) && #[trigger] returned::<bool, T>(
                    sender,
                    receiver,
                    received,
                    "good"@,
                    result,
                ),
    {
        let (s, r) = <T as Transport<bool>>::pair();
        let ghost sender = s;
        let ghost receiver = r;
        self.handle(GamerCommand::Good(nice, s));
        let received = r.receive();
        let result = settle("good", received);
        assert(returned::<bool, T>(sender, receiver, received, "good"@, result));
        result
    }

    /// Calls [`Gamer::good_job_media`] through `handle`: makes a pair, hands
    /// `handle` the command with the payload and the sender, waits on the
    /// receiver, and returns what it yields. Where no value comes back the
    /// call fails, and the failure names `good_job_media`.
    fn good_job_media(&mut self, _wow: Vec<u8>) -> (result: Result<String, CallFailure>)
        ensures
            result matches Err(failure) ==> failure@ == (CallFailureView {
                method: "good_job_media"@,
            }),
            exists|
                sender: <T as Transport<String>>::Sender,
                receiver: <T as Transport<String>>::Receiver,
                received: Option<String>,
            |
                final(self).handle_promise(GamerCommand::GoodJobMedia(_wow, sender)) && #[trigger] returned::<
                    String,
                    T,
                >(sender, receiver, received, "good_job_media"@, result),
    {
        let (s, r) = <T as Transport<String>>::pair();
        let ghost sender = s;
        let ghost receiver = r;
        self.handle(GamerCommand::GoodJobMedia(_wow, s));
        let received = r.receive();
        let result = settle("good_job_media", received);
        assert(returned::<String, T>(sender, receiver, received, "good_job_media"@, result));
        result
    }

    /// Brings `command` to where a [`Gamer`] can carry it out.
    fn handle(&mut self, command: GamerCommand<T>)
        ensures
            final(self).handle_promise(command),
    ;
}

impl<T: Transport<bool> + Transport<String>, F: GamerFacade<T> + Send + Sync> GamerFacadeMut<
    T,
> for F {
    /// What the adapter promises of a command as a shared-access facade, it
    /// promises as an exclusive-access facade too.
    open spec fn handle_promise(&self, command: GamerCommand<T>) -> bool {
        <F as GamerFacade<T>>::handle_promise(self, command)
    }

    /// Passes `command` on to `handle` of the shared-access facade. The
    /// adapter is reached through shared access only, so it is left as it
    /// was.
    fn handle(&mut self, command: GamerCommand<T>)
        ensures
            *final(self) == *old(self),
    {
        GamerFacade::handle(self, command)
    }
}

/// Round trip for `good`. A [`Gamer`] answers a call of `good` through the
/// sender of the command, and a call that is ended so returns what
/// [`Gamer::good`] returns for the same argument.
pub proof fn lemma_good_round_trip<T: Transport<bool> + Transport<String>>(
    nice: u32,
    resp: <T as Transport<bool>>::Sender,
)
    ensures
        reply_of(GamerCommand::<T>::Good(nice, resp)) == GamerReply::<T>::Good(
            CallEvent::Responded(nice == 4),
            resp,
        ),
        ended_by("good"@, CallEvent::Responded(nice == 4)) == Some(
            Ok::<bool, CallFailureView>(nice == 4),
        ),
{
    lemma_round_trip("good"@, Some(nice == 4));
}

/// A call of `good_job_media` fails. A [`Gamer`] lets the sender of the
/// command go, and a call that is ended so returns the failure that names
/// `good_job_media`, whatever the payload.
pub proof fn lemma_good_job_media_fails<T: Transport<bool> + Transport<String>>(
    wow: Vec<u8>,
    resp: <T as Transport<String>>::Sender,
)
    ensures
        reply_of(GamerCommand::<T>::GoodJobMedia(wow, resp)) == GamerReply::<T>::GoodJobMedia(
            CallEvent::Dropped,
            resp,
        ),
        ended_by("good_job_media"@, CallEvent::<String>::Dropped) == Some(
            Err::<String, CallFailureView>(CallFailureView { method: "good_job_media"@ }),
        ),
{
    lemma_round_trip::<String>("good_job_media"@, None);
}

/// Answers are not swapped. Of two calls of `good`, each is answered through
/// the sender of its own command and with the answer to its own argument,
/// whichever command is carried out first: the reply to a command depends on
/// that command alone.
pub proof fn lemma_answers_are_not_swapped<T: Transport<bool> + Transport<String>>(
    first: u32,
    first_resp: <T as Transport<bool>>::Sender,
    second: u32,
    second_resp: <T as Transport<bool>>::Sender,
)
    ensures
        reply_of(GamerCommand::<T>::Good(first, first_resp)) == GamerReply::<T>::Good(
            CallEvent::Responded(first == 4),
            first_resp,
        ),
        reply_of(GamerCommand::<T>::Good(second, second_resp)) == GamerReply::<T>::Good(
            CallEvent::Responded(second == 4),
            second_resp,
        ),
{
}

} // verus!
