//! The two kinds of channel that join adjacent stages, as the channel crate
//! provides them. Nothing in this file is proved: each item states what the
//! channel crate documents of one of its functions.
use vstd::prelude::*;
use crossbeam_channel::{Receiver, RecvError, SendError, Sender, TryRecvError};
use crate::pipeline::{Datagram, Message};

verus! {

#[verifier::external_type_specification]
#[verifier::external_body]
#[verifier::reject_recursive_types(T)]
pub struct ExSender<T>(Sender<T>);

#[verifier::external_type_specification]
#[verifier::external_body]
#[verifier::reject_recursive_types(T)]
pub struct ExReceiver<T>(Receiver<T>);

#[verifier::external_type_specification]
#[verifier::reject_recursive_types(T)]
pub struct ExSendError<T>(SendError<T>);

#[verifier::external_type_specification]
pub struct ExRecvError(RecvError);

#[verifier::external_type_specification]
pub struct ExTryRecvError(TryRecvError);

/// The number of datagrams that the channel behind `sender` was made to hold
/// at a time; 0 for a rendezvous channel, `None` for one without a limit.
pub uninterp spec fn downstream_capacity(sender: Sender<Datagram>) -> Option<usize>;

/// `crossbeam_channel::bounded`, for the zero-capacity flavour only: the two
/// ends of a new channel made with the capacity asked for. With capacity 0 it
/// holds no message: a send and a receive must meet.
#[verifier::external_body]
pub(crate) fn rendezvous(cap: usize) -> (ends: (Sender<Datagram>, Receiver<Datagram>))
    requires
        cap == 0,
    ensures
        downstream_capacity(ends.0) == Some(cap),
{
    crossbeam_channel::bounded(cap)
}

/// `Sender::capacity`: the capacity that the channel was made with.
#[verifier::external_body]
pub(crate) fn capacity_of(sender: &Sender<Datagram>) -> (cap: Option<usize>)
    ensures
        cap == downstream_capacity(*sender),
{
    sender.capacity()
}

/// The number of acknowledgements that the channel behind `receiver` was
/// made to hold at a time; `None` for one without a limit.
pub uninterp spec fn upstream_capacity(receiver: Receiver<Message>) -> Option<usize>;

/// `crossbeam_channel::unbounded`: the two ends of a new channel that can hold
/// any number of messages, so that a send on it never waits.
#[verifier::external_body]
pub(crate) fn unlimited() -> (ends: (Sender<Message>, Receiver<Message>))
    ensures
        upstream_capacity(ends.1) is None,
{
    crossbeam_channel::unbounded()
}

/// `Receiver::capacity`: the capacity that the channel was made with.
#[verifier::external_body]
pub(crate) fn limit_of(receiver: &Receiver<Message>) -> (cap: Option<usize>)
    ensures
        cap == upstream_capacity(*receiver),
{
    receiver.capacity()
}

/// `Sender::send`: blocks until the message is taken or the channel is
/// disconnected. A failure hands the message back.
pub assume_specification<T>[ Sender::<T>::send ](sender: &Sender<T>, msg: T) -> (sent: Result<
    (),
    SendError<T>,
>)
    ensures
        sent is Err ==> sent->Err_0.0 == msg,
;

/// `Receiver::recv`: blocks until a message arrives or the channel is empty
/// and disconnected.
pub assume_specification<T>[ Receiver::<T>::recv ](receiver: &Receiver<T>) -> (received: Result<
    T,
    RecvError,
>);

/// `Receiver::try_recv`: a message if one is waiting, else whether the channel
/// is merely empty or empty and disconnected.
pub assume_specification<T>[ Receiver::<T>::try_recv ](receiver: &Receiver<T>) -> (received:
    Result<T, TryRecvError>);

} // verus!
