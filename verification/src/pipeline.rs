use vstd::prelude::*;
use crossbeam_channel::{Receiver, Sender, TryRecvError};
use crate::element_traits::{
    is_link_valid, link_verdict, CommonFormat, Element, ElementType, Sink,
};
use crate::elements::av::audiodecoder::decode_verdict;
use crate::elements::AnyElement;
use crate::libav::decoding::Frame;
use crate::libav::demuxing::{copy_bytes, Packet, PacketView};
use crate::pipeline::error::Error;

pub mod conduit;
pub mod error;

verus! {

/// What a payload is to the mathematics.
pub enum DataView {
    Text(Seq<char>),
    Bytes(Seq<u8>),
    AVPacket(PacketView),
    Nothing,
}

/// The payload that one stage hands to the next.
#[derive(PartialEq, Debug, Clone)]
pub enum Data {
    Text(String),
    Bytes(Vec<u8>),
    AVPacket(Packet),
    Nothing,
}

impl View for Data {
    type V = DataView;

    open spec fn view(&self) -> DataView {
        match self {
            Data::Text(text) => DataView::Text(text@),
            Data::Bytes(bytes) => DataView::Bytes(bytes@),
            Data::AVPacket(packet) => DataView::AVPacket(packet@),
            Data::Nothing => DataView::Nothing,
        }
    }
}

impl Data {
    /// A second payload with the same content.
    pub fn duplicate(&self) -> (copy: Data)
        ensures
            copy@ == self@,
    {
        match self {
            Data::Text(text) => Data::Text(text.clone()),
            Data::Bytes(bytes) => Data::Bytes(copy_bytes(bytes)),
            Data::AVPacket(packet) => Data::AVPacket(packet.duplicate()),
            Data::Nothing => Data::Nothing,
        }
    }
}

/// The control messages. `Iter` and `Quit` travel downstream, `IterFin` and
/// `Finished` travel upstream.
#[derive(PartialEq, Eq, Debug, Clone, Copy, Structural)]
pub enum Message {
    /// Do one iteration.
    Iter,
    /// The iteration that was asked for is complete.
    IterFin,
    /// Stop and release what you hold.
    Quit,
    /// The worker has left its loop and will do no more iterations.
    Finished,
}

/// What a datagram is to the mathematics.
pub enum DatagramView {
    Message(Message),
    Data(DataView),
}

/// The unit that travels on a downstream conduit.
#[derive(PartialEq, Debug, Clone)]
pub enum Datagram {
    Message(Message),
    Data(Data),
}

impl View for Datagram {
    type V = DatagramView;

    open spec fn view(&self) -> DatagramView {
        match self {
            Datagram::Message(msg) => DatagramView::Message(*msg),
            Datagram::Data(data) => DatagramView::Data(data@),
        }
    }
}

impl Datagram {
    /// A second datagram with the same content.
    pub fn duplicate(&self) -> (copy: Datagram)
        ensures
            copy@ == self@,
    {
        match self {
            Datagram::Message(msg) => Datagram::Message(*msg),
            Datagram::Data(data) => Datagram::Data(data.duplicate()),
        }
    }
}

/// The views of a run of datagrams, in order.
pub open spec fn datagram_views(datagrams: Seq<Datagram>) -> Seq<DatagramView> {
    datagrams.map_values(|d: Datagram| d@)
}

/// The send-only handle through which a stage acknowledges upstream. It is a
/// capability into a channel, never a reference to the stage above.
pub struct Parent {
    msg_sender: Option<Sender<Message>>,
    acked: Ghost<Seq<Message>>,
}

impl Parent {
    /// Whether the handle leads anywhere.
    pub closed spec fn connected(&self) -> bool {
        self.msg_sender is Some
    }

    /// The acknowledgements that went out through this handle, oldest first.
    pub closed spec fn acked(&self) -> Seq<Message> {
        self.acked@
    }

    pub fn new(msg_sender: Sender<Message>) -> (parent: Parent)
        ensures
            parent.connected(),
            parent.acked() == Seq::<Message>::empty(),
    {
        Parent { msg_sender: Some(msg_sender), acked: Ghost(Seq::empty()) }
    }

    /// A handle that leads nowhere: what a stage holds before it is started.
    pub fn detached() -> (parent: Parent)
        ensures
            !parent.connected(),
            parent.acked() == Seq::<Message>::empty(),
    {
        Parent { msg_sender: None, acked: Ghost(Seq::empty()) }
    }

    /// What an acknowledgement does to the handle, for each way the send can
    /// end.
    pub open spec fn acknowledged(
        pre: Parent,
        msg: Message,
        post: Parent,
        sent: Result<(), Error>,
    ) -> bool {
        &&& post.connected() == pre.connected()
        &&& !pre.connected() ==> sent == Err::<(), Error>(Error::NoParentMessageSender)
        &&& pre.connected() ==> sent is Ok || sent == Err::<(), Error>(Error::SendFailed)
        &&& sent is Ok ==> post.acked() == pre.acked().push(msg)
        &&& sent is Err ==> post == pre
    }

    fn send_msg(&mut self, msg: Message) -> (sent: Result<(), Error>)
        ensures
            Parent::acknowledged(*old(self), msg, *final(self), sent),
    {
        match &self.msg_sender {
            Some(msg_sender) => match msg_sender.send(msg) {
                Ok(()) => {
                    self.acked = Ghost(self.acked@.push(msg));
                    Ok(())
                },
                Err(_) => Err(Error::SendFailed),
            },
            None => Err(Error::NoParentMessageSender),
        }
    }

    /// Tells the stage above that this worker has left its loop.
    pub fn send_finished(&mut self) -> (sent: Result<(), Error>)
        ensures
            Parent::acknowledged(*old(self), Message::Finished, *final(self), sent),
    {
        self.send_msg(Message::Finished)
    }

    /// Tells the stage above that the iteration it asked for is complete.
    pub fn send_iter_fin(&mut self) -> (sent: Result<(), Error>)
        ensures
            Parent::acknowledged(*old(self), Message::IterFin, *final(self), sent),
    {
        self.send_msg(Message::IterFin)
    }

    /// Gives the handle up. The stage above then finds the upstream conduit
    /// disconnected, which is how it learns that this worker is gone.
    pub fn hang_up(&mut self)
        ensures
            !final(self).connected(),
            final(self).acked() == old(self).acked(),
    {
        self.msg_sender = None;
    }
}

} // verus!

verus! {

/// What the host does after a worker has handled one datagram.
#[derive(PartialEq, Debug, Clone)]
pub enum Flow {
    /// Nothing: let the worker take its next datagram.
    Continue,
    /// Write this text to the console, then go on.
    Print(String),
    /// Have the native service decode this packet and hand the frames to
    /// [`Worker::decoded`], then do what that answers.
    Decode(Packet),
    /// Leave the loop and call [`Worker::finish`].
    Stop,
}

/// The five states of a runner.
#[derive(PartialEq, Eq, Clone, Copy, Debug, Structural)]
pub enum RunnerState {
    Empty,
    Adopted,
    Running,
    Draining,
    Closed,
}

/// What a runner holds in each of its states.
pub enum Runner {
    /// Nothing.
    Empty,
    /// A stage that waits to be started.
    Adopted(Box<AnyElement>),
    /// The sending end of the downstream conduit and the receiving end of the
    /// upstream conduit; the stage has moved into its worker.
    Running(Sender<Datagram>, Receiver<Message>),
    /// The downstream conduit is closed; the worker may still be leaving.
    Draining(Receiver<Message>),
    /// The worker is gone.
    Closed,
}

/// The owner of one linked consumer: its stage until that is started, then
/// the two conduit ends that lead to its worker.
pub struct SinkPipe {
    runner: Runner,
    sent: Ghost<Seq<DatagramView>>,
}

/// What the two receives of a join add up to: the worker is gone when the
/// upstream conduit is found disconnected (`None`), at once or after one
/// `Finished`. Anything else is no part of a shutdown.
pub open spec fn join_verdict(first: Option<Message>, second: Option<Message>) -> Result<
    (),
    Error,
> {
    match first {
        None => Ok(()),
        Some(Message::Finished) => match second {
            None => Ok(()),
            Some(_) => Err(Error::ReceivedInvalidDatagramFromSink),
        },
        Some(_) => Err(Error::ReceivedInvalidDatagramFromSink),
    }
}

/// Judges what a join has received. `second` counts only where `first` is
/// `Finished`.
pub fn judge_join(first: Option<Message>, second: Option<Message>) -> (verdict: Result<(), Error>)
    ensures
        verdict == join_verdict(first, second),
{
    match first {
        None => Ok(()),
        Some(Message::Finished) => match second {
            None => Ok(()),
            Some(_) => Err(Error::ReceivedInvalidDatagramFromSink),
        },
        Some(_) => Err(Error::ReceivedInvalidDatagramFromSink),
    }
}

/// What a look at the upstream conduit comes to: a message that waited is
/// handed on, an empty conduit is nothing pending, and a conduit that is
/// empty and disconnected is a failure, for the worker is gone.
pub open spec fn pending_verdict(polled: Result<Message, TryRecvError>) -> Result<
    Option<Message>,
    Error,
> {
    match polled {
        Ok(msg) => Ok(Some(msg)),
        Err(TryRecvError::Empty) => Ok(None),
        Err(TryRecvError::Disconnected) => Err(Error::ReceiveFailed),
    }
}

/// Judges what a look at the upstream conduit found.
pub fn judge_pending(polled: Result<Message, TryRecvError>) -> (received: Result<
    Option<Message>,
    Error,
>)
    ensures
        received == pending_verdict(polled),
{
    match polled {
        Ok(msg) => Ok(Some(msg)),
        Err(TryRecvError::Empty) => Ok(None),
        Err(TryRecvError::Disconnected) => Err(Error::ReceiveFailed),
    }
}

impl SinkPipe {
    /// What the runner holds.
    pub closed spec fn runner(&self) -> Runner {
        self.runner
    }

    /// The datagrams that the worker has taken from this runner, oldest first.
    pub closed spec fn sent(&self) -> Seq<DatagramView> {
        self.sent@
    }

    pub open spec fn state(&self) -> RunnerState {
        match self.runner() {
            Runner::Empty => RunnerState::Empty,
            Runner::Adopted(_) => RunnerState::Adopted,
            Runner::Running(_, _) => RunnerState::Running,
            Runner::Draining(_) => RunnerState::Draining,
            Runner::Closed => RunnerState::Closed,
        }
    }

    /// Whether a worker was started and has not been awaited yet.
    pub open spec fn has_worker(&self) -> bool {
        self.state() == RunnerState::Running || self.state() == RunnerState::Draining
    }

    /// The capacity of the downstream conduit of a running runner.
    pub open spec fn capacity(&self) -> Option<usize> {
        match self.runner() {
            Runner::Running(sender, _) => conduit::downstream_capacity(sender),
            _ => None,
        }
    }

    /// Whether the runner has an upstream conduit and that conduit has no
    /// limit, so that the worker's acknowledgements never wait.
    pub open spec fn acks_unlimited(&self) -> bool {
        match self.runner() {
            Runner::Running(_, receiver) => conduit::upstream_capacity(receiver) is None,
            Runner::Draining(receiver) => conduit::upstream_capacity(receiver) is None,
            _ => false,
        }
    }

    /// The runner took `datagram` into the conduit and is otherwise as before.
    pub open spec fn took(pre: SinkPipe, datagram: DatagramView, post: SinkPipe) -> bool {
        post.runner() == pre.runner() && post.sent() == pre.sent().push(datagram)
    }

    /// What a send does to the runner, for each way it can end.
    pub open spec fn delivered(
        pre: SinkPipe,
        datagram: DatagramView,
        post: SinkPipe,
        sent: Result<(), Error>,
    ) -> bool {
        &&& pre.state() != RunnerState::Running ==> sent == Err::<(), Error>(Error::NotReady)
        &&& pre.state() == RunnerState::Running ==> sent is Ok || sent == Err::<(), Error>(
            Error::SendFailed,
        )
        &&& sent is Ok ==> SinkPipe::took(pre, datagram, post)
        &&& sent is Err ==> post == pre
    }

    /// An empty runner.
    pub fn new() -> (pipe: SinkPipe)
        ensures
            pipe.runner() == Runner::Empty,
            pipe.sent() == Seq::<DatagramView>::empty(),
    {
        SinkPipe { runner: Runner::Empty, sent: Ghost(Seq::empty()) }
    }

    pub fn current_state(&self) -> (state: RunnerState)
        ensures
            state == self.state(),
    {
        match &self.runner {
            Runner::Empty => RunnerState::Empty,
            Runner::Adopted(_) => RunnerState::Adopted,
            Runner::Running(_, _) => RunnerState::Running,
            Runner::Draining(_) => RunnerState::Draining,
            Runner::Closed => RunnerState::Closed,
        }
    }

    /// Whether a worker was started and has not been awaited yet.
    pub fn is_operational(&self) -> (operational: bool)
        ensures
            operational == self.has_worker(),
    {
        match &self.runner {
            Runner::Running(_, _) => true,
            Runner::Draining(_) => true,
            _ => false,
        }
    }

    /// The capacity of the downstream conduit, while there is one.
    pub fn conduit_capacity(&self) -> (cap: Option<usize>)
        ensures
            cap == self.capacity(),
    {
        match &self.runner {
            Runner::Running(sender, _) => conduit::capacity_of(sender),
            _ => None,
        }
    }

    /// Whether the runner has an upstream conduit without a limit.
    pub fn has_unlimited_acks(&self) -> (unlimited: bool)
        ensures
            unlimited == self.acks_unlimited(),
    {
        match &self.runner {
            Runner::Running(_, receiver) => conduit::limit_of(receiver).is_none(),
            Runner::Draining(receiver) => conduit::limit_of(receiver).is_none(),
            _ => false,
        }
    }

    /// The adopted stage, while the runner holds one.
    pub fn peek(&self) -> (held: Option<&AnyElement>)
        ensures
            match self.runner() {
                Runner::Adopted(stage) => held == Some(&*stage),
                _ => held is None,
            },
    {
        match &self.runner {
            Runner::Adopted(stage) => Some(&**stage),
            _ => None,
        }
    }

    /// Adopts a stage into an empty runner. A runner that holds a stage, or
    /// has held one that was started, refuses and stays as it is.
    pub fn set_element<E: Element>(&mut self, element: E) -> (adopted: Result<(), Error>)
        ensures
            match old(self).state() {
                RunnerState::Empty => adopted is Ok && final(self).runner() == Runner::Adopted(
                    Box::new(element.erased()),
                ) && final(self).sent() == old(self).sent(),
                RunnerState::Adopted => adopted == Err::<(), Error>(Error::AlreadyAdopted)
                    && *final(self) == *old(self),
                _ => adopted == Err::<(), Error>(Error::AlreadyRunning) && *final(self) == *old(self),
            },
    {
        match &self.runner {
            Runner::Empty => {},
            Runner::Adopted(_) => {
                return Err(Error::AlreadyAdopted);
            },
            _ => {
                return Err(Error::AlreadyRunning);
            },
        }
        self.runner = Runner::Adopted(Box::new(element.into_any()));
        Ok(())
    }

    /// What linking does to the runner of an output slot, given the verdict
    /// on the consumer: a consumer that is turned away leaves no trace, one
    /// that passes is adopted as `set_element` adopts.
    pub open spec fn linked(
        pre: SinkPipe,
        verdict: Result<(), Error>,
        consumer: AnyElement,
        post: SinkPipe,
        outcome: Result<(), Error>,
    ) -> bool {
        match verdict {
            Err(e) => outcome == Err::<(), Error>(e) && post == pre,
            Ok(()) => match pre.state() {
                RunnerState::Empty => outcome is Ok && post.runner() == Runner::Adopted(
                    Box::new(consumer),
                ) && post.sent() == pre.sent(),
                RunnerState::Adopted => outcome == Err::<(), Error>(Error::AlreadyAdopted) && post
                    == pre,
                _ => outcome == Err::<(), Error>(Error::AlreadyRunning) && post == pre,
            },
        }
    }

    /// Links a consumer to the output slot that this runner serves, which
    /// emits `slot_format` and feeds consumers of kind `slot_role`. The
    /// consumer is checked first and adopted only if it fits.
    pub fn link<E: Element>(
        &mut self,
        slot_format: CommonFormat,
        slot_role: ElementType,
        consumer: E,
    ) -> (outcome: Result<(), Error>)
        ensures
            SinkPipe::linked(
                *old(self),
                link_verdict(
                    slot_format,
                    slot_role,
                    consumer.sink_type(),
                    consumer.architecture().sink,
                ),
                consumer.erased(),
                *final(self),
                outcome,
            ),
    {
        match is_link_valid(
            slot_format,
            slot_role,
            consumer.get_sink_type(),
            consumer.get_architecture().sink,
        ) {
            Ok(()) => self.set_element(consumer),
            Err(e) => Err(e),
        }
    }

    /// Takes the adopted stage out again and leaves the runner empty.
    pub fn take_element(&mut self) -> (taken: Result<AnyElement, Error>)
        ensures
            match old(self).runner() {
                Runner::Adopted(stage) => taken == Ok::<AnyElement, Error>(*stage) && final(self).runner() == Runner::Empty && final(self).sent() == old(self).sent(),
                _ => taken == Err::<AnyElement, Error>(Error::NoStageAdopted) && *final(self)
                    == *old(self),
            },
    {
        match &self.runner {
            Runner::Adopted(_) => {},
            _ => {
                return Err(Error::NoStageAdopted);
            },
        }
        let mut held = Runner::Empty;
        core::mem::swap(&mut self.runner, &mut held);
        match held {
            Runner::Adopted(stage) => Ok(*stage),
            _ => Err(Error::NoStageAdopted),
        }
    }

    /// What starting does to the runner, and what it hands out.
    pub open spec fn spawned(pre: SinkPipe, post: SinkPipe, started: Result<Worker, Error>) -> bool {
        match pre.runner() {
            Runner::Adopted(stage) => {
                &&& started is Ok
                &&& post.state() == RunnerState::Running
                &&& post.capacity() == Some(0usize)
                &&& post.acks_unlimited()
                &&& post.sent() == Seq::<DatagramView>::empty()
                &&& started->Ok_0.stage() == (*stage).with_parent(started->Ok_0.stage().parent())
                &&& started->Ok_0.stage().sink_type() == stage.sink_type()
                &&& started->Ok_0.stage().architecture() == stage.architecture()
                &&& started->Ok_0.stage().parent().connected()
                &&& started->Ok_0.stage().parent().acked() == Seq::<Message>::empty()
                &&& started->Ok_0.inbound() is Some
                &&& !started->Ok_0.stopped()
                &&& !started->Ok_0.retired()
            },
            Runner::Empty => started == Err::<Worker, Error>(Error::NoStageAdopted) && post == pre,
            _ => started == Err::<Worker, Error>(Error::AlreadyRunning) && post == pre,
        }
    }

    /// Starts the adopted stage: makes a rendezvous conduit downstream and a
    /// conduit without a limit upstream, gives the stage the sending end of the
    /// second as its handle to this side, keeps the sending end of the first
    /// and the receiving end of the second, and hands the stage out with the
    /// receiving end of the first, as the worker that the host is to run.
    pub fn spawn(&mut self) -> (started: Result<Worker, Error>)
        ensures
            SinkPipe::spawned(*old(self), *final(self), started),
    {
        match &self.runner {
            Runner::Adopted(_) => {},
            Runner::Empty => {
                return Err(Error::NoStageAdopted);
            },
            _ => {
                return Err(Error::AlreadyRunning);
            },
        }
        let mut held = Runner::Empty;
        core::mem::swap(&mut self.runner, &mut held);
        match held {
            Runner::Adopted(boxed) => {
                let mut stage: AnyElement = *boxed;
                let (datagram_sender, datagram_receiver) = conduit::rendezvous(0);
                let (msg_sender, msg_receiver) = conduit::unlimited();
                stage.set_parent(Parent::new(msg_sender));
                self.runner = Runner::Running(datagram_sender, msg_receiver);
                self.sent = Ghost(Seq::empty());
                Ok(
                    Worker {
                        stage,
                        inbound: Some(datagram_receiver),
                        stopped: false,
                        retired: false,
                    },
                )
            },
            _ => Err(Error::NoStageAdopted),
        }
    }

    /// Hands one datagram to the worker. Returns once the worker has taken it,
    /// or once it is known that it never will.
    pub fn send_datagram(&mut self, datagram: Datagram) -> (sent: Result<(), Error>)
        ensures
            SinkPipe::delivered(*old(self), datagram@, *final(self), sent),
    {
        let ghost view = datagram@;
        match &self.runner {
            Runner::Running(sender, _) => match sender.send(datagram) {
                Ok(()) => {
                    self.sent = Ghost(self.sent@.push(view));
                    Ok(())
                },
                Err(_) => Err(Error::SendFailed),
            },
            _ => Err(Error::NotReady),
        }
    }

    /// Tells the worker to stop.
    pub fn send_quit(&mut self) -> (sent: Result<(), Error>)
        ensures
            SinkPipe::delivered(
                *old(self),
                DatagramView::Message(Message::Quit),
                *final(self),
                sent,
            ),
    {
        self.send_datagram(Datagram::Message(Message::Quit))
    }

    /// Waits for the next acknowledgement of the worker.
    pub fn recv_msg(&self) -> (received: Result<Message, Error>)
        ensures
            !self.has_worker() ==> received == Err::<Message, Error>(Error::NotReady),
            self.has_worker() ==> received is Ok || received == Err::<Message, Error>(
                Error::ReceiveFailed,
            ),
    {
        match &self.runner {
            Runner::Running(_, receiver) => match receiver.recv() {
                Ok(msg) => Ok(msg),
                Err(_) => Err(Error::ReceiveFailed),
            },
            Runner::Draining(receiver) => match receiver.recv() {
                Ok(msg) => Ok(msg),
                Err(_) => Err(Error::ReceiveFailed),
            },
            _ => Err(Error::NotReady),
        }
    }

    /// Takes an acknowledgement if one is waiting; `None` where nothing is
    /// pending. Never waits.
    pub fn try_recv_msg(&self) -> (received: Result<Option<Message>, Error>)
        ensures
            !self.has_worker() ==> received == Err::<Option<Message>, Error>(Error::NotReady),
            self.has_worker() ==> exists|polled: Result<Message, TryRecvError>|
                received == #[trigger] pending_verdict(polled),
            self.has_worker() ==> received is Ok || received == Err::<Option<Message>, Error>(
                Error::ReceiveFailed,
            ),
    {
        match &self.runner {
            Runner::Running(_, receiver) => {
                let polled = receiver.try_recv();
                assert(pending_verdict(polled) == pending_verdict(polled));
                judge_pending(polled)
            },
            Runner::Draining(receiver) => {
                let polled = receiver.try_recv();
                assert(pending_verdict(polled) == pending_verdict(polled));
                judge_pending(polled)
            },
            _ => Err(Error::NotReady),
        }
    }

    /// Closes the downstream conduit, so that the worker's next receive finds
    /// it closed. Does nothing to a runner that is not running.
    pub fn drop_data_sender(&mut self)
        ensures
            final(self).sent() == old(self).sent(),
            match old(self).runner() {
                Runner::Running(_, receiver) => final(self).runner() == Runner::Draining(receiver),
                _ => *final(self) == *old(self),
            },
    {
        match &self.runner {
            Runner::Running(_, _) => {},
            _ => {
                return ;
            },
        }
        let mut held = Runner::Empty;
        core::mem::swap(&mut self.runner, &mut held);
        match held {
            Runner::Running(_, receiver) => {
                self.runner = Runner::Draining(receiver);
            },
            _ => {},
        }
    }

    /// Waits until the worker is gone: until the upstream conduit is found
    /// disconnected, which may come after one `Finished`. The runner is
    /// closed afterwards whatever was received.
    pub fn join_thread(&mut self) -> (joined: Result<(), Error>)
        ensures
            final(self).sent() == old(self).sent(),
            !old(self).has_worker() ==> joined == Err::<(), Error>(Error::NotReady) && *final(self)
                == *old(self),
            old(self).has_worker() ==> final(self).runner() == Runner::Closed && (joined is Ok
                || joined == Err::<(), Error>(Error::ReceivedInvalidDatagramFromSink)),
    {
        if !self.is_operational() {
            return Err(Error::NotReady);
        }
        let first = match self.recv_msg() {
            Ok(msg) => Some(msg),
            Err(_) => None,
        };
        let second = match first {
            Some(Message::Finished) => match self.recv_msg() {
                Ok(msg) => Some(msg),
                Err(_) => None,
            },
            _ => None,
        };
        self.runner = Runner::Closed;
        judge_join(first, second)
    }

    /// Closes the downstream conduit and waits until the worker is gone. A
    /// runner without a worker is left as it is.
    pub fn close(&mut self) -> (closed: Result<(), Error>)
        ensures
            final(self).sent() == old(self).sent(),
            !old(self).has_worker() ==> closed is Ok && *final(self) == *old(self),
            old(self).has_worker() ==> final(self).runner() == Runner::Closed && (closed is Ok
                || closed == Err::<(), Error>(Error::ReceivedInvalidDatagramFromSink)),
    {
        if !self.is_operational() {
            return Ok(());
        }
        self.drop_data_sender();
        self.join_thread()
    }

    /// What stopping a consumer does to its runner, and what it reports. A
    /// runner without a worker is left as it is. One with a worker ends
    /// closed; where it was still running, `Quit` went to the worker or found
    /// it gone, and nothing else was sent. The report is that of the join.
    pub open spec fn terminated(pre: SinkPipe, post: SinkPipe, report: Result<(), Error>) -> bool {
        &&& !pre.has_worker() ==> report is Ok && post == pre
        &&& pre.has_worker() ==> post.runner() == Runner::Closed && (report is Ok || report
            == Err::<(), Error>(Error::ReceivedInvalidDatagramFromSink))
        &&& pre.state() == RunnerState::Running ==> post.sent() == pre.sent() || post.sent()
            == pre.sent().push(DatagramView::Message(Message::Quit))
        &&& pre.state() != RunnerState::Running ==> post.sent() == pre.sent()
    }

    /// Tells the worker to stop, closes the downstream conduit and waits until
    /// the worker is gone. That the worker no longer listens is no failure
    /// here. A runner without a worker is left as it is.
    pub fn terminate(&mut self) -> (closed: Result<(), Error>)
        ensures
            SinkPipe::terminated(*old(self), *final(self), closed),
    {
        if !self.is_operational() {
            return Ok(());
        }
        let _ = self.send_quit();
        self.close()
    }
}

} // verus!

verus! {

/// A consumer that does not fit an output slot is turned away with one of
/// the two linking failures and leaves no trace in the slot's runner; a slot
/// that held nothing before holds nothing after, so it cannot be started.
pub proof fn lemma_rejected_link_is_not_runnable(
    pre: SinkPipe,
    slot_format: CommonFormat,
    slot_role: ElementType,
    consumer: AnyElement,
    post: SinkPipe,
    outcome: Result<(), Error>,
    after: SinkPipe,
    started: Result<Worker, Error>,
)
    requires
        consumer.architecture().sink != Sink::One(slot_format) || consumer.sink_type()
            != slot_role,
        SinkPipe::linked(
            pre,
            link_verdict(
                slot_format,
                slot_role,
                consumer.sink_type(),
                consumer.architecture().sink,
            ),
            consumer,
            post,
            outcome,
        ),
        SinkPipe::spawned(post, after, started),
    ensures
        outcome == Err::<(), Error>(Error::IncompatibleFormat) || outcome == Err::<(), Error>(
            Error::IncompatibleRole,
        ),
        post == pre,
        pre.state() == RunnerState::Empty ==> started == Err::<Worker, Error>(
            Error::NoStageAdopted,
        ) && after == pre,
{
}

impl Default for SinkPipe {
    fn default() -> (pipe: SinkPipe)
        ensures
            pipe.runner() == Runner::Empty,
            pipe.sent() == Seq::<DatagramView>::empty(),
    {
        SinkPipe::new()
    }
}

impl Default for Parent {
    fn default() -> (parent: Parent)
        ensures
            !parent.connected(),
            parent.acked() == Seq::<Message>::empty(),
    {
        Parent::detached()
    }
}

/// What a producer makes of one look at its consumer's acknowledgements,
/// after an iteration: a consumer that reports `Finished` takes no more, so
/// the producer stops; a failed look is the producer's failure too.
pub open spec fn poll_verdict(polled: Result<Option<Message>, Error>) -> Result<Flow, Error> {
    match polled {
        Ok(Some(Message::Finished)) => Ok(Flow::Stop),
        Ok(_) => Ok(Flow::Continue),
        Err(e) => Err(e),
    }
}

pub fn judge_poll(polled: Result<Option<Message>, Error>) -> (answer: Result<Flow, Error>)
    ensures
        answer == poll_verdict(polled),
{
    match polled {
        Ok(Some(Message::Finished)) => Ok(Flow::Stop),
        Ok(_) => Ok(Flow::Continue),
        Err(e) => Err(e),
    }
}

/// The end of an iteration whose item was delivered, or needed no delivery:
/// either the acknowledgement fails, as [`ack_failure`] says, and the handle
/// stays as it was, or `IterFin` goes upstream and the consumer's report decides.
pub open spec fn acknowledged_iteration(
    sink: SinkPipe,
    pre_parent: Parent,
    post_parent: Parent,
    answer: Result<Flow, Error>,
) -> bool {
    ||| post_parent == pre_parent && answer == Err::<Flow, Error>(ack_failure(pre_parent))
    ||| {
        &&& pre_parent.connected()
        &&& post_parent.connected()
        &&& post_parent.acked() == pre_parent.acked().push(Message::IterFin)
        &&& sink.has_worker() ==> answer == Ok::<Flow, Error>(Flow::Continue) || answer == Ok::<
            Flow,
            Error,
        >(Flow::Stop) || answer == Err::<Flow, Error>(Error::ReceiveFailed)
        &&& !sink.has_worker() ==> answer == Err::<Flow, Error>(Error::NotReady)
    }
}

/// Ends an iteration: acknowledges it upstream, then looks once at what the
/// consumer behind `sink` reports.
pub fn acknowledge(sink: &SinkPipe, parent: &mut Parent) -> (answer: Result<Flow, Error>)
    ensures
        acknowledged_iteration(*sink, *old(parent), *final(parent), answer),
{
    match parent.send_iter_fin() {
        Ok(()) => {},
        Err(e) => {
            return Err(e);
        },
    }
    judge_poll(sink.try_recv_msg())
}

/// One iteration of a producer that had `item` for its consumer. Either the
/// consumer did not take the item: then nothing changes, nothing is
/// acknowledged and the producer stops. Or it took it, and the iteration ends
/// as [`acknowledged_iteration`] says.
///
/// Only a running runner can take the item. Whether a running one does is
/// for the worker behind it to decide: it may be gone, and then the send
/// fails at once.
pub open spec fn iterated(
    pre_sink: SinkPipe,
    pre_parent: Parent,
    item: DatagramView,
    post_sink: SinkPipe,
    post_parent: Parent,
    answer: Result<Flow, Error>,
) -> bool {
    ||| post_sink == pre_sink && post_parent == pre_parent && answer == Ok::<Flow, Error>(
        Flow::Stop,
    )
    ||| pre_sink.state() == RunnerState::Running && SinkPipe::took(pre_sink, item, post_sink)
        && acknowledged_iteration(post_sink, pre_parent, post_parent, answer)
}

/// Does one iteration of a producer with one consumer: hands the item
/// downstream, acknowledges upstream, and looks once at what the consumer
/// reports.
pub fn forward(sink: &mut SinkPipe, parent: &mut Parent, item: Datagram) -> (answer: Result<
    Flow,
    Error,
>)
    ensures
        iterated(*old(sink), *old(parent), item@, *final(sink), *final(parent), answer),
{
    if sink.send_datagram(item).is_err() {
        return Ok(Flow::Stop);
    }
    acknowledge(sink, parent)
}

/// The failure of an acknowledgement that did not go out: without a handle
/// there is no sender, with one the stage above no longer listens.
pub open spec fn ack_failure(parent: Parent) -> Error {
    if parent.connected() {
        Error::SendFailed
    } else {
        Error::NoParentMessageSender
    }
}

/// What starting the one consumer of a producer comes to.
pub open spec fn wired_one(
    pre_sink: SinkPipe,
    post_sink: SinkPipe,
    started: Result<Seq<Worker>, Error>,
) -> bool {
    match started {
        Ok(workers) => workers.len() == 1 && SinkPipe::spawned(
            pre_sink,
            post_sink,
            Ok(workers[0]),
        ),
        Err(e) => SinkPipe::spawned(pre_sink, post_sink, Err(e)),
    }
}

/// Starts the one consumer of a producer and hands out its worker.
pub fn start_one(sink: &mut SinkPipe) -> (started: Result<Vec<Worker>, Error>)
    ensures
        wired_one(
            *old(sink),
            *final(sink),
            match started {
                Ok(workers) => Ok(workers@),
                Err(e) => Err(e),
            },
        ),
{
    match sink.spawn() {
        Ok(worker) => {
            let mut workers: Vec<Worker> = Vec::new();
            workers.push(worker);
            Ok(workers)
        },
        Err(e) => Err(e),
    }
}

/// A stage with its inbound conduit: what the host runs on a thread of its
/// own. The host calls `init` once, then `step` until that answers
/// [`Flow::Stop`] or fails, then `finish`.
pub struct Worker {
    stage: AnyElement,
    inbound: Option<Receiver<Datagram>>,
    stopped: bool,
    retired: bool,
}

/// Whether an answer of `step` ends the worker's loop.
pub open spec fn ends_loop(answer: Result<Flow, Error>) -> bool {
    answer is Err || answer == Ok::<Flow, Error>(Flow::Stop)
}

impl Worker {
    pub closed spec fn stage(&self) -> AnyElement {
        self.stage
    }

    /// The receiving end of the conduit from the stage above, until the
    /// worker gives it up.
    pub closed spec fn inbound(&self) -> Option<Receiver<Datagram>> {
        self.inbound
    }

    /// Whether the worker has left its loop.
    pub closed spec fn stopped(&self) -> bool {
        self.stopped
    }

    /// Whether the worker has released its stage's consumers and hung up.
    pub closed spec fn retired(&self) -> bool {
        self.retired
    }

    /// The stage that the worker runs.
    pub fn element(&self) -> (stage: &AnyElement)
        ensures
            *stage == self.stage(),
    {
        &self.stage
    }

    /// Starts the runners of the stage's consumers and hands out their
    /// workers, for the host to run each on a thread of its own.
    pub fn init(&mut self) -> (started: Result<Vec<Worker>, Error>)
        ensures
            AnyElement::wired(
                old(self).stage(),
                final(self).stage(),
                match started {
                    Ok(workers) => Ok(workers@),
                    Err(e) => Err(e),
                },
            ),
            final(self).inbound() == old(self).inbound(),
            final(self).stopped() == old(self).stopped(),
            final(self).retired() == old(self).retired(),
    {
        self.stage.init()
    }

    /// How one step may change the worker, and what it answers.
    pub open spec fn stepped(pre: Worker, post: Worker, answer: Result<Flow, Error>) -> bool {
        &&& post.inbound() == pre.inbound()
        &&& post.retired() == pre.retired()
        &&& pre.stopped() ==> post == pre && answer == Ok::<Flow, Error>(Flow::Stop)
        &&& !pre.stopped() ==> post.stopped() == ends_loop(answer) && exists|
            event: Option<Datagram>,
        | AnyElement::handled(pre.stage(), event, post.stage(), answer)
    }

    /// Waits for the next datagram from upstream and lets the stage react to
    /// it. A worker that has left its loop receives nothing more.
    pub fn step(&mut self) -> (answer: Result<Flow, Error>)
        ensures
            Worker::stepped(*old(self), *final(self), answer),
    {
        if self.stopped {
            return Ok(Flow::Stop);
        }
        let event = match &self.inbound {
            Some(inbound) => match inbound.recv() {
                Ok(datagram) => Some(datagram),
                Err(_) => None,
            },
            None => None,
        };
        let answer = self.stage.handle(event);
        match &answer {
            Ok(Flow::Stop) => {
                self.stopped = true;
            },
            Err(_) => {
                self.stopped = true;
            },
            _ => {},
        }
        answer
    }

    /// How the answer of the native service to a [`Flow::Decode`] may change
    /// the worker, and what the worker does next. Only a decoder stage that
    /// is still in its loop looks at the answer.
    pub open spec fn resumed(
        pre: Worker,
        outcome: Result<Vec<Frame>, crate::libav::error::Error>,
        post: Worker,
        flow: Flow,
    ) -> bool {
        if pre.stopped() {
            post == pre && flow == Flow::Stop
        } else if pre.stage() is AudioDecoder {
            &&& flow == decode_verdict(outcome)
            &&& post.stage() == pre.stage()
            &&& post.inbound() == pre.inbound()
            &&& post.retired() == pre.retired()
            &&& post.stopped() == (flow == Flow::Stop)
        } else {
            post == pre && flow == Flow::Continue
        }
    }

    /// Takes what the native service made of the packet that the last step
    /// asked to have decoded.
    pub fn decoded(&mut self, outcome: Result<Vec<Frame>, crate::libav::error::Error>) -> (flow:
        Flow)
        ensures
            Worker::resumed(*old(self), outcome, *final(self), flow),
    {
        if self.stopped {
            return Flow::Stop;
        }
        let flow = match &mut self.stage {
            AnyElement::AudioDecoder(stage) => stage.decoded(outcome),
            _ => {
                return Flow::Continue;
            },
        };
        match &flow {
            Flow::Stop => {
                self.stopped = true;
            },
            _ => {},
        }
        flow
    }

    /// The three things that finishing does to the stage, in order: `told`
    /// is the stage after the `Finished` went upstream or failed to,
    /// `released` the stage after its consumers were stopped and awaited,
    /// `post` the stage after it gave up its handle.
    pub open spec fn retired_through(
        pre: AnyElement,
        told: AnyElement,
        sent: Result<(), Error>,
        released: AnyElement,
        report: Result<(), Error>,
        post: AnyElement,
    ) -> bool {
        &&& Parent::acknowledged(pre.parent(), Message::Finished, told.parent(), sent)
        &&& told == pre.with_parent(told.parent())
        &&& AnyElement::released(told, released, report)
        &&& post == released.with_parent(post.parent())
        &&& !post.parent().connected()
    }

    /// How finishing may change the worker, and what it reports.
    pub open spec fn finished(pre: Worker, post: Worker, report: Result<(), Error>) -> bool {
        &&& pre.retired() ==> post == pre && report is Ok
        &&& !pre.retired() ==> {
            &&& post.retired()
            &&& post.stopped()
            &&& post.inbound() is None
            &&& exists|told: AnyElement, sent: Result<(), Error>, released: AnyElement|
                #[trigger] Worker::retired_through(
                    pre.stage(),
                    told,
                    sent,
                    released,
                    report,
                    post.stage(),
                )
        }
    }

    /// Ends the worker: tells the stage above that it has left its loop,
    /// whether or not anyone still listens; stops and awaits the workers of
    /// the stage's own consumers; then gives up both conduits to the stage
    /// above, which is what that stage waits for. Safe to repeat.
    pub fn finish(&mut self) -> (report: Result<(), Error>)
        ensures
            Worker::finished(*old(self), *final(self), report),
    {
        if self.retired {
            return Ok(());
        }
        let sent = self.stage.conclude();
        let ghost told = self.stage;
        let report = self.stage.cleanup();
        let ghost released = self.stage;
        self.stage.set_parent(Parent::detached());
        self.inbound = None;
        self.stopped = true;
        self.retired = true;
        proof {
            assert(Worker::retired_through(
                old(self).stage(),
                told,
                sent,
                released,
                report,
                self.stage(),
            ));
        }
        report
    }
}

/// A worker that has finished has left nothing running below it: no
/// consumer of its stage has a worker, and it has given up both conduits to
/// the stage above.
pub proof fn lemma_finished_worker_leaves_no_worker(
    pre: Worker,
    post: Worker,
    report: Result<(), Error>,
)
    requires
        !pre.retired(),
        Worker::finished(pre, post, report),
    ensures
        !post.stage().has_live_consumer(),
        !post.stage().parent().connected(),
        post.inbound() is None,
        post.retired(),
{
    let (told, sent, released) = choose|
        told: AnyElement,
        sent: Result<(), Error>,
        released: AnyElement,
    | #[trigger]
        Worker::retired_through(pre.stage(), told, sent, released, report, post.stage());
    crate::elements::lemma_released_stage_has_no_live_consumer(told, released, report);
    crate::elements::lemma_with_parent_keeps_consumers(released, post.stage().parent());
}

/// What one step of the pipeline came to.
#[derive(PartialEq, Eq, Clone, Copy, Debug, Structural)]
pub enum Step {
    /// The head did one iteration.
    Progressed,
    /// The head has nothing more to give; no later step makes progress.
    Exhausted,
}

/// What the head's acknowledgement of an iteration means for the step.
pub open spec fn step_outcome(ack: Result<Message, Error>) -> Result<Step, Error> {
    match ack {
        Ok(Message::IterFin) => Ok(Step::Progressed),
        Ok(Message::Finished) => Ok(Step::Exhausted),
        Ok(_) => Err(Error::ReceivedInvalidDatagramFromSink),
        Err(e) => Err(e),
    }
}

pub fn judge_ack(ack: Result<Message, Error>) -> (outcome: Result<Step, Error>)
    ensures
        outcome == step_outcome(ack),
{
    match ack {
        Ok(Message::IterFin) => Ok(Step::Progressed),
        Ok(Message::Finished) => Ok(Step::Exhausted),
        Ok(_) => Err(Error::ReceivedInvalidDatagramFromSink),
        Err(e) => Err(e),
    }
}

/// A chain of stages, held by its head, that is driven one step at a time.
pub struct Pipeline {
    head: SinkPipe,
    exhausted: bool,
}

impl Pipeline {
    /// The runner of the head stage.
    pub closed spec fn head(&self) -> SinkPipe {
        self.head
    }

    /// Whether the head has reported that it has nothing more to give.
    pub closed spec fn exhausted(&self) -> bool {
        self.exhausted
    }

    /// A pipeline whose head is `element`, not yet started.
    pub fn new<E: Element>(element: E) -> (pipeline: Pipeline)
        ensures
            pipeline.head().runner() == Runner::Adopted(Box::new(element.erased())),
            pipeline.head().sent() == Seq::<DatagramView>::empty(),
            !pipeline.exhausted(),
    {
        let mut head = SinkPipe::new();
        let _ = head.set_element(element);
        Pipeline { head, exhausted: false }
    }

    /// The state of the head's runner.
    pub fn current_state(&self) -> (state: RunnerState)
        ensures
            state == self.head().state(),
    {
        self.head.current_state()
    }

    /// Whether the head has reported that it has nothing more to give.
    pub fn is_exhausted(&self) -> (exhausted: bool)
        ensures
            exhausted == self.exhausted(),
    {
        self.exhausted
    }

    /// How `init` may change the pipeline, and what it hands out. A head
    /// that holds no stage to start, because none was adopted or because the
    /// stage has gone to its worker already, is not ready.
    pub open spec fn initialised(pre: Pipeline, post: Pipeline, started: Result<Worker, Error>) -> bool {
        match pre.head().runner() {
            Runner::Adopted(stage) => if stage.architecture().sink != Sink::Nothing {
                started == Err::<Worker, Error>(Error::IncompatibleFormat) && post == pre
            } else {
                post.exhausted() == pre.exhausted() && SinkPipe::spawned(
                    pre.head(),
                    post.head(),
                    started,
                )
            },
            _ => started == Err::<Worker, Error>(Error::NotReady) && post == pre,
        }
    }

    /// Starts the head's runner and hands out the head's worker, for the host
    /// to run. The head must be a stage that takes nothing in.
    pub fn init(&mut self) -> (started: Result<Worker, Error>)
        ensures
            Pipeline::initialised(*old(self), *final(self), started),
    {
        match self.head.peek() {
            Some(stage) => {
                if !stage.get_architecture().sink.has_none() {
                    return Err(Error::IncompatibleFormat);
                }
            },
            None => {
                return Err(Error::NotReady);
            },
        }
        self.head.spawn()
    }

    /// How one step may change the pipeline, and what it comes to.
    pub open spec fn stepped(pre: Pipeline, post: Pipeline, outcome: Result<Step, Error>) -> bool {
        if pre.exhausted() {
            post == pre && outcome == Ok::<Step, Error>(Step::Exhausted)
        } else if pre.head().state() != RunnerState::Running {
            post == pre && outcome == Err::<Step, Error>(Error::NotReady)
        } else {
            ||| post == pre && outcome == Err::<Step, Error>(Error::SendFailed)
            ||| {
                &&& SinkPipe::took(pre.head(), DatagramView::Message(Message::Iter), post.head())
                &&& post.exhausted() == (outcome == Ok::<Step, Error>(Step::Exhausted))
                &&& exists|ack: Result<Message, Error>|
                    (ack is Ok || ack == Err::<Message, Error>(Error::ReceiveFailed)) && outcome
                        == #[trigger] step_outcome(ack)
            }
        }
    }

    /// Takes the head's acknowledgement of an iteration that was asked for,
    /// or the failure to receive one, and says what the step came to. An
    /// acknowledgement with `Finished` marks the pipeline exhausted.
    pub fn settle(&mut self, ack: Result<Message, Error>) -> (outcome: Result<Step, Error>)
        ensures
            outcome == step_outcome(ack),
            final(self).head() == old(self).head(),
            final(self).exhausted() == (old(self).exhausted() || outcome == Ok::<Step, Error>(
                Step::Exhausted,
            )),
    {
        let outcome = judge_ack(ack);
        match outcome {
            Ok(Step::Exhausted) => {
                self.exhausted = true;
            },
            _ => {},
        }
        outcome
    }

    /// Does one step: asks the head for one iteration and waits for its
    /// acknowledgement. Once the head has reported that it is exhausted,
    /// every later step answers `Exhausted` and asks nothing.
    pub fn iter(&mut self) -> (outcome: Result<Step, Error>)
        ensures
            Pipeline::stepped(*old(self), *final(self), outcome),
    {
        if self.exhausted {
            return Ok(Step::Exhausted);
        }
        if self.head.current_state() != RunnerState::Running {
            return Err(Error::NotReady);
        }
        match self.head.send_datagram(Datagram::Message(Message::Iter)) {
            Ok(()) => {},
            Err(e) => {
                return Err(e);
            },
        }
        let ack = self.head.recv_msg();
        self.settle(ack)
    }

    /// How a teardown may change the pipeline, and what it reports. A head
    /// that is running and has not reported itself exhausted is sent `Quit`,
    /// which it takes or is gone for; nothing else is ever sent.
    pub open spec fn torn_down(pre: Pipeline, post: Pipeline, report: Result<(), Error>) -> bool {
        &&& post.exhausted() == pre.exhausted()
        &&& !pre.head().has_worker() ==> post == pre && report is Ok
        &&& pre.head().has_worker() ==> post.head().runner() == Runner::Closed && (report is Ok
            || report == Err::<(), Error>(Error::ReceivedInvalidDatagramFromSink))
        &&& if pre.head().state() == RunnerState::Running && !pre.exhausted() {
            post.head().sent() == pre.head().sent() || post.head().sent()
                == pre.head().sent().push(DatagramView::Message(Message::Quit))
        } else {
            post.head().sent() == pre.head().sent()
        }
    }

    /// Shuts the chain down: tells the head to stop, unless it has reported
    /// itself exhausted, closes the conduit to it and waits until its worker
    /// is gone, which that worker delays until the workers below it are gone.
    /// A pipeline without a worker is left as it is.
    pub fn teardown(&mut self) -> (report: Result<(), Error>)
        ensures
            Pipeline::torn_down(*old(self), *final(self), report),
    {
        if self.exhausted {
            self.head.close()
        } else {
            self.head.terminate()
        }
    }
}

/// A run of steps: each state leads to the next by one step with the outcome
/// of the same index.
pub open spec fn is_run(states: Seq<Pipeline>, outcomes: Seq<Result<Step, Error>>) -> bool {
    &&& states.len() == outcomes.len() + 1
    &&& forall|i: int|
        0 <= i < outcomes.len() ==> Pipeline::stepped(
            #[trigger] states[i],
            states[i + 1],
            outcomes[i],
        )
}

/// Exhaustion is sticky: in any run of steps, once a step has come to
/// `Exhausted`, every later step comes to `Exhausted` too, and changes
/// nothing.
pub proof fn lemma_exhaustion_is_sticky(
    states: Seq<Pipeline>,
    outcomes: Seq<Result<Step, Error>>,
    i: int,
    j: int,
)
    requires
        is_run(states, outcomes),
        0 <= i < j < outcomes.len(),
        outcomes[i] == Ok::<Step, Error>(Step::Exhausted),
    ensures
        outcomes[j] == Ok::<Step, Error>(Step::Exhausted),
        states[j + 1] == states[j],
    decreases j - i,
{
    assert(Pipeline::stepped(states[i], states[i + 1], outcomes[i]));
    assert(states[i + 1].exhausted());
    assert(Pipeline::stepped(states[i + 1], states[i + 2], outcomes[i + 1]));
    if i + 1 < j {
        lemma_exhaustion_is_sticky(states, outcomes, i + 1, j);
    }
}

/// A step never comes to anything but progress, exhaustion or a failure of
/// the kinds listed; and it comes to progress only where the pipeline was not
/// exhausted before and is not exhausted after.
pub proof fn lemma_step_outcomes(pre: Pipeline, post: Pipeline, outcome: Result<Step, Error>)
    requires
        Pipeline::stepped(pre, post, outcome),
    ensures
        outcome == Ok::<Step, Error>(Step::Progressed) ==> !pre.exhausted() && !post.exhausted(),
        outcome == Ok::<Step, Error>(Step::Exhausted) ==> post.exhausted(),
        outcome is Err ==> post.exhausted() == pre.exhausted(),
        outcome is Err ==> outcome == Err::<Step, Error>(Error::NotReady) || outcome == Err::<
            Step,
            Error,
        >(Error::SendFailed) || outcome == Err::<Step, Error>(Error::ReceiveFailed) || outcome
            == Err::<Step, Error>(Error::ReceivedInvalidDatagramFromSink),
{
}

/// Teardown is idempotent: a second teardown changes nothing and reports no
/// failure, whatever the first one reported.
pub proof fn lemma_teardown_is_idempotent(
    before: Pipeline,
    between: Pipeline,
    after: Pipeline,
    first: Result<(), Error>,
    second: Result<(), Error>,
)
    requires
        Pipeline::torn_down(before, between, first),
        Pipeline::torn_down(between, after, second),
    ensures
        after == between,
        second is Ok,
{
}

/// After a teardown the pipeline has no worker left to run or to await.
pub proof fn lemma_teardown_leaves_no_worker(
    pre: Pipeline,
    post: Pipeline,
    report: Result<(), Error>,
)
    requires
        Pipeline::torn_down(pre, post, report),
    ensures
        !post.head().has_worker(),
{
}

} // verus!
