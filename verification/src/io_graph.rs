//! The I/O graph: passive nodes that hold data in flight, and worker threads
//! that move it between them.
use std::sync::mpsc::{Receiver, SyncSender};
use vstd::prelude::*;

use crate::junction::Junction;

verus! {

/// State shared by all the workers of one graph.
pub struct GraphContext {
    halt: bool,
}

impl GraphContext {
    /// Whether the graph has been told to halt.
    pub closed spec fn halted(&self) -> bool {
        self.halt
    }

    /// A context for a graph that is running.
    pub fn new() -> (c: Self)
        ensures
            !c.halted(),
    {
        GraphContext { halt: false }
    }

    /// Whether workers should stop.
    pub fn halt(&self) -> (h: bool)
        ensures
            h == self.halted(),
    {
        self.halt
    }
}

/// Information associated with a [`Node`].
pub struct NodeInfo<T> {
    pub extra: T,
    pub inputs: Vec<Junction>,
    pub outputs: Vec<Junction>,
}

/// Information associated with a [`Node`], its junctions given by id.
pub struct NodeData<T> {
    pub extra: T,
    pub inputs: Vec<u32>,
    pub outputs: Vec<u32>,
}

/// An object in the I/O graph, connected to other objects.
pub trait Node {
    /// Extra information this node adds to a [`NodeInfo`].
    type Info;

    /// The information about this node.
    fn info(&self) -> NodeInfo<Self::Info>;
}

/// A [`Node`] that is an active worker thread.
pub trait Worker: Node {
    /// Final, successful value computed by this worker.
    type Output;

    /// Does the worker's work until it is done or the graph halts.
    fn run(self: Box<Self>, context: &GraphContext) -> Result<Self::Output, std::io::Error>;
}

/// A source of byte messages.
pub trait RecvBytes {
    /// The messages received so far, oldest first.
    spec fn received(&self) -> Seq<Seq<u8>>;

    /// Whether the end of the stream has been received.
    spec fn ended(&self) -> bool;

    /// The next message, or `None` at the end of the stream.
    fn recv(&mut self) -> (r: Result<Option<Vec<u8>>, std::io::Error>)
        ensures
            match r {
                Ok(Some(b)) => final(self).received() == old(self).received().push(b@),
                _ => final(self).received() == old(self).received(),
            },
            r matches Ok(None) ==> final(self).ended(),
    ;
}

/// A sink of byte messages.
pub trait SendBytes {
    /// The messages accepted by `send` so far, oldest first.
    spec fn sent(&self) -> Seq<Seq<u8>>;

    /// Sends a message.
    fn send(&mut self, bytes: Vec<u8>) -> (r: Result<(), std::io::Error>)
        ensures
            r is Ok ==> final(self).sent() == old(self).sent().push(bytes@),
            r is Err ==> final(self).sent() == old(self).sent(),
    ;
}

#[verifier::external_type_specification]
#[verifier::external_body]
#[verifier::reject_recursive_types(T)]
pub struct ExReceiver<T>(Receiver<T>);

#[verifier::external_type_specification]
#[verifier::external_body]
#[verifier::reject_recursive_types(T)]
pub struct ExSyncSender<T>(SyncSender<T>);

#[verifier::external_type_specification]
pub struct ExErrorKind(std::io::ErrorKind);

/// The messages a sender has put on its channel, oldest first.
pub uninterp spec fn sender_log(tx: SyncSender<Vec<u8>>) -> Seq<Seq<u8>>;

/// The messages a receiver has taken off its channel, oldest first.
pub uninterp spec fn receiver_log(rx: Receiver<Vec<u8>>) -> Seq<Seq<u8>>;

/// How many messages the channel of a sender holds before a send blocks.
pub uninterp spec fn sender_bound(tx: SyncSender<Vec<u8>>) -> nat;

/// The kind of an I/O error, as `std::io::Error::kind` gives it.
pub uninterp spec fn io_error_kind(e: std::io::Error) -> std::io::ErrorKind;

/// `std::sync::mpsc::sync_channel`: a channel that holds up to `count`
/// messages, on which nothing has been put yet.
#[verifier::external_body]
fn sync_channel(count: usize) -> (r: (SyncSender<Vec<u8>>, Receiver<Vec<u8>>))
    ensures
        sender_log(r.0) == Seq::<Seq<u8>>::empty(),
        sender_bound(r.0) == count,
        receiver_log(r.1) == Seq::<Seq<u8>>::empty(),
{
    std::sync::mpsc::sync_channel(count)
}

/// `Receiver::recv`: the next message, or `None` once every sender is
/// gone. What arrives depends on the sending thread.
#[verifier::external_body]
fn channel_recv(rx: &mut Receiver<Vec<u8>>) -> (r: Option<Vec<u8>>)
    ensures
        r matches Some(m) ==> receiver_log(*final(rx)) == receiver_log(*old(rx)).push(m@),
        r is None ==> receiver_log(*final(rx)) == receiver_log(*old(rx)),
{
    rx.recv().ok()
}

/// `SyncSender::send`: puts `bytes` on the channel; `false`, with nothing
/// put, once the receiver is gone.
#[verifier::external_body]
fn channel_send(tx: &mut SyncSender<Vec<u8>>, bytes: Vec<u8>) -> (r: bool)
    ensures
        r ==> sender_log(*final(tx)) == sender_log(*old(tx)).push(bytes@),
        !r ==> sender_log(*final(tx)) == sender_log(*old(tx)),
        sender_bound(*final(tx)) == sender_bound(*old(tx)),
{
    tx.send(bytes).is_ok()
}

/// `std::io::Error::new` with `ErrorKind::BrokenPipe` and `message`.
#[verifier::external_body]
fn broken_pipe(message: &str) -> (e: std::io::Error)
    ensures
        io_error_kind(e) == std::io::ErrorKind::BrokenPipe,
{
    std::io::Error::new(std::io::ErrorKind::BrokenPipe, message.to_string())
}

/// The reading end of a [`BufNode`]. An empty message on the channel marks
/// the end of the stream.
pub struct MpscRead {
    rx: Receiver<Vec<u8>>,
    log: Ghost<Seq<Seq<u8>>>,
    end_seen: Ghost<bool>,
}

/// The writing end of a [`BufNode`].
pub struct MpscWrite {
    /// Send an empty message to signal the end of the stream.
    tx: SyncSender<Vec<u8>>,
    log: Ghost<Seq<Seq<u8>>>,
}

/// A bounded buffer between two workers.
pub struct BufNode {
    pub input: MpscWrite,
    pub output: MpscRead,
}

impl BufNode {
    /// A buffer holding up to `count` messages.
    pub fn new(count: usize) -> (n: Self)
        ensures
            n.input.sent() == Seq::<Seq<u8>>::empty(),
            n.input.transmitted() == Seq::<Seq<u8>>::empty(),
            n.input.capacity() == count,
            n.output.received() == Seq::<Seq<u8>>::empty(),
            n.output.taken() == Seq::<Seq<u8>>::empty(),
            !n.output.ended(),
    {
        let (tx, rx) = sync_channel(count);
        BufNode {
            input: MpscWrite { tx, log: Ghost(Seq::empty()) },
            output: MpscRead { rx, log: Ghost(Seq::empty()), end_seen: Ghost(false) },
        }
    }
}

impl MpscRead {
    /// The messages taken off the channel so far, end markers included,
    /// oldest first.
    pub closed spec fn taken(&self) -> Seq<Seq<u8>> {
        receiver_log(self.rx)
    }

    /// What a read gives for what came off the channel (`None` once every
    /// sender is gone): a dropped sender is a broken pipe, an empty message
    /// is the end of the stream, and any other message is passed on.
    pub fn interpret(msg: Option<Vec<u8>>) -> (r: Result<Option<Vec<u8>>, std::io::Error>)
        ensures
            match msg {
                None => r matches Err(e) && io_error_kind(e) == std::io::ErrorKind::BrokenPipe,
                Some(m) => if m@.len() == 0 {
                    r matches Ok(None)
                } else {
                    r matches Ok(Some(b)) && b == m
                },
            },
    {
        match msg {
            None => Err(broken_pipe("mpsc sender was dropped")),
            Some(m) => {
                if m.len() == 0 {
                    Ok(None)
                } else {
                    Ok(Some(m))
                }
            },
        }
    }
}

impl RecvBytes for MpscRead {
    closed spec fn received(&self) -> Seq<Seq<u8>> {
        self.log@
    }

    closed spec fn ended(&self) -> bool {
        self.end_seen@
    }

    /// Takes the next message off the channel, as [`MpscRead::interpret`]
    /// reads it. What arrives depends on the sending thread.
    fn recv(&mut self) -> (r: Result<Option<Vec<u8>>, std::io::Error>)
        ensures
            r matches Ok(Some(b)) ==> b@.len() > 0,
            !(r matches Ok(None)) ==> final(self).ended() == old(self).ended(),
            r matches Ok(Some(b)) ==> final(self).taken() == old(self).taken().push(b@),
            r matches Ok(None) ==> final(self).taken() == old(self).taken().push(Seq::empty()),
            r is Err ==> final(self).taken() == old(self).taken(),
            r matches Err(e) ==> io_error_kind(e) == std::io::ErrorKind::BrokenPipe,
    {
        let msg = channel_recv(&mut self.rx);
        proof {
            if let Some(m) = &msg {
                if m@.len() == 0 {
                    assert(m@ =~= Seq::<u8>::empty());
                }
            }
        }
        let r = Self::interpret(msg);
        match &r {
            Ok(Some(b)) => {
                self.log = Ghost(self.log@.push(b@));
            },
            Ok(None) => {
                self.end_seen = Ghost(true);
            },
            Err(_) => {},
        }
        r
    }
}

impl SendBytes for MpscWrite {
    closed spec fn sent(&self) -> Seq<Seq<u8>> {
        self.log@
    }

    /// Empty messages are accepted but not put on the channel, since they
    /// would end the stream. Whether a message gets onto the channel depends
    /// on the receiving thread, as [`MpscWrite::delivery`] reads it.
    fn send(&mut self, bytes: Vec<u8>) -> (r: Result<(), std::io::Error>)
        ensures
            bytes@.len() == 0 ==> r is Ok && final(self).transmitted() == old(self).transmitted(),
            bytes@.len() > 0 && r is Ok ==> final(self).transmitted() == old(
                self,
            ).transmitted().push(bytes@),
            r is Err ==> final(self).sent() == old(self).sent() && final(self).transmitted() == old(
                self,
            ).transmitted(),
            r matches Err(e) ==> io_error_kind(e) == std::io::ErrorKind::BrokenPipe,
            final(self).capacity() == old(self).capacity(),
    {
        let ghost b = bytes@;
        if bytes.len() == 0 {
            self.log = Ghost(self.log@.push(b));
            return Ok(());
        }
        let r = Self::delivery(channel_send(&mut self.tx, bytes));
        if r.is_ok() {
            self.log = Ghost(self.log@.push(b));
        }
        r
    }
}

impl MpscWrite {
    /// The messages put on the channel so far, oldest first.
    pub closed spec fn transmitted(&self) -> Seq<Seq<u8>> {
        sender_log(self.tx)
    }

    /// How many messages the channel holds before a send blocks.
    pub closed spec fn capacity(&self) -> nat {
        sender_bound(self.tx)
    }

    /// What sending gives for whether the channel took the message: a
    /// dropped receiver is a broken pipe.
    pub fn delivery(delivered: bool) -> (r: Result<(), std::io::Error>)
        ensures
            r is Ok == delivered,
            r matches Err(e) ==> io_error_kind(e) == std::io::ErrorKind::BrokenPipe,
    {
        if delivered {
            Ok(())
        } else {
            Err(broken_pipe("mpsc receiver was dropped"))
        }
    }

    /// Ends the stream and drops this writer, so that a read after the end
    /// marker finds the sender gone. The end marker is put on the channel by
    /// [`MpscWrite::send_end`].
    pub fn close(self) -> (r: Result<(), std::io::Error>)
        ensures
            r matches Err(e) ==> io_error_kind(e) == std::io::ErrorKind::BrokenPipe,
    {
        let mut w = self;
        w.send_end()
    }

    /// Puts the empty end marker on the channel, as [`MpscWrite::delivery`]
    /// reads the outcome.
    pub fn send_end(&mut self) -> (r: Result<(), std::io::Error>)
        ensures
            r is Ok ==> final(self).transmitted() == old(self).transmitted().push(Seq::empty()),
            r is Err ==> final(self).transmitted() == old(self).transmitted(),
            r matches Err(e) ==> io_error_kind(e) == std::io::ErrorKind::BrokenPipe,
            final(self).sent() == old(self).sent(),
            final(self).capacity() == old(self).capacity(),
    {
        let empty: Vec<u8> = Vec::new();
        assert(empty@ =~= Seq::<u8>::empty());
        Self::delivery(channel_send(&mut self.tx, empty))
    }
}

/// `after` is `before` with one more message at its end.
pub open spec fn one_more(before: Seq<Seq<u8>>, after: Seq<Seq<u8>>) -> bool {
    after.len() == before.len() + 1 && after.drop_last() == before
}

/// A worker that moves messages from its input to its output.
pub struct ForwardWorker<Rx, Tx> {
    pub input: Rx,
    pub output: Tx,
}

impl<Rx: RecvBytes, Tx: SendBytes> ForwardWorker<Rx, Tx> {
    pub fn new(input: Rx, output: Tx) -> (w: Box<Self>)
        ensures
            w.input == input,
            w.output == output,
    {
        Box::new(ForwardWorker { input, output })
    }

    /// Forwards one message: takes the next message from the input and
    /// sends it to the output. Returns `false`, having moved nothing, when
    /// the graph has halted (without touching the input) or the input has
    /// ended.
    pub fn step(&mut self, context: &GraphContext) -> (r: Result<bool, std::io::Error>)
        ensures
            r matches Ok(true) ==> {
                &&& final(self).input.received().len() == old(self).input.received().len() + 1
                &&& final(self).output.sent().len() == old(self).output.sent().len() + 1
                &&& final(self).input.received().drop_last() == old(self).input.received()
                &&& final(self).output.sent().drop_last() == old(self).output.sent()
                &&& final(self).output.sent().last() == final(self).input.received().last()
            },
            r matches Ok(false) ==> {
                &&& final(self).input.received() == old(self).input.received()
                &&& final(self).output.sent() == old(self).output.sent()
            },
            r matches Ok(false) ==> context.halted() || final(self).input.ended(),
            context.halted() ==> (r matches Ok(false)) && *final(self) == *old(self),
            r is Err ==> final(self).output.sent() == old(self).output.sent(),
            r is Err ==> final(self).input.received() == old(self).input.received()
                || one_more(old(self).input.received(), final(self).input.received()),
    {
        if context.halt() {
            return Ok(false);
        }
        let ghost r0 = self.input.received();
        let got = self.input.recv();
        proof {
            if got is Ok && got->Ok_0 is Some {
                assert(self.input.received().drop_last() =~= r0);
            }
        }
        self.forward_received(got)
    }

    /// What a step does with what `recv` returned: an error is passed on
    /// as it is, the end of the input stops the worker, and a message is
    /// sent on, the step's result being what [`sent_outcome`] makes of the
    /// send's.
    pub fn forward_received(&mut self, got: Result<Option<Vec<u8>>, std::io::Error>) -> (r: Result<
        bool,
        std::io::Error,
    >)
        ensures
            final(self).input == old(self).input,
            match got {
                Err(e) => r == Err::<bool, std::io::Error>(e) && final(self).output.sent() == old(
                    self,
                ).output.sent(),
                Ok(None) => r == Ok::<bool, std::io::Error>(false) && final(self).output.sent()
                    == old(self).output.sent(),
                Ok(Some(b)) => r != Ok::<bool, std::io::Error>(false) && (r == Ok::<
                    bool,
                    std::io::Error,
                >(true) <==> final(self).output.sent() == old(self).output.sent().push(b@)) && (
                r is Err ==> final(self).output.sent() == old(self).output.sent()),
            },
    {
        match got {
            Err(e) => Err(e),
            Ok(None) => Ok(false),
            Ok(Some(b)) => {
                let ghost bv = b@;
                let ghost s0 = self.output.sent();
                let sent = self.output.send(b);
                proof {
                    if sent is Err {
                        assert(self.output.sent().len() != s0.push(bv).len());
                    }
                }
                sent_outcome(sent)
            },
        }
    }
}

/// What a forwarding step returns for the outcome of its send: `true` when
/// the message went out, else the send's own error.
pub fn sent_outcome(sent: Result<(), std::io::Error>) -> (r: Result<bool, std::io::Error>)
    ensures
        match sent {
            Ok(()) => r == Ok::<bool, std::io::Error>(true),
            Err(e) => r == Err::<bool, std::io::Error>(e),
        },
{
    match sent {
        Ok(()) => Ok(true),
        Err(e) => Err(e),
    }
}

/// Since the point where `sent` was `s0` and `received` was `r0`, what was
/// sent is exactly what was received, in the same order.
pub open spec fn forwarded_since(
    sent: Seq<Seq<u8>>,
    received: Seq<Seq<u8>>,
    s0: Seq<Seq<u8>>,
    r0: Seq<Seq<u8>>,
) -> bool {
    &&& s0.len() <= sent.len()
    &&& r0.len() <= received.len()
    &&& sent.subrange(0, s0.len() as int) == s0
    &&& received.subrange(0, r0.len() as int) == r0
    &&& sent.skip(s0.len() as int) == received.skip(r0.len() as int)
}

/// Before anything moves, nothing has been forwarded.
pub proof fn lemma_forwarding_starts(sent: Seq<Seq<u8>>, received: Seq<Seq<u8>>)
    ensures
        forwarded_since(sent, received, sent, received),
{
    assert(sent.skip(sent.len() as int) =~= received.skip(received.len() as int));
    assert(sent.subrange(0, sent.len() as int) =~= sent);
    assert(received.subrange(0, received.len() as int) =~= received);
}

/// A forwarding step, which receives one message and sends that same
/// message on, keeps everything sent equal to everything received: a forward
/// worker neither drops, adds nor reorders messages.
pub proof fn lemma_forwarding_step(
    s0: Seq<Seq<u8>>,
    r0: Seq<Seq<u8>>,
    sent: Seq<Seq<u8>>,
    received: Seq<Seq<u8>>,
    sent2: Seq<Seq<u8>>,
    received2: Seq<Seq<u8>>,
)
    requires
        forwarded_since(sent, received, s0, r0),
        sent2.len() == sent.len() + 1,
        received2.len() == received.len() + 1,
        sent2.drop_last() == sent,
        received2.drop_last() == received,
        sent2.last() == received2.last(),
    ensures
        forwarded_since(sent2, received2, s0, r0),
{
    assert(sent2.subrange(0, s0.len() as int) =~= sent.subrange(0, s0.len() as int));
    assert(received2.subrange(0, r0.len() as int) =~= received.subrange(0, r0.len() as int));
    assert(sent2.skip(s0.len() as int) =~= sent.skip(s0.len() as int).push(sent2.last()));
    assert(received2.skip(r0.len() as int) =~= received.skip(r0.len() as int).push(
        received2.last(),
    ));
}

} // verus!
