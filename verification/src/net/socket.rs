use vstd::prelude::*;
use crate::addr::{IpAddr, Ipv4Addr, SocketAddr};
use crate::error::{Error, IoError, IoErrorKind, IoResult};

verus! {

/// The failure that the kernel reports for a connection attempt.
#[derive(Debug, Clone, Copy, PartialEq, Eq, Structural)]
pub enum SocketError {
    /// The peer refused the connection.
    ConnectionRefused,
    /// A router on the way reported the host as unreachable.
    HostUnreachable,
    /// Any other failure, with the operating system's error number.
    Other(i32),
}

/// What the tracer needs of the operating system's sockets. Nothing is assumed of how an
/// implementation behaves: the tracer is verified for whatever its methods return.
pub trait Socket: Sized {
    /// A raw ICMP socket that takes packets with their IPv4 headers.
    fn new_icmp_send_socket_ipv4() -> IoResult<Self>;

    /// A raw UDP socket that takes packets with their IPv4 headers.
    fn new_udp_send_socket_ipv4_raw() -> IoResult<Self>;

    /// A UDP datagram socket.
    fn new_udp_send_socket_ipv4(raw: bool) -> IoResult<Self>;

    /// A raw ICMP socket bound to `addr` for reading.
    fn new_recv_socket_ipv4(addr: Ipv4Addr) -> IoResult<Self>;

    /// A non-blocking TCP socket.
    fn new_stream_socket_ipv4() -> IoResult<Self>;

    /// Binds the socket to the local address `addr`.
    fn bind(&mut self, addr: SocketAddr) -> IoResult<()>;

    /// Sets the type of service of what the socket sends.
    fn set_tos(&mut self, tos: u32) -> IoResult<()>;

    /// Sets the hop limit of what the socket sends.
    fn set_ttl(&mut self, ttl: u32) -> IoResult<()>;

    /// Starts to connect the socket to `addr`.
    fn connect(&mut self, addr: SocketAddr) -> IoResult<()>;

    /// Sends `buf` to `addr`.
    fn send_to(&mut self, buf: &[u8], addr: SocketAddr) -> IoResult<()>;

    /// Reads one datagram into `buf` and returns its length, or fails with `WouldBlock`
    /// where none is pending.
    fn read(&mut self, buf: &mut [u8]) -> IoResult<usize>;

    /// Shuts the connection down in both directions.
    fn shutdown(&mut self) -> IoResult<()>;

    /// The address of the peer, if the socket is connected.
    fn peer_addr(&mut self) -> IoResult<Option<SocketAddr>>;

    /// Takes the failure that the kernel has queued for this socket, if there is one.
    fn take_error(&mut self) -> IoResult<Option<SocketError>>;

    /// The address of the router whose ICMP error made a connection attempt fail.
    fn icmp_error_info(&mut self) -> IoResult<IpAddr>;
}

/// One request made of a socket, with what was handed to it and what it answered.
pub enum SocketCall {
    /// A socket was asked for: whether there is one now, or why not.
    Opened(IoResult<()>),
    /// The socket was asked to bind to the local address given.
    Bind(SocketAddr, IoResult<()>),
    /// The socket was asked to send with the hop limit given.
    SetTtl(u32, IoResult<()>),
    /// The socket was asked to send with the type of service given.
    SetTos(u32, IoResult<()>),
    /// The socket was asked to connect to the address given.
    Connect(SocketAddr, IoResult<()>),
    /// The socket was handed the bytes given, to be sent to the address given.
    SendTo(Seq<u8>, SocketAddr, IoResult<()>),
    /// The socket was asked to read one datagram into a buffer: the buffer as the socket
    /// left it, and the length or the failure that it answered.
    Read(Seq<u8>, IoResult<usize>),
    /// The socket was asked for its queued failure.
    TakeError(IoResult<Option<SocketError>>),
    /// The socket was asked for its peer.
    PeerAddr(IoResult<Option<SocketAddr>>),
    /// The socket was asked to shut down.
    Shutdown(IoResult<()>),
    /// The socket was asked for the router behind its failure.
    RouterAddr(IoResult<IpAddr>),
    /// Another socket, opened beside this one, was closed: the record of that socket.
    Beside(Seq<SocketCall>),
}

/// Something to ask of a socket, before it is asked.
pub enum Request {
    Open,
    Bind(SocketAddr),
    SetTtl(u32),
    SetTos(u32),
    Connect(SocketAddr),
    SendTo(Seq<u8>, SocketAddr),
    /// Any request that asks the socket for something.
    Query,
}

/// What was asked in `call`.
pub open spec fn request_of(call: SocketCall) -> Request {
    match call {
        SocketCall::Opened(_) => Request::Open,
        SocketCall::Bind(addr, _) => Request::Bind(addr),
        SocketCall::SetTtl(ttl, _) => Request::SetTtl(ttl),
        SocketCall::SetTos(tos, _) => Request::SetTos(tos),
        SocketCall::Connect(addr, _) => Request::Connect(addr),
        SocketCall::SendTo(bytes, addr, _) => Request::SendTo(bytes, addr),
        _ => Request::Query,
    }
}

/// What becomes of the result `res` of binding or connecting a socket: a connect that is
/// still in progress counts as done, any other failure is reported.
pub open spec fn processed(res: IoResult<()>) -> Result<(), Error> {
    match res {
        Ok(()) => Ok(()),
        Err(err) => if err.kind == IoErrorKind::InProgress {
            Ok(())
        } else {
            Err(Error::IoError(err))
        },
    }
}

/// What becomes of the result `res` of any other request: every failure is reported.
pub open spec fn surfaced(res: IoResult<()>) -> Result<(), Error> {
    match res {
        Ok(()) => Ok(()),
        Err(err) => Err(Error::IoError(err)),
    }
}

/// What the answer in `call` amounts to for one who opens a socket, sets it up and sends
/// on it: success, or the failure to report.
pub open spec fn judged(call: SocketCall) -> Result<(), Error> {
    match call {
        SocketCall::Opened(answer) => surfaced(answer),
        SocketCall::Bind(_, answer) => processed(answer),
        SocketCall::SetTtl(_, answer) => surfaced(answer),
        SocketCall::SetTos(_, answer) => surfaced(answer),
        SocketCall::Connect(_, answer) => processed(answer),
        SocketCall::SendTo(_, _, answer) => surfaced(answer),
        _ => Ok(()),
    }
}

/// Whether `record` is what comes of making the requests of `plan` one after the other
/// and stopping at the first that fails: it holds the requests of the plan from the first
/// on, in their order; all but the last of them succeeded; and where it holds fewer than
/// the plan, the last of them failed.
pub open spec fn is_run(plan: Seq<Request>, record: Seq<SocketCall>) -> bool {
    &&& record.len() <= plan.len()
    &&& forall|i: int| 0 <= i < record.len() ==> request_of(#[trigger] record[i]) == plan[i]
    &&& forall|i: int| 0 <= i < record.len() - 1 ==> judged(#[trigger] record[i]) is Ok
    &&& record.len() < plan.len() ==> record.len() > 0 && judged(record.last()) is Err
}

/// What a run of requests comes to: the failure of its last request, or success.
pub open spec fn run_outcome(record: Seq<SocketCall>) -> Result<(), Error> {
    if record.len() > 0 {
        judged(record.last())
    } else {
        Ok(())
    }
}

/// A run comes to success exactly where every request of its plan was made and none of
/// them failed; where it comes to a failure, that is the failure of the request made last.
pub proof fn lemma_run_outcome(plan: Seq<Request>, record: Seq<SocketCall>)
    requires
        is_run(plan, record),
    ensures
        run_outcome(record) is Ok <==> record.len() == plan.len() && forall|i: int|
            0 <= i < record.len() ==> judged(#[trigger] record[i]) is Ok,
        run_outcome(record) is Err ==> record.len() > 0 && run_outcome(record) == judged(
            record.last(),
        ),
{
    if record.len() > 0 {
        assert(judged(record[record.len() - 1]) == run_outcome(record));
        if run_outcome(record) is Ok {
            assert forall|i: int| 0 <= i < record.len() implies judged(
                #[trigger] record[i],
            ) is Ok by {
                if i < record.len() - 1 {
                } else {
                    assert(record[i] == record.last());
                }
            }
        }
    }
}

/// Whether the record `after` is the record `before` with more requests behind it, or none.
pub open spec fn continues(before: Seq<SocketCall>, after: Seq<SocketCall>) -> bool {
    before.len() <= after.len() && after.take(before.len() as int) == before
}

/// The requests that the record `after` holds behind those of the record `before`.
pub open spec fn asked_since(before: Seq<SocketCall>, after: Seq<SocketCall>) -> Seq<SocketCall> {
    after.skip(before.len() as int)
}

/// A record with some requests put behind it continues the record, and these are the
/// requests made since.
pub proof fn lemma_asked_since(before: Seq<SocketCall>, asked: Seq<SocketCall>)
    ensures
        continues(before, before + asked),
        asked_since(before, before + asked) == asked,
{
    assert((before + asked).take(before.len() as int) =~= before);
    assert((before + asked).skip(before.len() as int) =~= asked);
}

/// Where one send was all that there was to ask, the record has grown by exactly that
/// send, with the bytes and the address of the plan, and the run comes to what the socket
/// answered: success, or its failure.
pub proof fn lemma_run_of_one_send(
    before: Seq<SocketCall>,
    after: Seq<SocketCall>,
    bytes: Seq<u8>,
    addr: SocketAddr,
)
    requires
        continues(before, after),
        is_run(seq![Request::SendTo(bytes, addr)], asked_since(before, after)),
    ensures
        after.len() == before.len() + 1,
        after.drop_last() == before,
        after.last() is SendTo,
        after.last()->SendTo_0 == bytes,
        after.last()->SendTo_1 == addr,
        run_outcome(asked_since(before, after)) == surfaced(after.last()->SendTo_2),
{
    let asked = asked_since(before, after);
    assert(asked.len() == 1);
    assert(request_of(asked[0]) == Request::SendTo(bytes, addr));
    assert(asked[0] == after.last());
    assert(after.drop_last() =~= before);
}

/// A socket, or the failure to open one, together with a record of every request that was
/// made of it through this channel and of what it answered. A request made where there is
/// no socket is answered with the failure to open it.
pub struct Channel<S> {
    socket: Result<S, IoError>,
    log: Ghost<Seq<SocketCall>>,
}

/// A dispatch that came to a failure, with the channel of the socket that it had opened or
/// failed to open.
pub struct Failure<S> {
    pub error: Error,
    pub channel: Channel<S>,
}

impl<S: Socket> Channel<S> {
    /// The requests made of the socket through this channel so far, oldest first.
    pub closed spec fn calls(&self) -> Seq<SocketCall> {
        self.log@
    }

    /// The socket of this channel, if there is one.
    pub closed spec fn socket(&self) -> Option<S> {
        match self.socket {
            Ok(socket) => Some(socket),
            Err(_) => None,
        }
    }

    /// What came of opening the socket of this channel: success, or the failure.
    pub closed spec fn opening(&self) -> IoResult<()> {
        match self.socket {
            Ok(_) => Ok(()),
            Err(e) => Err(e),
        }
    }

    /// Whether this channel has a socket.
    pub open spec fn is_open(&self) -> bool {
        self.opening() is Ok
    }

    /// Tells what came of opening the socket of this channel.
    pub fn opened(&self) -> (r: IoResult<()>)
        ensures
            r == self.opening(),
    {
        match &self.socket {
            Ok(_) => Ok(()),
            Err(e) => Err(*e),
        }
    }

    /// A channel around `socket`, through which nothing has been asked of it yet.
    pub fn new(socket: S) -> (c: Channel<S>)
        ensures
            c.socket() == Some(socket),
            c.is_open(),
            c.calls() == Seq::<SocketCall>::empty(),
    {
        Channel { socket: Ok(socket), log: Ghost(Seq::empty()) }
    }

    /// Asks for a UDP datagram socket, and records whether there is one now.
    pub fn open_udp_send_socket_ipv4(raw: bool) -> (c: Channel<S>)
        ensures
            c.calls() == seq![SocketCall::Opened(c.opening())],
    {
        let socket = S::new_udp_send_socket_ipv4(raw);
        let ghost answer: IoResult<()> = match socket {
            Ok(_) => Ok(()),
            Err(e) => Err(e),
        };
        let ghost record = Seq::<SocketCall>::empty().push(SocketCall::Opened(answer));
        assert(record =~= seq![SocketCall::Opened(answer)]);
        Channel { socket, log: Ghost(record) }
    }

    /// Asks for a non-blocking TCP socket, and records whether there is one now.
    pub fn open_stream_socket_ipv4() -> (c: Channel<S>)
        ensures
            c.calls() == seq![SocketCall::Opened(c.opening())],
    {
        let socket = S::new_stream_socket_ipv4();
        let ghost answer: IoResult<()> = match socket {
            Ok(_) => Ok(()),
            Err(e) => Err(e),
        };
        let ghost record = Seq::<SocketCall>::empty().push(SocketCall::Opened(answer));
        assert(record =~= seq![SocketCall::Opened(answer)]);
        Channel { socket, log: Ghost(record) }
    }

    /// The socket of this channel, if there is one.
    pub fn get_ref(&self) -> (r: Option<&S>)
        ensures
            r is Some <==> self.is_open(),
            r is Some ==> Some(*r->Some_0) == self.socket(),
    {
        match &self.socket {
            Ok(socket) => Some(socket),
            Err(_) => None,
        }
    }

    /// Gives the socket back, if there is one.
    pub fn into_inner(self) -> (r: Option<S>)
        ensures
            r == self.socket(),
    {
        match self.socket {
            Ok(socket) => Some(socket),
            Err(_) => None,
        }
    }

    /// Closes `other`, a socket that was opened beside this one, and keeps its record.
    pub fn close(&mut self, other: Channel<S>)
        ensures
            final(self).calls() == old(self).calls().push(SocketCall::Beside(other.calls())),
            final(self).opening() == old(self).opening(),
    {
        proof {
            self.log@ = self.log@.push(SocketCall::Beside(other.calls()));
        }
    }

    /// Asks the socket to bind to `addr`, and records it with the answer.
    pub fn bind(&mut self, addr: SocketAddr) -> (r: IoResult<()>)
        ensures
            final(self).calls() == old(self).calls().push(SocketCall::Bind(addr, r)),
            final(self).opening() == old(self).opening(),
    {
        let r = match &mut self.socket {
            Ok(socket) => socket.bind(addr),
            Err(e) => Err(*e),
        };
        proof {
            self.log@ = self.log@.push(SocketCall::Bind(addr, r));
        }
        r
    }

    /// Asks the socket to send with the hop limit `ttl`, and records it with the answer.
    pub fn set_ttl(&mut self, ttl: u32) -> (r: IoResult<()>)
        ensures
            final(self).calls() == old(self).calls().push(SocketCall::SetTtl(ttl, r)),
            final(self).opening() == old(self).opening(),
    {
        let r = match &mut self.socket {
            Ok(socket) => socket.set_ttl(ttl),
            Err(e) => Err(*e),
        };
        proof {
            self.log@ = self.log@.push(SocketCall::SetTtl(ttl, r));
        }
        r
    }

    /// Asks the socket to send with the type of service `tos`, and records it with the
    /// answer.
    pub fn set_tos(&mut self, tos: u32) -> (r: IoResult<()>)
        ensures
            final(self).calls() == old(self).calls().push(SocketCall::SetTos(tos, r)),
            final(self).opening() == old(self).opening(),
    {
        let r = match &mut self.socket {
            Ok(socket) => socket.set_tos(tos),
            Err(e) => Err(*e),
        };
        proof {
            self.log@ = self.log@.push(SocketCall::SetTos(tos, r));
        }
        r
    }

    /// Asks the socket to connect to `addr`, and records it with the answer.
    pub fn connect(&mut self, addr: SocketAddr) -> (r: IoResult<()>)
        ensures
            final(self).calls() == old(self).calls().push(SocketCall::Connect(addr, r)),
            final(self).opening() == old(self).opening(),
    {
        let r = match &mut self.socket {
            Ok(socket) => socket.connect(addr),
            Err(e) => Err(*e),
        };
        proof {
            self.log@ = self.log@.push(SocketCall::Connect(addr, r));
        }
        r
    }

    /// Hands `buf` to the socket to be sent to `addr`, and records it with the answer.
    pub fn send_to(&mut self, buf: &[u8], addr: SocketAddr) -> (r: IoResult<()>)
        ensures
            final(self).calls() == old(self).calls().push(SocketCall::SendTo(buf@, addr, r)),
            final(self).opening() == old(self).opening(),
    {
        let r = match &mut self.socket {
            Ok(socket) => socket.send_to(buf, addr),
            Err(e) => Err(*e),
        };
        proof {
            self.log@ = self.log@.push(SocketCall::SendTo(buf@, addr, r));
        }
        r
    }

    /// Asks the socket to read one datagram into `buf`, and records the buffer as the socket
    /// left it together with its answer.
    pub fn read(&mut self, buf: &mut [u8]) -> (r: IoResult<usize>)
        ensures
            final(self).calls() == old(self).calls().push(SocketCall::Read(final(buf)@, r)),
            final(self).opening() == old(self).opening(),
    {
        let r = match &mut self.socket {
            Ok(socket) => socket.read(buf),
            Err(e) => Err(*e),
        };
        proof {
            self.log@ = self.log@.push(SocketCall::Read(buf@, r));
        }
        r
    }

    /// Asks the socket for its queued failure, and records the answer.
    pub fn take_error(&mut self) -> (r: IoResult<Option<SocketError>>)
        ensures
            final(self).calls() == old(self).calls().push(SocketCall::TakeError(r)),
            final(self).opening() == old(self).opening(),
    {
        let r = match &mut self.socket {
            Ok(socket) => socket.take_error(),
            Err(e) => Err(*e),
        };
        proof {
            self.log@ = self.log@.push(SocketCall::TakeError(r));
        }
        r
    }

    /// Asks the socket for its peer, and records the answer.
    pub fn peer_addr(&mut self) -> (r: IoResult<Option<SocketAddr>>)
        ensures
            final(self).calls() == old(self).calls().push(SocketCall::PeerAddr(r)),
            final(self).opening() == old(self).opening(),
    {
        let r = match &mut self.socket {
            Ok(socket) => socket.peer_addr(),
            Err(e) => Err(*e),
        };
        proof {
            self.log@ = self.log@.push(SocketCall::PeerAddr(r));
        }
        r
    }

    /// Asks the socket to shut down, and records the answer.
    pub fn shutdown(&mut self) -> (r: IoResult<()>)
        ensures
            final(self).calls() == old(self).calls().push(SocketCall::Shutdown(r)),
            final(self).opening() == old(self).opening(),
    {
        let r = match &mut self.socket {
            Ok(socket) => socket.shutdown(),
            Err(e) => Err(*e),
        };
        proof {
            self.log@ = self.log@.push(SocketCall::Shutdown(r));
        }
        r
    }

    /// Asks the socket for the router whose ICMP error made a connection attempt fail, and
    /// records the answer.
    pub fn icmp_error_info(&mut self) -> (r: IoResult<IpAddr>)
        ensures
            final(self).calls() == old(self).calls().push(SocketCall::RouterAddr(r)),
            final(self).opening() == old(self).opening(),
    {
        let r = match &mut self.socket {
            Ok(socket) => socket.icmp_error_info(),
            Err(e) => Err(*e),
        };
        proof {
            self.log@ = self.log@.push(SocketCall::RouterAddr(r));
        }
        r
    }
}

} // verus!
