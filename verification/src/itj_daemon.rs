//! A minimal daemon framework: a stand-in transport, the message format
//! contract of a daemon, and its client and server.
use crate::ipc::TcpPort;
use std::marker::PhantomData;
use vstd::prelude::*;

verus! {

/// A byte transport where a read may come back empty.
pub trait IPC1 {
    fn read(&mut self) -> Vec<u8>;
    fn send(&mut self, msg: &Vec<u8>);
}

/// A stand-in transport: it discards what it is sent, and its reads replay a
/// fixed script driven by a counter that cycles through 0 to 7 — a read
/// that lands on 0 yields `[0]`, one that lands on 3 yields `[1]`, the others
/// yield nothing. It records, as ghost state, the messages it is sent.
pub struct IPCNC {
    counter: u8,
    sent: Ghost<Seq<Seq<u8>>>,
}

/// The counter after one more read.
pub open spec fn next_counter(counter: u8) -> u8 {
    if counter as int + 1 > 7 { 0 } else { (counter + 1) as u8 }
}

/// What a read yields when the counter lands on `counter`.
pub open spec fn scripted_reply(counter: u8) -> Seq<u8> {
    if counter == 0 {
        seq![0u8]
    } else if counter == 3 {
        seq![1u8]
    } else {
        seq![]
    }
}

impl IPCNC {
    pub closed spec fn counter_view(&self) -> u8 {
        self.counter
    }

    /// The messages sent so far, oldest first.
    pub closed spec fn sent_view(&self) -> Seq<Seq<u8>> {
        self.sent@
    }

    /// A transport for `port`; its counter starts at 30.
    pub fn new(_port: TcpPort) -> (r: Self)
        ensures
            r.counter_view() == 30,
            r.sent_view().len() == 0,
    {
        IPCNC { counter: 30, sent: Ghost(Seq::empty()) }
    }

    /// Takes a message and drops it, recording it as sent.
    pub fn discard(&mut self, msg: &Vec<u8>)
        ensures
            final(self).counter_view() == old(self).counter_view(),
            final(self).sent_view() == old(self).sent_view().push(msg@),
    {
        self.sent = Ghost(self.sent@.push(msg@));
    }

    /// One scripted read.
    pub fn read_scripted(&mut self) -> (r: Vec<u8>)
        ensures
            final(self).counter_view() == next_counter(old(self).counter_view()),
            r@ == scripted_reply(final(self).counter_view()),
            final(self).sent_view() == old(self).sent_view(),
    {
        let counter: u8 = if self.counter >= 7 { 0 } else { self.counter + 1 };
        self.counter = counter;
        if counter == 0 {
            let mut v: Vec<u8> = Vec::new();
            v.push(0);
            assert(v@ =~= seq![0u8]);
            v
        } else if counter == 3 {
            let mut v: Vec<u8> = Vec::new();
            v.push(1);
            assert(v@ =~= seq![1u8]);
            v
        } else {
            let v: Vec<u8> = Vec::new();
            assert(v@ =~= Seq::<u8>::empty());
            v
        }
    }
}

/// Eight reads bring the counter of the stand-in transport back to where it
/// was, once it is in its cycle.
pub proof fn lemma_counter_period(c: u8)
    requires
        c <= 7,
    ensures
        next_counter(next_counter(next_counter(next_counter(next_counter(next_counter(next_counter(
            next_counter(c),
        ))))))) == c,
{
}

impl IPC1 for IPCNC {
    /// One scripted read, as `read_scripted`.
    fn read(&mut self) -> (r: Vec<u8>)
        ensures
            final(self).counter_view() == next_counter(old(self).counter_view()),
            r@ == scripted_reply(final(self).counter_view()),
            final(self).sent_view() == old(self).sent_view(),
    {
        self.read_scripted()
    }

    /// Discards the message (recording it).
    fn send(&mut self, msg: &Vec<u8>)
        ensures
            final(self).counter_view() == old(self).counter_view(),
            final(self).sent_view() == old(self).sent_view().push(msg@),
    {
        self.discard(msg)
    }
}

/// The message format and handling of a daemon.
///
/// `encode` is what `serialize` writes; `decode` is what `deserialize` reads
/// back from bytes for which `decodable` holds. `process` handles a message
/// and returns the lines the daemon prints for it, which are `lines`.
pub trait DaemonDPK<TMsg: View> {
    spec fn lines(msg: TMsg::V) -> Seq<Seq<char>>;

    spec fn encode(msg: TMsg::V) -> Seq<u8>;

    spec fn decodable(msg: Seq<u8>) -> bool;

    spec fn decode(msg: Seq<u8>) -> TMsg::V;

    fn serialize(msg: &TMsg) -> (r: Vec<u8>)
        ensures
            r@ == Self::encode(msg@),
    ;

    fn is_decodable(msg: &[u8]) -> (r: bool)
        ensures
            r == Self::decodable(msg@),
    ;

    fn deserialize(msg: &[u8]) -> (r: TMsg)
        requires
            Self::decodable(msg@),
        ensures
            r@ == Self::decode(msg@),
    ;

    fn process(msg: &TMsg) -> (r: Vec<String>)
        ensures
            r@.map_values(|l: String| l@) == Self::lines(msg@),
    ;
}

/// Builds clients.
pub struct ClientBuilder<TMsg: View, TDPK: DaemonDPK<TMsg>> {
    _phantom_tdpk: PhantomData<TDPK>,
    _phantom_tmsg: PhantomData<TMsg>,
}

/// Sends messages to a daemon over the stand-in transport.
pub struct Client<TMsg: View, TDPK: DaemonDPK<TMsg>> {
    ipc: IPCNC,
    _phantom_tdpk: PhantomData<TDPK>,
    _phantom_tmsg: PhantomData<TMsg>,
}

impl<TMsg: View, TDPK: DaemonDPK<TMsg>> Client<TMsg, TDPK> {
    /// The counter of the client's transport.
    pub closed spec fn transport_counter(&self) -> u8 {
        self.ipc.counter_view()
    }

    /// What the client has sent over its transport, oldest first.
    pub closed spec fn transport_sent(&self) -> Seq<Seq<u8>> {
        self.ipc.sent_view()
    }
}

impl<TMsg: View, TDPK: DaemonDPK<TMsg>> ClientBuilder<TMsg, TDPK> {
    pub fn new() -> Self {
        ClientBuilder { _phantom_tdpk: PhantomData, _phantom_tmsg: PhantomData }
    }

    /// A client over a new stand-in transport.
    pub fn build(&self) -> (r: Client<TMsg, TDPK>)
        ensures
            r.transport_counter() == 30,
    {
        Client { ipc: IPCNC::new(123), _phantom_tdpk: PhantomData, _phantom_tmsg: PhantomData }
    }
}

impl<TMsg: View, TDPK: DaemonDPK<TMsg>> Client<TMsg, TDPK> {
    /// A client over a new stand-in transport.
    pub fn new(port: TcpPort) -> (r: Self)
        ensures
            r.transport_counter() == 30,
    {
        Client { ipc: IPCNC::new(port), _phantom_tdpk: PhantomData, _phantom_tmsg: PhantomData }
    }

    /// Sends the encoding of `message`; the stand-in transport discards it.
    pub fn send_message(&mut self, message: &TMsg)
        ensures
            final(self).transport_counter() == old(self).transport_counter(),
            final(self).transport_sent() == old(self).transport_sent().push(TDPK::encode(message@)),
    {
        let bytes = TDPK::serialize(message);
        self.ipc.send(&bytes);
    }
}

/// What one read of a daemon's server gives.
pub enum ServerPoll {
    /// Nothing was waiting.
    Idle,
    /// A message was read and processed; these are the lines it printed.
    Processed(Vec<String>),
    /// The bytes read do not encode a message.
    Undecodable,
}

/// What a server makes of the bytes of one read: nothing for no bytes, the
/// lines printed for the message they encode, or an error.
pub open spec fn poll_outcome<TMsg: View, TDPK: DaemonDPK<TMsg>>(bytes: Seq<u8>, r: ServerPoll) -> bool {
    if bytes.len() == 0 {
        r is Idle
    } else if !TDPK::decodable(bytes) {
        r is Undecodable
    } else {
        r matches ServerPoll::Processed(lines) && lines@.map_values(|l: String| l@) == TDPK::lines(
            TDPK::decode(bytes),
        )
    }
}

/// Builds servers.
pub struct ServerBuilder<TMsg: View, TDPK: DaemonDPK<TMsg>> {
    _phantom_tdpk: PhantomData<TDPK>,
    _phantom_tmsg: PhantomData<TMsg>,
}

/// Reads messages from the stand-in transport and processes them.
pub struct Server<TMsg: View, TDPK: DaemonDPK<TMsg>> {
    ipc: IPCNC,
    _phantom_tdpk: PhantomData<TDPK>,
    _phantom_tmsg: PhantomData<TMsg>,
}

impl<TMsg: View, TDPK: DaemonDPK<TMsg>> Server<TMsg, TDPK> {
    /// The counter of the server's transport.
    pub closed spec fn transport_counter(&self) -> u8 {
        self.ipc.counter_view()
    }
}

impl<TMsg: View, TDPK: DaemonDPK<TMsg>> ServerBuilder<TMsg, TDPK> {
    pub fn new() -> Self {
        ServerBuilder { _phantom_tdpk: PhantomData, _phantom_tmsg: PhantomData }
    }

    /// A server over a new stand-in transport.
    pub fn build(&self) -> (r: Server<TMsg, TDPK>)
        ensures
            r.transport_counter() == 30,
    {
        Server { ipc: IPCNC::new(123), _phantom_tdpk: PhantomData, _phantom_tmsg: PhantomData }
    }
}

/// The step a server takes on the bytes of one read.
pub fn server_step<TMsg: View, TDPK: DaemonDPK<TMsg>>(bytes: &[u8]) -> (r: ServerPoll)
    ensures
        poll_outcome::<TMsg, TDPK>(bytes@, r),
{
    if bytes.len() == 0 {
        ServerPoll::Idle
    } else if !TDPK::is_decodable(bytes) {
        ServerPoll::Undecodable
    } else {
        let msg = TDPK::deserialize(bytes);
        ServerPoll::Processed(TDPK::process(&msg))
    }
}

impl<TMsg: View, TDPK: DaemonDPK<TMsg>> Server<TMsg, TDPK> {
    /// A server over a new stand-in transport.
    pub fn new(port: TcpPort) -> (r: Self)
        ensures
            r.transport_counter() == 30,
    {
        Server { ipc: IPCNC::new(port), _phantom_tdpk: PhantomData, _phantom_tmsg: PhantomData }
    }

    /// Reads from the transport until a read comes back empty, handling
    /// each message read; returns what each non-empty read gave. With the
    /// stand-in transport that is at most one message: a read that yields
    /// bytes is always followed by one that yields none.
    pub fn poll(&mut self) -> (r: Vec<ServerPoll>)
        ensures
            ({
                let c1 = next_counter(old(self).transport_counter());
                if scripted_reply(c1).len() == 0 {
                    &&& final(self).transport_counter() == c1
                    &&& r@.len() == 0
                } else {
                    &&& final(self).transport_counter() == next_counter(c1)
                    &&& r@.len() == 1
                    &&& poll_outcome::<TMsg, TDPK>(scripted_reply(c1), r@[0])
                }
            }),
    {
        let ghost c1 = next_counter(self.ipc.counter_view());
        let mut outcomes: Vec<ServerPoll> = Vec::new();
        let mut bytes = self.ipc.read_scripted();
        while bytes.len() > 0
            invariant
                bytes@ == scripted_reply(self.ipc.counter_view()),
                outcomes@.len() <= 1,
                outcomes@.len() == 0 ==> self.ipc.counter_view() == c1,
                outcomes@.len() == 1 ==> {
                    &&& self.ipc.counter_view() == next_counter(c1)
                    &&& scripted_reply(c1).len() > 0
                    &&& poll_outcome::<TMsg, TDPK>(scripted_reply(c1), outcomes@[0])
                    &&& bytes@.len() == 0
                },
            decreases bytes@.len(),
        {
            outcomes.push(server_step::<TMsg, TDPK>(bytes.as_slice()));
            bytes = self.ipc.read_scripted();
        }
        outcomes
    }

    /// Reads once from the transport and handles what came.
    pub fn poll_once(&mut self) -> (r: ServerPoll)
        ensures
            final(self).transport_counter() == next_counter(old(self).transport_counter()),
            poll_outcome::<TMsg, TDPK>(scripted_reply(final(self).transport_counter()), r),
    {
        let bytes = self.ipc.read_scripted();
        server_step::<TMsg, TDPK>(bytes.as_slice())
    }
}

} // verus!
