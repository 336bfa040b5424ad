//! A request/response daemon protocol: how messages become bytes, how a
//! daemon answers them, and a client that sends one request and reads the
//! reply.
use crate::ipc::{TcpPort, IPC};
use crate::itj_daemon::{next_counter, scripted_reply, IPCNC};
use std::marker::PhantomData;
use vstd::prelude::*;

verus! {

/// The byte encoding of the messages of type `TMsg`.
///
/// `encode` is what `serialize` writes; `decode` is what `deserialize` reads
/// back from bytes for which `decodable` holds.
pub trait MessageSerializer<TMsg: View> {
    spec fn encode(msg: TMsg::V) -> Seq<u8>;

    spec fn decodable(msg: Seq<u8>) -> bool;

    spec fn decode(msg: Seq<u8>) -> TMsg::V;

    fn serialize(msg: &TMsg) -> (r: Vec<u8>)
        ensures
            r@ == Self::encode(msg@),
    ;

    fn is_decodable(msg: &[u8]) -> (r: bool)
        ensures
            r == Self::decodable(msg@),
    ;

    fn deserialize(msg: &[u8]) -> (r: TMsg)
        requires
            Self::decodable(msg@),
        ensures
            r@ == Self::decode(msg@),
    ;
}

/// What a daemon does with a request: it answers it, possibly changing its
/// own state. Only the requests for which `accepts` holds are answered.
pub trait MessageProcessor<TMsg: View> {
    spec fn accepts(&self, msg: TMsg::V) -> bool;

    fn can_process(&self, msg: &TMsg) -> (r: bool)
        ensures
            r == self.accepts(msg@),
    ;

    fn process(&mut self, msg: &TMsg) -> TMsg
        requires
            old(self).accepts(msg@),
    ;
}

/// A client that sends a request to a daemon over the stand-in transport
/// and reads its reply.
pub struct Client<TMsg: View, TSerializer: MessageSerializer<TMsg>> {
    ipc: IPCNC,
    _phantom_tdpk: PhantomData<TSerializer>,
    _phantom_tmsg: PhantomData<TMsg>,
}

impl<TMsg: View, TSerializer: MessageSerializer<TMsg>> Client<TMsg, TSerializer> {
    /// The counter of the client's transport.
    pub closed spec fn transport_counter(&self) -> u8 {
        self.ipc.counter_view()
    }

    /// What the client has sent over its transport, oldest first.
    pub closed spec fn transport_sent(&self) -> Seq<Seq<u8>> {
        self.ipc.sent_view()
    }

    /// Sends `message` and reads the reply: the message the bytes of the
    /// next read encode, or `None` when they encode none.
    pub fn send_message(&mut self, message: &TMsg) -> (r: Option<TMsg>)
        ensures
            final(self).transport_counter() == next_counter(old(self).transport_counter()),
            final(self).transport_sent() == old(self).transport_sent().push(TSerializer::encode(message@)),
            ({
                let reply = scripted_reply(final(self).transport_counter());
                &&& TSerializer::decodable(reply) ==> (r matches Some(m) && m@ == TSerializer::decode(
                    reply,
                ))
                &&& !TSerializer::decodable(reply) ==> r is None
            }),
    {
        let bytes = TSerializer::serialize(message);
        self.ipc.send(&bytes);
        let response_bytes = self.ipc.read();
        if TSerializer::is_decodable(response_bytes.as_slice()) {
            Some(TSerializer::deserialize(response_bytes.as_slice()))
        } else {
            None
        }
    }

    /// A client of the daemon on `server_port`, over a new stand-in
    /// transport.
    pub fn new(server_port: TcpPort) -> (r: Self)
        ensures
            r.transport_counter() == 30,
            r.transport_sent().len() == 0,
    {
        Client { ipc: IPCNC::new(server_port), _phantom_tdpk: PhantomData, _phantom_tmsg: PhantomData }
    }
}

impl IPC for IPCNC {
    /// One scripted read, as `read_scripted`.
    fn read(&mut self) -> (r: Vec<u8>)
        ensures
            final(self).counter_view() == next_counter(old(self).counter_view()),
            r@ == scripted_reply(final(self).counter_view()),
            final(self).sent_view() == old(self).sent_view(),
    {
        self.read_scripted()
    }

    /// Discards the message (recording it).
    fn send(&mut self, msg: &Vec<u8>)
        ensures
            final(self).counter_view() == old(self).counter_view(),
            final(self).sent_view() == old(self).sent_view().push(msg@),
    {
        self.discard(msg)
    }

    /// Nothing to restart.
    fn restart(&mut self) {
    }
}

} // verus!
