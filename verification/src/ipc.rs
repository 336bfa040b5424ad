//! Inter-process communication: connections that carry bytes, messages that
//! travel over them, and the byte order of IPv4 socket addresses.
use std::io::Error;
use std::marker::PhantomData;
use vstd::prelude::*;

verus! {

/// A TCP port number.
pub type TcpPort = u16;

/// `std::io::Error`, opaque to the verifier.
#[verifier::external_type_specification]
#[verifier::external_body]
pub struct ExIoError(Error);

/// Calls `std::io::Error::from(std::io::ErrorKind::InvalidData)`: the error
/// for bytes that do not encode a message.
#[verifier::external_body]
pub(crate) fn invalid_data_error() -> Error {
    Error::from(std::io::ErrorKind::InvalidData)
}

/// A byte transport where a read may come back empty.
pub trait IPC {
    fn read(&mut self) -> Vec<u8>;
    fn send(&mut self, msg: &Vec<u8>);
    fn restart(&mut self);
}

/// A connection that carries bytes; both directions may fail.
///
/// `sent` is the history of the frames handed to `send`, oldest first. An
/// implementation meets `send`'s contract only by defining it. The default,
/// an always empty history, exists so that implementations outside the
/// verifier (the program's socket connection) compile; they do not meet that
/// contract and nothing holds them to it.
pub trait Connection {
    closed spec fn sent(&self) -> Seq<Seq<u8>> {
        Seq::empty()
    }

    fn read(&mut self) -> Result<Vec<u8>, Error>;

    fn send(&mut self, msg: &[u8]) -> (r: Result<(), Error>)
        ensures
            final(self).sent() == old(self).sent().push(msg@),
    ;
}

/// A server that hands out the connections made to it.
pub trait Server<C: Connection> {
    fn poll_connection(&mut self) -> Option<C>;
}

/// A message with a byte encoding.
///
/// `encode` is what `serialize` writes; `decode` is what `deserialize` reads
/// back from bytes for which `decodable` holds.
pub trait Message: Sized + View {
    spec fn encode(msg: Self::V) -> Seq<u8>;

    spec fn decodable(msg: Seq<u8>) -> bool;

    spec fn decode(msg: Seq<u8>) -> Self::V;

    fn serialize(&self) -> (r: Vec<u8>)
        ensures
            r@ == Self::encode(self@),
    ;

    fn is_decodable(msg: &[u8]) -> (r: bool)
        ensures
            r == Self::decodable(msg@),
    ;

    fn deserialize(msg: &[u8]) -> (r: Self)
        requires
            Self::decodable(msg@),
        ensures
            r@ == Self::decode(msg@),
    ;
}

/// Why a frame read from a connection does not give a message.
#[derive(Debug, Clone, Copy, PartialEq, Eq)]
pub enum FrameError {
    /// The bytes do not encode a message.
    Undecodable,
}

/// The message in a frame of bytes: `None` for an empty frame (the peer
/// closed the connection), the decoded message otherwise.
pub fn decode_frame<TMsg: Message>(bytes: &[u8]) -> (r: Result<Option<TMsg>, FrameError>)
    ensures
        bytes@.len() == 0 ==> r == Ok::<Option<TMsg>, FrameError>(None),
        bytes@.len() > 0 && TMsg::decodable(bytes@) ==> (r matches Ok(Some(m)) && m@ == TMsg::decode(
            bytes@,
        )),
        bytes@.len() > 0 && !TMsg::decodable(bytes@) ==> r == Err::<Option<TMsg>, FrameError>(
            FrameError::Undecodable,
        ),
{
    if bytes.len() == 0 {
        Ok(None)
    } else if TMsg::is_decodable(bytes) {
        Ok(Some(TMsg::deserialize(bytes)))
    } else {
        Err(FrameError::Undecodable)
    }
}

/// A frame holding the encoding of a message that reads back as itself is
/// read back as that message: what `send_message` hands the connection is
/// what `read_message` at the other end gives.
pub proof fn lemma_sent_frame_reads_back<TMsg: Message>(v: TMsg::V, r: Result<Option<TMsg>, Error>)
    requires
        TMsg::encode(v).len() > 0,
        TMsg::decodable(TMsg::encode(v)),
        TMsg::decode(TMsg::encode(v)) == v,
        frame_message::<TMsg>(TMsg::encode(v), r),
    ensures
        r matches Ok(Some(m)) && m@ == v,
{
}

/// The result of a read, with the bytes by their view.
pub open spec fn read_view(res: Result<Vec<u8>, Error>) -> Result<Seq<u8>, Error> {
    match res {
        Ok(b) => Ok(b@),
        Err(e) => Err(e),
    }
}

/// What reading a frame of `bytes` gives: `None` for an empty frame, the
/// decoded message for bytes that encode one, an error otherwise.
pub open spec fn frame_message<TMsg: Message>(bytes: Seq<u8>, r: Result<Option<TMsg>, Error>) -> bool {
    if bytes.len() == 0 {
        r == Ok::<Option<TMsg>, Error>(None)
    } else if TMsg::decodable(bytes) {
        r matches Ok(Some(m)) && m@ == TMsg::decode(bytes)
    } else {
        r is Err
    }
}

/// Messages of type `TMsg` over a connection.
pub struct MessageConnection<TMsg: Message, TConnection: Connection> {
    ipc: TConnection,
    _phantom_msg: PhantomData<TMsg>,
    read_results: Ghost<Seq<Result<Seq<u8>, Error>>>,
}

impl<TMsg: Message, TConnection: Connection> MessageConnection<TMsg, TConnection> {
    pub closed spec fn connection(&self) -> TConnection {
        self.ipc
    }

    /// What the reads of the connection gave so far, oldest first: the bytes
    /// of each frame, or the read's error.
    pub closed spec fn reads(&self) -> Seq<Result<Seq<u8>, Error>> {
        self.read_results@
    }

    pub fn new(connection: TConnection) -> (r: Self)
        ensures
            r.connection() == connection,
            r.reads().len() == 0,
    {
        MessageConnection { ipc: connection, _phantom_msg: PhantomData, read_results: Ghost(Seq::empty()) }
    }

    /// Reads one frame and gives its message (see `frame_message`):
    /// `Ok(None)` means the peer closed the connection, and bytes that do not
    /// encode a message give an `InvalidData` error. A failed read gives its
    /// own error.
    pub fn read_message(&mut self) -> (r: Result<Option<TMsg>, Error>)
        ensures
            ({
                let before = old(self).reads();
                let after = final(self).reads();
                &&& after.len() == before.len() + 1
                &&& after.drop_last() == before
                &&& after.last() matches Err(e) ==> r == Err::<Option<TMsg>, Error>(e)
                &&& after.last() matches Ok(b) ==> frame_message::<TMsg>(b, r)
            }),
    {
        let res = self.ipc.read();
        self.read_results = Ghost(self.read_results@.push(read_view(res)));
        match res {
            Err(e) => Err(e),
            Ok(bytes) => match decode_frame::<TMsg>(bytes.as_slice()) {
                Ok(m) => Ok(m),
                Err(FrameError::Undecodable) => Err(invalid_data_error()),
            },
        }
    }

    /// Sends one message: the connection is handed exactly one frame, the
    /// message's encoding.
    pub fn send_message(&mut self, message: &TMsg) -> (r: Result<(), Error>)
        ensures
            final(self).connection().sent() == old(self).connection().sent().push(TMsg::encode(message@)),
            final(self).reads() == old(self).reads(),
    {
        let bytes = message.serialize();
        self.ipc.send(bytes.as_slice())
    }
}

/// The bytes of a `u32`, least significant first.
pub open spec fn byte_of(x: int, k: int) -> int {
    (x / pow256(k)) % 256
}

pub open spec fn pow256(k: int) -> int {
    if k == 0 {
        1
    } else if k == 1 {
        256
    } else if k == 2 {
        65536
    } else {
        16777216
    }
}

/// A `u32` with its four bytes in the opposite order.
pub open spec fn swap_bytes_u32(x: u32) -> int {
    byte_of(x as int, 0) * 16777216 + byte_of(x as int, 1) * 65536 + byte_of(x as int, 2) * 256
        + byte_of(x as int, 3)
}

/// A `u16` with its two bytes in the opposite order.
pub open spec fn swap_bytes_u16(x: u16) -> int {
    (x as int % 256) * 256 + x as int / 256
}

/// Calls `libc::htonl`: `x` in network (big-endian) byte order, which is
/// `x` itself on a big-endian machine and `x` with its bytes swapped on a
/// little-endian one.
#[verifier::external_body]
pub(crate) fn network_u32_from_host(x: u32) -> (r: u32)
    ensures
        r == x || r == swap_bytes_u32(x),
{
    libc::htonl(x)
}

/// Calls `libc::ntohl`: `x` read from network byte order, `x` itself on a
/// big-endian machine and `x` with its bytes swapped on a little-endian one.
#[verifier::external_body]
pub(crate) fn host_u32_from_network(x: u32) -> (r: u32)
    ensures
        r == x || r == swap_bytes_u32(x),
{
    libc::ntohl(x)
}

/// Calls `libc::htons`: `x` in network byte order (see
/// `network_u32_from_host`).
#[verifier::external_body]
pub(crate) fn network_u16_from_host(x: u16) -> (r: u16)
    ensures
        r == x || r == swap_bytes_u16(x),
{
    libc::htons(x)
}

/// Calls `libc::ntohs`: `x` read from network byte order (see
/// `host_u32_from_network`).
#[verifier::external_body]
pub(crate) fn host_u16_from_network(x: u16) -> (r: u16)
    ensures
        r == x || r == swap_bytes_u16(x),
{
    libc::ntohs(x)
}

/// The value of an IPv4 address with the octets `a.b.c.d`, `a` most
/// significant.
pub open spec fn ipv4_bits(octets: [u8; 4]) -> int {
    octets[0] as int * 16777216 + octets[1] as int * 65536 + octets[2] as int * 256 + octets[3] as int
}

/// The `s_addr` of the `in_addr` for the IPv4 address `octets`: its value,
/// in network byte order.
pub fn in_addr_from_ipv4_octets(octets: [u8; 4]) -> (r: u32)
    ensures
        r == ipv4_bits(octets) || r == swap_bytes_u32(ipv4_bits(octets) as u32),
{
    let bits: u32 = octets[0] as u32 * 16777216 + octets[1] as u32 * 65536 + octets[2] as u32 * 256
        + octets[3] as u32;
    network_u32_from_host(bits)
}

/// The bits of the IPv4 address in an `in_addr` whose `s_addr` is `s_addr`
/// (which is in network byte order), most significant octet first.
pub fn ipv4_bits_from_in_addr(s_addr: u32) -> (r: u32)
    ensures
        r == s_addr || r == swap_bytes_u32(s_addr),
{
    host_u32_from_network(s_addr)
}

/// The `sin_port` of a `sockaddr_in` for `port`: the port in network byte
/// order.
pub fn sockaddr_port(port: TcpPort) -> (r: u16)
    ensures
        r == port || r == swap_bytes_u16(port),
{
    network_u16_from_host(port)
}

/// The port of a `sockaddr_in` whose `sin_port` is `sin_port`.
pub fn port_from_sockaddr(sin_port: u16) -> (r: TcpPort)
    ensures
        r == sin_port || r == swap_bytes_u16(sin_port),
{
    host_u16_from_network(sin_port)
}

} // verus!
