//! The hello-world daemon: its messages, their byte format, and how the
//! daemon answers them.
use crate::daemon::{MessageProcessor, MessageSerializer};
use crate::ipc::{frame_message, lemma_sent_frame_reads_back, Message};
use crate::text::{append_bytes, str_from_utf8};
use vstd::prelude::*;
use vstd::utf8::*;

verus! {

broadcast use vstd::utf8::group_utf8_lib;

/// A request to the daemon, or its reply.
#[derive(Debug, PartialEq, Eq)]
pub enum DaemonDemoMsg {
    Greet(String),
    SetServerName(String),
    GreetingResponse(String),
    Ack,
}

/// The messages of the hello-world daemon as its client and server speak
/// them over a connection.
pub type HelloWorldMessage = DaemonDemoMsg;

/// The mathematical value of a message.
pub enum DemoMsgView {
    Greet(Seq<char>),
    SetServerName(Seq<char>),
    GreetingResponse(Seq<char>),
    Ack,
}

impl View for DaemonDemoMsg {
    type V = DemoMsgView;

    open spec fn view(&self) -> DemoMsgView {
        match self {
            DaemonDemoMsg::Greet(s) => DemoMsgView::Greet(s@),
            DaemonDemoMsg::SetServerName(s) => DemoMsgView::SetServerName(s@),
            DaemonDemoMsg::GreetingResponse(s) => DemoMsgView::GreetingResponse(s@),
            DaemonDemoMsg::Ack => DemoMsgView::Ack,
        }
    }
}

/// The bytes of a message: a type byte (0 greet, 1 set the server name,
/// 2 greeting response, 3 acknowledgement) followed by the UTF-8 of its text.
pub open spec fn demo_encode(m: DemoMsgView) -> Seq<u8> {
    match m {
        DemoMsgView::Greet(s) => seq![0u8] + encode_utf8(s),
        DemoMsgView::SetServerName(s) => seq![1u8] + encode_utf8(s),
        DemoMsgView::GreetingResponse(s) => seq![2u8] + encode_utf8(s),
        DemoMsgView::Ack => seq![3u8],
    }
}

/// Whether bytes encode a message: a known type byte followed by valid
/// UTF-8.
pub open spec fn demo_decodable(msg: Seq<u8>) -> bool {
    &&& msg.len() >= 1
    &&& msg[0] <= 3
    &&& valid_utf8(msg.subrange(1, msg.len() as int))
}

/// The message that bytes encode. An acknowledgement ignores any text.
pub open spec fn demo_decode(msg: Seq<u8>) -> DemoMsgView {
    let text = decode_utf8(msg.subrange(1, msg.len() as int));
    if msg[0] == 0 {
        DemoMsgView::Greet(text)
    } else if msg[0] == 1 {
        DemoMsgView::SetServerName(text)
    } else if msg[0] == 2 {
        DemoMsgView::GreetingResponse(text)
    } else {
        DemoMsgView::Ack
    }
}

/// Decoding the bytes of a message gives the message back.
pub proof fn lemma_demo_round_trip(m: DemoMsgView)
    ensures
        demo_decodable(demo_encode(m)),
        demo_decode(demo_encode(m)) == m,
{
    let e = demo_encode(m);
    match m {
        DemoMsgView::Greet(s) => {
            assert(e.subrange(1, e.len() as int) =~= encode_utf8(s));
        },
        DemoMsgView::SetServerName(s) => {
            assert(e.subrange(1, e.len() as int) =~= encode_utf8(s));
        },
        DemoMsgView::GreetingResponse(s) => {
            assert(e.subrange(1, e.len() as int) =~= encode_utf8(s));
        },
        DemoMsgView::Ack => {
            assert(e.subrange(1, e.len() as int) =~= Seq::<u8>::empty());
            assert(valid_utf8(Seq::<u8>::empty()));
        },
    }
}

fn demo_serialize(msg: &DaemonDemoMsg) -> (r: Vec<u8>)
    ensures
        r@ == demo_encode(msg@),
{
    let mut final_msg: Vec<u8> = Vec::new();
    match msg {
        DaemonDemoMsg::Greet(s) => {
            final_msg.push(0);
            append_bytes(&mut final_msg, s.as_str().as_bytes());
        },
        DaemonDemoMsg::SetServerName(s) => {
            final_msg.push(1);
            append_bytes(&mut final_msg, s.as_str().as_bytes());
        },
        DaemonDemoMsg::GreetingResponse(s) => {
            final_msg.push(2);
            append_bytes(&mut final_msg, s.as_str().as_bytes());
        },
        DaemonDemoMsg::Ack => {
            final_msg.push(3);
        },
    }
    assert(final_msg@ =~= demo_encode(msg@));
    final_msg
}

fn demo_is_decodable(msg: &[u8]) -> (r: bool)
    ensures
        r == demo_decodable(msg@),
{
    if msg.len() < 1 || msg[0] > 3 {
        return false;
    }
    str_from_utf8(&msg[1..msg.len()]).is_some()
}

fn demo_deserialize(msg: &[u8]) -> (r: DaemonDemoMsg)
    requires
        demo_decodable(msg@),
    ensures
        r@ == demo_decode(msg@),
{
    let msg_type = msg[0];
    let text = match str_from_utf8(&msg[1..msg.len()]) {
        Some(s) => s,
        None => "",
    };
    let msg_str = String::from_str(text);
    if msg_type == 0 {
        DaemonDemoMsg::Greet(msg_str)
    } else if msg_type == 1 {
        DaemonDemoMsg::SetServerName(msg_str)
    } else if msg_type == 2 {
        DaemonDemoMsg::GreetingResponse(msg_str)
    } else {
        DaemonDemoMsg::Ack
    }
}

impl MessageSerializer<DaemonDemoMsg> for DaemonDemoMsg {
    open spec fn encode(msg: DemoMsgView) -> Seq<u8> {
        demo_encode(msg)
    }

    open spec fn decodable(msg: Seq<u8>) -> bool {
        demo_decodable(msg)
    }

    open spec fn decode(msg: Seq<u8>) -> DemoMsgView {
        demo_decode(msg)
    }

    fn serialize(msg: &DaemonDemoMsg) -> (r: Vec<u8>) {
        demo_serialize(msg)
    }

    fn is_decodable(msg: &[u8]) -> (r: bool) {
        demo_is_decodable(msg)
    }

    fn deserialize(msg: &[u8]) -> (r: DaemonDemoMsg) {
        demo_deserialize(msg)
    }
}

impl Message for DaemonDemoMsg {
    open spec fn encode(msg: DemoMsgView) -> Seq<u8> {
        demo_encode(msg)
    }

    open spec fn decodable(msg: Seq<u8>) -> bool {
        demo_decodable(msg)
    }

    open spec fn decode(msg: Seq<u8>) -> DemoMsgView {
        demo_decode(msg)
    }

    fn serialize(&self) -> (r: Vec<u8>) {
        demo_serialize(self)
    }

    fn is_decodable(msg: &[u8]) -> (r: bool) {
        demo_is_decodable(msg)
    }

    fn deserialize(msg: &[u8]) -> (r: DaemonDemoMsg) {
        demo_deserialize(msg)
    }
}

/// The greeting of a server named `server_name` to `name`:
/// `Hello {name}, I am {server_name}!`.
pub open spec fn greeting(name: Seq<char>, server_name: Seq<char>) -> Seq<char> {
    "Hello "@ + name + ", I am "@ + server_name + "!"@
}

/// Whether a message is a request (a greeting or a change of name).
pub open spec fn is_request(m: DemoMsgView) -> bool {
    m is Greet || m is SetServerName
}

/// How a server named `server_name` answers a request: its new name and its
/// reply.
pub open spec fn answer(server_name: Seq<char>, m: DemoMsgView) -> (Seq<char>, DemoMsgView) {
    match m {
        DemoMsgView::Greet(name) => (server_name, DemoMsgView::GreetingResponse(greeting(name, server_name))),
        DemoMsgView::SetServerName(name) => (name, DemoMsgView::Ack),
        _ => (server_name, m),
    }
}

/// Once a server is renamed, it greets with its new name.
pub proof fn lemma_rename_then_greet(server_name: Seq<char>, new_name: Seq<char>, name: Seq<char>)
    ensures
        ({
            let (renamed, ack) = answer(server_name, DemoMsgView::SetServerName(new_name));
            &&& ack == DemoMsgView::Ack
            &&& answer(renamed, DemoMsgView::Greet(name)).1 == DemoMsgView::GreetingResponse(
                greeting(name, new_name),
            )
        }),
{
}

/// Every hello-world message sent over a connection is read back at the
/// other end as the same message.
pub proof fn lemma_demo_message_reads_back(m: DaemonDemoMsg, r: Result<Option<DaemonDemoMsg>, std::io::Error>)
    requires
        frame_message::<DaemonDemoMsg>(<DaemonDemoMsg as Message>::encode(m@), r),
    ensures
        r matches Ok(Some(x)) && x@ == m@,
{
    lemma_demo_round_trip(m@);
    lemma_sent_frame_reads_back::<DaemonDemoMsg>(m@, r);
}

/// The state of the hello-world daemon: its name.
pub struct Processor {
    server_name: String,
}

impl Processor {
    pub closed spec fn server_name_view(&self) -> Seq<char> {
        self.server_name@
    }

    /// A daemon named `server_name`.
    pub fn new(server_name: String) -> (r: Self)
        ensures
            r.server_name_view() == server_name@,
    {
        Processor { server_name }
    }

    /// The daemon's current name.
    pub fn server_name(&self) -> (r: &String)
        ensures
            r@ == self.server_name_view(),
    {
        &self.server_name
    }
}

impl MessageProcessor<DaemonDemoMsg> for Processor {
    open spec fn accepts(&self, msg: DemoMsgView) -> bool {
        is_request(msg)
    }

    fn can_process(&self, msg: &DaemonDemoMsg) -> (r: bool) {
        match msg {
            DaemonDemoMsg::Greet(_) => true,
            DaemonDemoMsg::SetServerName(_) => true,
            _ => false,
        }
    }

    /// Greets, or takes the new name and acknowledges it.
    fn process(&mut self, msg: &DaemonDemoMsg) -> (r: DaemonDemoMsg)
        ensures
            (final(self).server_name_view(), r@) == answer(old(self).server_name_view(), msg@),
    {
        match msg {
            DaemonDemoMsg::Greet(name) => {
                let response = String::from_str("Hello ").concat(name.as_str()).concat(", I am ").concat(
                    self.server_name.as_str(),
                ).concat("!");
                DaemonDemoMsg::GreetingResponse(response)
            },
            DaemonDemoMsg::SetServerName(name) => {
                self.server_name = name.clone();
                DaemonDemoMsg::Ack
            },
            DaemonDemoMsg::GreetingResponse(s) => DaemonDemoMsg::GreetingResponse(s.clone()),
            DaemonDemoMsg::Ack => DaemonDemoMsg::Ack,
        }
    }
}

} // verus!
