//! The autolock daemon: its two messages, their one-byte format, and the
//! demo message a command line can ask it to send.
use crate::itj_daemon::DaemonDPK;
use crate::text::str_eq;
use vstd::prelude::*;

verus! {

/// A message to the autolock daemon.
#[derive(Debug, Clone, Copy, PartialEq, Eq)]
pub enum AutolockMsg {
    HelloWorld,
    GoodbyeWorld,
}

impl Default for AutolockMsg {
    fn default() -> (r: Self)
        ensures
            r == AutolockMsg::HelloWorld,
    {
        AutolockMsg::HelloWorld
    }
}

impl View for AutolockMsg {
    type V = AutolockMsg;

    open spec fn view(&self) -> AutolockMsg {
        *self
    }
}

/// The byte format and handling of autolock messages.
#[derive(Debug, Default)]
pub struct AutolockDPK {}

/// A message is one byte: 0 for hello, 1 for goodbye.
pub open spec fn autolock_encode(m: AutolockMsg) -> Seq<u8> {
    match m {
        AutolockMsg::HelloWorld => seq![0u8],
        AutolockMsg::GoodbyeWorld => seq![1u8],
    }
}

pub open spec fn autolock_decodable(msg: Seq<u8>) -> bool {
    msg.len() == 1 && msg[0] <= 1
}

pub open spec fn autolock_decode(msg: Seq<u8>) -> AutolockMsg {
    if msg[0] == 0 {
        AutolockMsg::HelloWorld
    } else {
        AutolockMsg::GoodbyeWorld
    }
}

/// Decoding the byte of a message gives the message back.
pub proof fn lemma_autolock_round_trip(m: AutolockMsg)
    ensures
        autolock_decodable(autolock_encode(m)),
        autolock_decode(autolock_encode(m)) == m,
{
}

/// The lines the daemon prints for a message.
pub open spec fn autolock_lines(m: AutolockMsg) -> Seq<Seq<char>> {
    match m {
        AutolockMsg::HelloWorld => seq!["Processing HelloWorld"@, "Hello, World!"@],
        AutolockMsg::GoodbyeWorld => seq!["Processing GoodbyeWorld"@, "Goodbye, World!"@],
    }
}

impl DaemonDPK<AutolockMsg> for AutolockDPK {
    open spec fn encode(msg: AutolockMsg) -> Seq<u8> {
        autolock_encode(msg)
    }

    open spec fn decodable(msg: Seq<u8>) -> bool {
        autolock_decodable(msg)
    }

    open spec fn lines(msg: AutolockMsg) -> Seq<Seq<char>> {
        autolock_lines(msg)
    }

    open spec fn decode(msg: Seq<u8>) -> AutolockMsg {
        autolock_decode(msg)
    }

    fn serialize(msg: &AutolockMsg) -> (r: Vec<u8>) {
        let mut v: Vec<u8> = Vec::new();
        match msg {
            AutolockMsg::HelloWorld => v.push(0),
            AutolockMsg::GoodbyeWorld => v.push(1),
        }
        assert(v@ =~= autolock_encode(*msg));
        v
    }

    fn is_decodable(msg: &[u8]) -> (r: bool) {
        msg.len() == 1 && msg[0] <= 1
    }

    fn deserialize(msg: &[u8]) -> (r: AutolockMsg) {
        if msg[0] == 0 {
            AutolockMsg::HelloWorld
        } else {
            AutolockMsg::GoodbyeWorld
        }
    }

    fn process(msg: &AutolockMsg) -> (r: Vec<String>)
        ensures
            r@.map_values(|l: String| l@) == autolock_lines(*msg),
    {
        let mut lines: Vec<String> = Vec::new();
        match msg {
            AutolockMsg::HelloWorld => {
                lines.push(String::from_str("Processing HelloWorld"));
                lines.push(String::from_str("Hello, World!"));
            },
            AutolockMsg::GoodbyeWorld => {
                lines.push(String::from_str("Processing GoodbyeWorld"));
                lines.push(String::from_str("Goodbye, World!"));
            },
        }
        assert(lines@.map_values(|l: String| l@) =~= autolock_lines(*msg));
        lines
    }
}

/// The message named on the command line of the demo.
#[derive(Debug, Clone, Copy, PartialEq, Eq)]
pub enum DemoMsg {
    Hello,
    _Goodbye,
}

/// The error text for an argument that names no message.
pub open spec fn unknown_message_text(arg: Seq<char>) -> Seq<char> {
    "\""@ + arg + "\" could not be parsed as a message"@
}

impl DemoMsg {
    /// The daemon message this demo message stands for.
    pub fn convert(&self) -> (r: AutolockMsg)
        ensures
            r == (match self {
                DemoMsg::Hello => AutolockMsg::HelloWorld,
                DemoMsg::_Goodbye => AutolockMsg::GoodbyeWorld,
            }),
    {
        match self {
            DemoMsg::Hello => AutolockMsg::HelloWorld,
            DemoMsg::_Goodbye => AutolockMsg::GoodbyeWorld,
        }
    }

    /// Reads a command-line argument: `hello` or `goodbye`.
    pub fn from_arg_value(arg: &str) -> (r: Result<Self, String>)
        ensures
            arg@ == "hello"@ ==> r == Ok::<DemoMsg, String>(DemoMsg::Hello),
            arg@ != "hello"@ && arg@ == "goodbye"@ ==> r == Ok::<DemoMsg, String>(DemoMsg::_Goodbye),
            arg@ != "hello"@ && arg@ != "goodbye"@ ==> (r matches Err(e) && e@ == unknown_message_text(arg@)),
    {
        if str_eq(arg, "hello") {
            Ok(DemoMsg::Hello)
        } else if str_eq(arg, "goodbye") {
            Ok(DemoMsg::_Goodbye)
        } else {
            let e = String::from_str("\"").concat(arg).concat("\" could not be parsed as a message");
            Err(e)
        }
    }
}

} // verus!
