use itj_tiny_deps::autolock::{AutolockDPK, AutolockMsg, DemoMsg};
use itj_tiny_deps::daemon::{Client as DaemonClient, MessageProcessor, MessageSerializer};
use itj_tiny_deps::hello_world::{DaemonDemoMsg, Processor};
use itj_tiny_deps::ipc::{decode_frame, Connection, FrameError, Message, MessageConnection};
use itj_tiny_deps::itj_daemon::{
    Client, ClientBuilder, DaemonDPK, IPCNC, IPC1, ServerBuilder, ServerPoll,
};
use std::io::Error;

#[test]
fn autolock_bytes() {
    assert_eq!(AutolockDPK::serialize(&AutolockMsg::HelloWorld), vec![0u8]);
    assert_eq!(AutolockDPK::serialize(&AutolockMsg::GoodbyeWorld), vec![1u8]);
    assert_eq!(AutolockDPK::deserialize(&[1u8]), AutolockMsg::GoodbyeWorld);
    assert!(!AutolockDPK::is_decodable(&[2u8]));
    assert!(!AutolockDPK::is_decodable(&[0u8, 0u8]));
    assert!(!AutolockDPK::is_decodable(&[]));
    assert_eq!(AutolockMsg::default(), AutolockMsg::HelloWorld);
}

#[test]
fn autolock_round_trip() {
    for m in [AutolockMsg::HelloWorld, AutolockMsg::GoodbyeWorld] {
        let bytes = AutolockDPK::serialize(&m);
        assert!(AutolockDPK::is_decodable(&bytes));
        assert_eq!(AutolockDPK::deserialize(&bytes), m);
    }
}

#[test]
fn autolock_process_lines() {
    assert_eq!(
        AutolockDPK::process(&AutolockMsg::GoodbyeWorld),
        vec!["Processing GoodbyeWorld".to_string(), "Goodbye, World!".to_string()]
    );
}

#[test]
fn demo_msg_arguments() {
    assert_eq!(DemoMsg::from_arg_value("hello"), Ok(DemoMsg::Hello));
    assert_eq!(DemoMsg::from_arg_value("goodbye"), Ok(DemoMsg::_Goodbye));
    assert_eq!(
        DemoMsg::from_arg_value("hi"),
        Err("\"hi\" could not be parsed as a message".to_string())
    );
    assert_eq!(DemoMsg::Hello.convert(), AutolockMsg::HelloWorld);
    assert_eq!(DemoMsg::_Goodbye.convert(), AutolockMsg::GoodbyeWorld);
}

#[test]
fn demo_daemon_bytes() {
    let m = DaemonDemoMsg::Greet("Bob".to_string());
    assert_eq!(<DaemonDemoMsg as MessageSerializer<DaemonDemoMsg>>::serialize(&m), vec![0, b'B', b'o', b'b']);
    assert_eq!(Message::serialize(&DaemonDemoMsg::Ack), vec![3]);
    assert_eq!(
        <DaemonDemoMsg as Message>::deserialize(&[1, b'A', b'l']),
        DaemonDemoMsg::SetServerName("Al".to_string())
    );
    assert_eq!(<DaemonDemoMsg as Message>::deserialize(&[3, b'x']), DaemonDemoMsg::Ack);
    assert!(!<DaemonDemoMsg as Message>::is_decodable(&[4]));
    assert!(!<DaemonDemoMsg as Message>::is_decodable(&[]));
    assert!(!<DaemonDemoMsg as Message>::is_decodable(&[0, 0xff]));
}

#[test]
fn demo_daemon_round_trip() {
    let msgs = [
        DaemonDemoMsg::Greet("héllo".to_string()),
        DaemonDemoMsg::SetServerName("Alice".to_string()),
        DaemonDemoMsg::GreetingResponse("".to_string()),
        DaemonDemoMsg::Ack,
    ];
    for m in msgs {
        let bytes = Message::serialize(&m);
        assert!(<DaemonDemoMsg as Message>::is_decodable(&bytes));
        assert_eq!(<DaemonDemoMsg as Message>::deserialize(&bytes), m);
    }
}

#[test]
fn processor_greets_and_renames() {
    let mut p = Processor::new("Server".to_string());
    let greet = DaemonDemoMsg::Greet("Client".to_string());
    assert!(p.can_process(&greet));
    assert_eq!(
        p.process(&greet),
        DaemonDemoMsg::GreetingResponse("Hello Client, I am Server!".to_string())
    );
    assert_eq!(p.process(&DaemonDemoMsg::SetServerName("Alice".to_string())), DaemonDemoMsg::Ack);
    assert_eq!(
        p.process(&greet),
        DaemonDemoMsg::GreetingResponse("Hello Client, I am Alice!".to_string())
    );
    assert!(!p.can_process(&DaemonDemoMsg::Ack));
}

#[test]
fn stand_in_transport_script() {
    let mut ipc = IPCNC::new(123);
    let mut replies = Vec::new();
    for _ in 0..10 {
        replies.push(IPC1::read(&mut ipc));
    }
    let empty: Vec<u8> = vec![];
    assert_eq!(
        replies,
        vec![vec![0], empty.clone(), empty.clone(), vec![1], empty.clone(), empty.clone(), empty.clone(), empty.clone(), vec![0], empty.clone()]
    );
}

#[test]
fn daemon_server_processes_scripted_messages() {
    let mut server = ServerBuilder::<AutolockMsg, AutolockDPK>::new().build();
    match server.poll_once() {
        ServerPoll::Processed(lines) => {
            assert_eq!(lines, vec!["Processing HelloWorld".to_string(), "Hello, World!".to_string()])
        },
        _ => panic!("expected a message"),
    }
    assert!(matches!(server.poll_once(), ServerPoll::Idle));
    assert!(matches!(server.poll_once(), ServerPoll::Idle));
    match server.poll_once() {
        ServerPoll::Processed(lines) => assert_eq!(lines[1], "Goodbye, World!".to_string()),
        _ => panic!("expected a message"),
    }
}

#[test]
fn daemon_server_poll_drains_until_an_empty_read() {
    let mut server = ServerBuilder::<AutolockMsg, AutolockDPK>::new().build();
    // Counter 30 -> 0 gives [0] (hello), then 1 gives nothing.
    let outcomes = server.poll();
    assert_eq!(outcomes.len(), 1);
    match &outcomes[0] {
        ServerPoll::Processed(lines) => assert_eq!(lines[1], "Hello, World!".to_string()),
        _ => panic!("expected a message"),
    }
    // 2 gives nothing.
    assert!(server.poll().is_empty());
    // 3 gives [1] (goodbye), then 4 gives nothing.
    let outcomes = server.poll();
    assert_eq!(outcomes.len(), 1);
    match &outcomes[0] {
        ServerPoll::Processed(lines) => assert_eq!(lines[1], "Goodbye, World!".to_string()),
        _ => panic!("expected a message"),
    }
}

#[test]
fn daemon_clients_send() {
    let mut client: Client<AutolockMsg, AutolockDPK> = ClientBuilder::new().build();
    client.send_message(&AutolockMsg::HelloWorld);
    let mut client2: Client<AutolockMsg, AutolockDPK> = Client::new(15829);
    client2.send_message(&AutolockMsg::GoodbyeWorld);
}

#[test]
fn daemon_client_reads_a_reply() {
    // The stand-in transport answers the first request with [0], which is a
    // greeting with an empty name.
    let mut client: DaemonClient<DaemonDemoMsg, DaemonDemoMsg> = DaemonClient::new(15829);
    let reply = client.send_message(&DaemonDemoMsg::Greet("x".to_string()));
    assert_eq!(reply, Some(DaemonDemoMsg::Greet("".to_string())));
    // The second read is empty: no message.
    let reply = client.send_message(&DaemonDemoMsg::Greet("x".to_string()));
    assert_eq!(reply, None);
}

#[test]
fn frames_decode() {
    assert_eq!(decode_frame::<DaemonDemoMsg>(&[]), Ok(None));
    assert_eq!(decode_frame::<DaemonDemoMsg>(&[3]), Ok(Some(DaemonDemoMsg::Ack)));
    assert_eq!(decode_frame::<DaemonDemoMsg>(&[9]), Err(FrameError::Undecodable));
}

struct LoopbackConnection {
    inbox: Vec<Vec<u8>>,
    sent: Vec<Vec<u8>>,
}

impl Connection for LoopbackConnection {
    fn read(&mut self) -> Result<Vec<u8>, Error> {
        if self.inbox.is_empty() {
            Ok(vec![])
        } else {
            Ok(self.inbox.remove(0))
        }
    }

    fn send(&mut self, msg: &[u8]) -> Result<(), Error> {
        self.sent.push(msg.to_vec());
        Ok(())
    }
}

#[test]
fn message_connection_reads_and_sends() {
    let conn = LoopbackConnection { inbox: vec![vec![0, b'h', b'i'], vec![7]], sent: vec![] };
    let mut mc: MessageConnection<DaemonDemoMsg, LoopbackConnection> = MessageConnection::new(conn);
    assert_eq!(mc.read_message().unwrap(), Some(DaemonDemoMsg::Greet("hi".to_string())));
    let err = mc.read_message().unwrap_err();
    assert_eq!(err.kind(), std::io::ErrorKind::InvalidData);
    assert_eq!(mc.read_message().unwrap(), None);
    mc.send_message(&DaemonDemoMsg::Ack).unwrap();
}
