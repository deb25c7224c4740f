use safenode::driver::{DialRegistration, SwarmAction, SwarmDriver};
use safenode::types::{Error, MsgResponder, Multiaddr, PeerId, Quorum, Record, SwarmCmd, SwarmLocalState, XorName};
use std::sync::mpsc;

fn peer(b: u8) -> PeerId {
    PeerId::new(vec![0x12, 0x20, b, b])
}

fn addr(b: u8) -> Multiaddr {
    Multiaddr::new(vec![4, 127, 0, 0, b])
}

fn driver() -> SwarmDriver<u32> {
    SwarmDriver::new(peer(1))
}

type Cmd = SwarmCmd<u32, u32>;

#[test]
fn start_listening_answers_its_handle() {
    let d: SwarmDriver<mpsc::Sender<Result<(), String>>> = SwarmDriver::new(peer(1));
    let (tx, rx) = mpsc::channel();
    let cmd: SwarmCmd<_, u32> = SwarmCmd::StartListening { addr: addr(9), sender: tx };
    match d.handle_cmd(cmd) {
        SwarmAction::Listen { addr: a, sender } => {
            assert_eq!(a.bytes, vec![4, 127, 0, 0, 9]);
            let listened: Result<(), String> = Ok(());
            sender.send(listened).unwrap();
        }
        _ => panic!("expected a listen action"),
    }
    assert_eq!(rx.recv().unwrap(), Ok(()));
    assert!(rx.try_recv().is_err());
}

#[test]
fn second_dial_to_same_peer_is_dropped() {
    let mut d = driver();
    let first: Cmd = SwarmCmd::Dial { peer_id: peer(2), peer_addr: addr(2), sender: 10 };
    let (p, h) = match d.handle_cmd(first) {
        SwarmAction::Dial { peer_id, peer_addr, sender } => {
            assert_eq!(peer_addr.bytes, addr(2).bytes);
            (peer_id, sender)
        }
        _ => panic!("expected a dial action"),
    };
    assert_eq!(h, 10);
    let ok: Result<(), String> = Ok(());
    assert!(matches!(d.dial_outcome(p, h, ok), DialRegistration::Pending));
    let second: Cmd = SwarmCmd::Dial { peer_id: peer(2), peer_addr: addr(2), sender: 11 };
    assert!(matches!(d.handle_cmd(second), SwarmAction::AlreadyDialing));
    assert_eq!(d.take_dial(&peer(2)), Some(10));
    assert_eq!(d.take_dial(&peer(2)), None);
}

#[test]
fn dial_failure_hands_back_handle_with_error() {
    let mut d = driver();
    let failed: Result<(), String> = Err("unreachable".to_string());
    match d.dial_outcome(peer(3), 4, failed) {
        DialRegistration::Failed(h, e) => {
            assert_eq!(h, 4);
            assert_eq!(e, "unreachable");
        }
        _ => panic!("expected a failed dial"),
    }
    assert_eq!(d.take_dial(&peer(3)), None);
}

#[test]
fn dial_outcome_refuses_a_second_entry() {
    let mut d = driver();
    let ok: Result<(), String> = Ok(());
    assert!(matches!(d.dial_outcome(peer(3), 4, ok.clone()), DialRegistration::Pending));
    assert!(matches!(d.dial_outcome(peer(3), 5, ok), DialRegistration::Duplicate(5)));
    assert_eq!(d.take_dial(&peer(3)), Some(4));
}

#[test]
fn closest_peers_query_gathers_progress() {
    let mut d = driver();
    let name = XorName([7u8; 32]);
    let cmd: Cmd = SwarmCmd::QueryForClosestPeers { xor_name: name, sender: 20 };
    let h = match d.handle_cmd(cmd) {
        SwarmAction::QueryClosestPeers { key, sender } => {
            assert_eq!(key, vec![7u8; 32]);
            sender
        }
        _ => panic!("expected a closest-peers query"),
    };
    assert_eq!(d.closest_peers_query_started(5, h), Ok(()));
    assert!(d.add_closest_peers(5, vec![peer(10), peer(11)]));
    assert!(d.add_closest_peers(5, vec![peer(12)]));
    let (h, found) = d.take_closest_peers(5).unwrap();
    assert_eq!(h, 20);
    let mut bytes: Vec<Vec<u8>> = found.into_iter().map(|p| p.bytes).collect();
    bytes.sort();
    assert_eq!(bytes, vec![peer(10).bytes, peer(11).bytes, peer(12).bytes]);
    assert!(d.take_closest_peers(5).is_none());
    assert!(!d.add_closest_peers(5, vec![peer(13)]));
}

#[test]
fn repeated_peers_are_gathered_once() {
    let mut d = driver();
    assert_eq!(d.closest_peers_query_started(6, 1), Ok(()));
    assert!(d.add_closest_peers(6, vec![peer(10), peer(10), peer(11)]));
    assert!(d.add_closest_peers(6, vec![peer(11)]));
    let (_, found) = d.take_closest_peers(6).unwrap();
    assert_eq!(found.len(), 2);
}

#[test]
fn local_state_snapshot_holds_its_own_copy() {
    let d = driver();
    let cmd: Cmd = SwarmCmd::GetSwarmLocalState(30);
    assert!(matches!(d.handle_cmd(cmd), SwarmAction::ReportLocalState { sender: 30 }));
    let mut connected = vec![peer(2).bytes, peer(3).bytes];
    let mut listening = vec![addr(9).bytes];
    let snapshot = SwarmLocalState::new(
        connected.iter().map(|b| PeerId::new(b.clone())).collect(),
        listening.iter().map(|b| Multiaddr::new(b.clone())).collect(),
    );
    connected.push(peer(4).bytes);
    listening.clear();
    assert_eq!(snapshot.connected_peers.len(), 2);
    assert_eq!(snapshot.connected_peers[0].bytes, peer(2).bytes);
    assert_eq!(snapshot.connected_peers[1].bytes, peer(3).bytes);
    assert_eq!(snapshot.listeners.len(), 1);
    assert_eq!(snapshot.listeners[0].bytes, addr(9).bytes);
}

#[test]
fn request_to_self_loops_back() {
    let d = driver();
    let cmd: Cmd = SwarmCmd::SendRequest { req: vec![1, 2, 3], peer: peer(1), sender: 40 };
    let responder = match d.handle_cmd(cmd) {
        SwarmAction::DeliverToSelf { req, responder } => {
            assert_eq!(req, vec![1, 2, 3]);
            responder
        }
        _ => panic!("expected delivery to self"),
    };
    assert!(matches!(responder, MsgResponder::FromSelf(40)));
    let reply: Cmd = SwarmCmd::SendResponse { resp: vec![9, 8], channel: responder };
    match d.handle_cmd(reply) {
        SwarmAction::ReplyToSelf { sender, resp } => {
            assert_eq!(sender, 40);
            assert_eq!(resp, vec![9, 8]);
        }
        _ => panic!("expected a reply to self"),
    }
}

#[test]
fn request_to_peer_is_registered_once() {
    let mut d = driver();
    let cmd: Cmd = SwarmCmd::SendRequest { req: vec![5], peer: peer(2), sender: 50 };
    let h = match d.handle_cmd(cmd) {
        SwarmAction::SendRequest { peer: p, req, sender } => {
            assert_eq!(p.bytes, peer(2).bytes);
            assert_eq!(req, vec![5]);
            sender
        }
        _ => panic!("expected a wire request"),
    };
    assert_eq!(d.request_sent(9, h), Ok(()));
    assert_eq!(d.request_sent(9, 51), Err(51));
    assert_eq!(d.take_request(9), Some(50));
    assert_eq!(d.take_request(9), None);
}

#[test]
fn response_to_peer_goes_to_transport() {
    let d = driver();
    let cmd: Cmd = SwarmCmd::SendResponse { resp: vec![4], channel: MsgResponder::FromPeer(77) };
    match d.handle_cmd(cmd) {
        SwarmAction::ReplyToPeer { channel, resp } => {
            assert_eq!(channel, 77);
            assert_eq!(resp, vec![4]);
        }
        _ => panic!("expected a reply to a peer"),
    }
}

#[test]
fn closest_local_peers_answer_directly() {
    let mut d = driver();
    let mut name = [0u8; 32];
    name[0] = 0xab;
    name[31] = 0x01;
    let cmd: Cmd = SwarmCmd::GetClosestLocalPeers { xor_name: XorName(name), sender: 60 };
    match d.handle_cmd(cmd) {
        SwarmAction::ReplyLocalClosestPeers { key, sender } => {
            assert_eq!(key, name.to_vec());
            assert_eq!(sender, 60);
        }
        _ => panic!("expected a direct answer"),
    }
    assert_eq!(d.take_query(0), None);
    assert!(d.take_closest_peers(0).is_none());
}

#[test]
fn get_data_registers_a_lookup() {
    let mut d = driver();
    let cmd: Cmd = SwarmCmd::GetData { key: vec![3, 3], sender: 70 };
    let h = match d.handle_cmd(cmd) {
        SwarmAction::GetRecord { key, sender } => {
            assert_eq!(key, vec![3, 3]);
            sender
        }
        _ => panic!("expected a record lookup"),
    };
    assert_eq!(d.query_started(2, h), Ok(()));
    assert_eq!(d.closest_peers_query_started(2, 71), Err(71));
    assert_eq!(d.query_started(2, 72), Err(72));
    assert_eq!(d.take_query(2), Some(70));
    assert_eq!(d.take_query(2), None);
}

#[test]
fn query_identifier_in_closest_table_is_refused() {
    let mut d = driver();
    assert_eq!(d.closest_peers_query_started(3, 1), Ok(()));
    assert_eq!(d.query_started(3, 2), Err(2));
}

#[test]
fn put_record_asks_all_replicas() {
    let d = driver();
    let record = Record { key: vec![1], value: vec![2, 2] };
    let cmd: Cmd = SwarmCmd::PutProvidedDataAsRecord { record };
    match d.handle_cmd(cmd) {
        SwarmAction::PutRecord { record, quorum } => {
            assert_eq!(quorum, Quorum::All);
            assert_eq!(record.key, vec![1]);
            assert_eq!(record.value, vec![2, 2]);
        }
        _ => panic!("expected a store"),
    }
}

#[test]
fn each_reply_handle_reaches_its_action() {
    let d = driver();
    let cmds: Vec<Cmd> = vec![
        SwarmCmd::StartListening { addr: addr(1), sender: 1 },
        SwarmCmd::Dial { peer_id: peer(5), peer_addr: addr(5), sender: 2 },
        SwarmCmd::QueryForClosestPeers { xor_name: XorName([1; 32]), sender: 3 },
        SwarmCmd::GetClosestLocalPeers { xor_name: XorName([1; 32]), sender: 4 },
        SwarmCmd::SendRequest { req: vec![], peer: peer(5), sender: 5 },
        SwarmCmd::GetSwarmLocalState(6),
        SwarmCmd::GetData { key: vec![], sender: 7 },
    ];
    let mut seen = Vec::new();
    for cmd in cmds {
        let h = match d.handle_cmd(cmd) {
            SwarmAction::Listen { sender, .. } => sender,
            SwarmAction::Dial { sender, .. } => sender,
            SwarmAction::QueryClosestPeers { sender, .. } => sender,
            SwarmAction::ReplyLocalClosestPeers { sender, .. } => sender,
            SwarmAction::SendRequest { sender, .. } => sender,
            SwarmAction::ReportLocalState { sender } => sender,
            SwarmAction::GetRecord { sender, .. } => sender,
            _ => panic!("handle lost"),
        };
        seen.push(h);
    }
    assert_eq!(seen, vec![1, 2, 3, 4, 5, 6, 7]);
}

#[test]
fn delivery_errors_follow_the_action() {
    let a: SwarmAction<u32, u32> = SwarmAction::ReplyToSelf { sender: 1, resp: vec![] };
    assert_eq!(a.delivery_error(), Some(Error::InternalMsgChannelDropped));
    let a: SwarmAction<u32, u32> = SwarmAction::ReportLocalState { sender: 1 };
    assert_eq!(a.delivery_error(), Some(Error::InternalMsgChannelDropped));
    let a: SwarmAction<u32, u32> = SwarmAction::ReplyToPeer { channel: 1, resp: vec![] };
    assert_eq!(a.delivery_error(), Some(Error::OutgoingResponseDropped));
    let a: SwarmAction<u32, u32> = SwarmAction::DeliverToSelf { req: vec![], responder: MsgResponder::FromSelf(1) };
    assert_eq!(a.delivery_error(), Some(Error::EventChannelClosed));
    let a: SwarmAction<u32, u32> = SwarmAction::Listen { addr: addr(1), sender: 1 };
    assert_eq!(a.delivery_error(), None);
    let a: SwarmAction<u32, u32> = SwarmAction::AlreadyDialing;
    assert_eq!(a.delivery_error(), None);
}

#[test]
fn peer_identity_compares_bytes() {
    assert!(peer(1).same(&peer(1)));
    assert!(!peer(1).same(&peer(2)));
    assert!(!peer(1).same(&PeerId::new(vec![0x12, 0x20, 1])));
    assert!(PeerId::new(vec![]).same(&PeerId::new(vec![])));
    let d = driver();
    assert_eq!(d.local_peer_id().bytes, peer(1).bytes);
}

#[test]
fn xor_name_key_keeps_byte_order() {
    let mut bytes = [0u8; 32];
    for (i, b) in bytes.iter_mut().enumerate() {
        *b = i as u8;
    }
    let key = XorName(bytes).to_key();
    assert_eq!(key.len(), 32);
    assert_eq!(key[0], 0);
    assert_eq!(key[31], 31);
    assert_eq!(key, bytes.to_vec());
}
