use merge_worker::region::{Peer, Region};
use merge_worker::rpc::{
    build_admin_request, AdminCmdType, AttemptEvent, MessageType, RaftRpcClient, RpcError,
};

fn test_region() -> (Region, Peer) {
    let peer = Peer { id: 1, store_id: 10 };
    let region = Region {
        id: 5,
        peers: vec![peer, Peer { id: 2, store_id: 20 }],
    };
    (region, peer)
}

fn echo(id: u64) -> AttemptEvent {
    AttemptEvent::Response {
        msg_type: MessageType::CmdResp,
        id,
    }
}

#[test]
fn test_round_trip_matched_id() {
    // a server that echoes a well-formed response under the request's id
    let (region, peer) = test_region();
    let mut client = RaftRpcClient::new("127.0.0.1:20160".to_string());
    assert!(client.send_suspend_region(&region, peer, &vec![echo(0)]).is_ok());
    // the next send runs under the next correlation id
    assert!(client.send_shutdown_region(&region, peer, &vec![echo(1)]).is_ok());
}

#[test]
fn test_round_trip_mismatched_id_rejected() {
    let (region, peer) = test_region();
    let mut client = RaftRpcClient::new("127.0.0.1:20160".to_string());
    match client.send_suspend_region(&region, peer, &vec![echo(5)]) {
        Err(RpcError::IdMismatch { expected, got }) => {
            assert_eq!(expected, 0);
            assert_eq!(got, 5);
        }
        other => panic!("a mismatched correlation id was not rejected: {:?}", other),
    }
}

#[test]
fn test_retry_after_failure_succeeds() {
    let (region, peer) = test_region();
    let mut client = RaftRpcClient::new("127.0.0.1:20160".to_string());
    let attempts = vec![AttemptEvent::ConnectFailed, echo(0)];
    assert!(client.send_suspend_region(&region, peer, &attempts).is_ok());
}

#[test]
fn test_retries_exhausted_names_address() {
    let (region, peer) = test_region();
    let mut client = RaftRpcClient::new("10.1.1.9:20160".to_string());
    let attempts = vec![AttemptEvent::ConnectFailed, AttemptEvent::IoFailed];
    match client.send_suspend_region(&region, peer, &attempts) {
        Err(RpcError::SendFailed { address }) => assert_eq!(address, "10.1.1.9:20160"),
        other => panic!("exhausted retries did not fail: {:?}", other),
    }
}

#[test]
fn test_malformed_response_type_is_no_success() {
    let (region, peer) = test_region();
    let mut client = RaftRpcClient::new("127.0.0.1:20160".to_string());
    let bad = AttemptEvent::Response {
        msg_type: MessageType::Cmd,
        id: 0,
    };
    match client.send_suspend_region(&region, peer, &vec![bad, bad]) {
        Err(RpcError::SendFailed { .. }) => {}
        other => panic!("a command-typed response was accepted: {:?}", other),
    }
}

#[test]
fn test_mismatch_is_fatal_not_retried() {
    // a mismatched id ends the send even though budget and a good
    // response remain
    let (region, peer) = test_region();
    let mut client = RaftRpcClient::new("127.0.0.1:20160".to_string());
    let attempts = vec![echo(3), echo(0)];
    match client.send_suspend_region(&region, peer, &attempts) {
        Err(RpcError::IdMismatch { expected, got }) => {
            assert_eq!(expected, 0);
            assert_eq!(got, 3);
        }
        other => panic!("a mismatched correlation id was retried: {:?}", other),
    }
}

#[test]
fn test_alloc_msg_id_increases() {
    let mut client = RaftRpcClient::new("127.0.0.1:20160".to_string());
    assert_eq!(client.alloc_msg_id(), 0);
    assert_eq!(client.alloc_msg_id(), 1);
    assert_eq!(client.alloc_msg_id(), 2);
}

#[test]
fn test_build_admin_request_shape() {
    let (region, peer) = test_region();
    let req = build_admin_request(AdminCmdType::SuspendRegion, &region, peer);
    assert_eq!(req.cmd_type, AdminCmdType::SuspendRegion);
    assert_eq!(req.region_id, 5);
    assert_eq!(req.peer, peer);
    assert_eq!(req.region, region);
    assert_eq!(req.uuid.len(), 16);
    // each request carries a fresh identifier
    let again = build_admin_request(AdminCmdType::ShutdownRegion, &region, peer);
    assert_eq!(again.cmd_type, AdminCmdType::ShutdownRegion);
    assert_ne!(req.uuid, again.uuid);
}
