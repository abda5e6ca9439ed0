use merge_worker::merge::{next_peer, Action, Runner, Task, TaskContext, TaskType};
use merge_worker::region::{Peer, Region};
use merge_worker::rpc::{AttemptEvent, MessageType};

fn p(id: u64, store_id: u64) -> Peer {
    Peer { id, store_id }
}

fn ok_response() -> AttemptEvent {
    AttemptEvent::Response {
        msg_type: MessageType::CmdResp,
        id: 0,
    }
}

#[test]
fn test_next_peer_rotates_round_robin() {
    let p1 = p(1, 101);
    let p2 = p(2, 102);
    let p3 = p(3, 103);
    let region = Region { id: 7, peers: vec![p1, p2, p3] };
    assert_eq!(next_peer(&region, p1), p2);
    assert_eq!(next_peer(&region, p2), p3);
    // the rotation wraps around
    assert_eq!(next_peer(&region, p3), p1);
}

#[test]
fn test_next_peer_absent_goes_first() {
    let p1 = p(1, 101);
    let p2 = p(2, 102);
    let region = Region { id: 7, peers: vec![p1, p2] };
    let stranger = p(9, 109);
    assert_eq!(next_peer(&region, stranger), p1);
}

#[test]
fn test_next_peer_empty_region_keeps_peer() {
    let region = Region { id: 7, peers: vec![] };
    let lonely = p(4, 104);
    assert_eq!(next_peer(&region, lonely), lonely);
}

#[test]
fn test_next_peer_first_occurrence_wins() {
    // two peers share an id: rotation continues from the first occurrence
    let a = p(1, 101);
    let b = p(1, 111);
    let c = p(3, 103);
    let region = Region { id: 7, peers: vec![a, b, c] };
    assert_eq!(next_peer(&region, p(1, 999)), b);
}

#[test]
fn test_resolve_failure_rotates_leader() {
    let p1 = p(1, 101);
    let p2 = p(2, 102);
    let region = Region { id: 7, peers: vec![p1, p2] };
    let local_peer = p(9, 100);
    let local_region = Region { id: 8, peers: vec![local_peer] };
    let runner = Runner::new();
    let req = runner.handle_suspend_region(region.clone(), p1, local_region.clone(), local_peer);
    assert_eq!(req.store_id, 101);
    let next = runner.resolve_callback(req, None);
    assert_eq!(
        next,
        Task::SuspendRegion {
            region,
            leader: p2,
            local_region,
            local_peer,
        }
    );
}

#[test]
fn test_resolve_success_carries_address() {
    let p1 = p(1, 101);
    let region = Region { id: 7, peers: vec![p1] };
    let local_peer = p(9, 100);
    let local_region = Region { id: 8, peers: vec![local_peer] };
    let runner = Runner::new();
    let req = runner.handle_suspend_region(region.clone(), p1, local_region.clone(), local_peer);
    let next = runner.resolve_callback(req, Some("10.0.0.1:20160".to_string()));
    assert_eq!(
        next,
        Task::AfterResolve {
            context: TaskContext {
                task_type: TaskType::SuspendRegion,
                region,
                peer: p1,
                local_region,
                local_peer,
                address: "10.0.0.1:20160".to_string(),
            }
        }
    );
}

#[test]
fn test_shutdown_context_has_no_follow_up() {
    let p1 = p(1, 101);
    let region = Region { id: 7, peers: vec![p1] };
    let runner = Runner::new();
    let context = TaskContext {
        task_type: TaskType::ShutdownRegion,
        region: region.clone(),
        peer: p1,
        local_region: region,
        local_peer: p1,
        address: "10.0.0.1:20160".to_string(),
    };
    assert_eq!(runner.handle_after_resolve(context, &vec![ok_response()]), None);
}

#[test]
fn test_run_leaves_commit_and_shutdown_idle() {
    let p1 = p(1, 101);
    let region = Region { id: 7, peers: vec![p1] };
    let runner = Runner::new();
    let commit = Task::CommitMerge { region: region.clone(), peer: p1 };
    assert_eq!(runner.run(commit, &vec![]), Action::Idle);
    let shutdown = Task::ShutdownRegion { region, leader: p1 };
    assert_eq!(runner.run(shutdown, &vec![]), Action::Idle);
}

#[test]
fn test_suspend_handshake_visits_peers_in_order() {
    // region R with peers [P1, P2, P3], initial leader hint P1; the resolver
    // fails for P1's store and succeeds for P2's; the send to P2's address
    // fails; the resolver succeeds for P3's store and the send to P3 is
    // delivered. The handshake must visit P1 -> P2 -> P3 and end in a commit
    // against the local controlling region.
    let p1 = p(1, 101);
    let p2 = p(2, 102);
    let p3 = p(3, 103);
    let region = Region { id: 7, peers: vec![p1, p2, p3] };
    let local_peer = p(9, 100);
    let local_region = Region { id: 8, peers: vec![local_peer] };
    let runner = Runner::new();
    let mut visited: Vec<Peer> = Vec::new();
    let no_events: Vec<AttemptEvent> = Vec::new();

    let t1 = Task::SuspendRegion {
        region: region.clone(),
        leader: p1,
        local_region: local_region.clone(),
        local_peer,
    };
    let req1 = match runner.run(t1, &no_events) {
        Action::Resolve(r) => r,
        other => panic!("suspend step did not resolve: {:?}", other),
    };
    assert_eq!(req1.store_id, 101);
    visited.push(req1.peer);
    // the resolver fails for P1's store: rotate to P2
    let t2 = runner.resolve_callback(req1, None);

    let req2 = match runner.run(t2, &no_events) {
        Action::Resolve(r) => r,
        other => panic!("rotated suspend step did not resolve: {:?}", other),
    };
    assert_eq!(req2.store_id, 102);
    visited.push(req2.peer);
    let t3 = runner.resolve_callback(req2, Some("10.0.0.2:20160".to_string()));

    // the send to P2's address fails on every attempt: rotate to P3
    let failures = vec![AttemptEvent::ConnectFailed, AttemptEvent::IoFailed];
    let t4 = match runner.run(t3, &failures) {
        Action::Submit(t) => t,
        other => panic!("failed send did not re-submit: {:?}", other),
    };
    assert_eq!(
        t4,
        Task::SuspendRegion {
            region: region.clone(),
            leader: p3,
            local_region: local_region.clone(),
            local_peer,
        }
    );

    let req3 = match runner.run(t4, &no_events) {
        Action::Resolve(r) => r,
        other => panic!("third suspend step did not resolve: {:?}", other),
    };
    assert_eq!(req3.store_id, 103);
    visited.push(req3.peer);
    let t5 = runner.resolve_callback(req3, Some("10.0.0.3:20160".to_string()));

    // the send to P3 is delivered: the handshake commits locally
    let final_task = match runner.run(t5, &vec![ok_response()]) {
        Action::Submit(t) => t,
        other => panic!("delivered send did not advance: {:?}", other),
    };
    assert_eq!(
        final_task,
        Task::CommitMerge {
            region: local_region,
            peer: local_peer,
        }
    );
    assert_eq!(visited, vec![p1, p2, p3]);
}
