//! Client for the administrative commands of the region-merge handshake.
//!
//! The client sends one kind of command to a remote store and waits for the
//! correlated response, retrying a bounded number of times over a connection
//! it rebuilds after any failure. Sockets cannot be reasoned about directly,
//! so each delivery attempt is an event handed in as a plain value: the
//! connection was refused, the exchange failed, or a response with a message
//! type and a correlation id arrived. The retry loop, the bounded budget, the
//! connection-state bookkeeping and the correlation-id check — everything the
//! client decides — is verified over those events; the unverified shell owns
//! the socket and produces one event per attempt.

use vstd::prelude::*;

use crate::region::{Peer, Region, RegionView};

verus! {

/// How many delivery attempts one `send` makes before giving up.
pub const MAX_RAFT_RPC_SEND_RETRY_COUNT: usize = 2;

/// The message type tag carried on the wire: a command, or a command
/// response. A response whose tag is not `CmdResp` is malformed and counts as
/// a failed attempt.
#[derive(Clone, Copy, PartialEq, Eq, Structural, Debug)]
pub enum MessageType {
    Cmd,
    CmdResp,
}

/// The administrative command kinds of the merge handshake.
#[derive(Clone, Copy, PartialEq, Eq, Structural, Debug)]
pub enum AdminCmdType {
    SuspendRegion,
    ShutdownRegion,
}

/// An administrative command addressed to a region's peer: the header names
/// the region and peer and carries a fresh correlation identifier; the
/// payload names the command and the region descriptor it applies to.
#[derive(Clone, PartialEq, Eq, Debug)]
pub struct RaftCmdRequest {
    pub region_id: u64,
    pub peer: Peer,
    pub uuid: Vec<u8>,
    pub cmd_type: AdminCmdType,
    pub region: Region,
}

/// Mathematical view of a request.
pub struct RaftCmdRequestView {
    pub region_id: u64,
    pub peer: Peer,
    pub uuid: Seq<u8>,
    pub cmd_type: AdminCmdType,
    pub region: RegionView,
}

impl View for RaftCmdRequest {
    type V = RaftCmdRequestView;

    open spec fn view(&self) -> RaftCmdRequestView {
        RaftCmdRequestView {
            region_id: self.region_id,
            peer: self.peer,
            uuid: self.uuid@,
            cmd_type: self.cmd_type,
            region: self.region@,
        }
    }
}

/// What the network did on one delivery attempt: the connection could not be
/// established, the exchange failed mid-way, or a message with the given type
/// tag and correlation id came back.
#[derive(Clone, Copy, PartialEq, Eq, Structural, Debug)]
pub enum AttemptEvent {
    ConnectFailed,
    IoFailed,
    Response { msg_type: MessageType, id: u64 },
}

/// The client's errors. Exhausting the retry budget yields `SendFailed`
/// naming the target address; a response whose correlation id does not match
/// the request's is a protocol error, fatal for that send, never retried.
#[derive(Clone, PartialEq, Eq, Debug)]
pub enum RpcError {
    SendFailed { address: String },
    IdMismatch { expected: u64, got: u64 },
}

/// How one `send` ends, as a function of the correlation id it used and the
/// attempt events the network produced.
pub enum SendOutcome {
    Delivered,
    Mismatch { got: u64 },
    Exhausted,
}

/// The retry loop's outcome: attempts are consumed one by one, each failure —
/// no connection, a broken exchange, a malformed response type — spends one
/// unit of budget, and the first well-formed response ends the send: with
/// delivery if its correlation id matches, with a fatal mismatch otherwise.
pub open spec fn send_spec(msg_id: u64, events: Seq<AttemptEvent>, budget: nat) -> SendOutcome
    decreases budget,
{
    if budget == 0 || events.len() == 0 {
        SendOutcome::Exhausted
    } else {
        match events[0] {
            AttemptEvent::ConnectFailed => send_spec(msg_id, events.skip(1), (budget - 1) as nat),
            AttemptEvent::IoFailed => send_spec(msg_id, events.skip(1), (budget - 1) as nat),
            AttemptEvent::Response { msg_type, id } => {
                if msg_type != MessageType::CmdResp {
                    send_spec(msg_id, events.skip(1), (budget - 1) as nat)
                } else if id == msg_id {
                    SendOutcome::Delivered
                } else {
                    SendOutcome::Mismatch { got: id }
                }
            },
        }
    }
}

/// The connection state behind one client: the target address and whether a
/// connection is currently open. A connection is established lazily, torn
/// down on any failure, and kept only after a fully successful exchange.
pub struct RaftRpcClientCore {
    address: String,
    connected: bool,
}

impl RaftRpcClientCore {
    /// The target address.
    pub closed spec fn address_view(&self) -> Seq<char> {
        self.address@
    }

    /// Whether a connection is open.
    pub closed spec fn connected(&self) -> bool {
        self.connected
    }

    pub fn new(address: String) -> (c: RaftRpcClientCore)
        ensures
            c.address_view() == address@,
            !c.connected(),
    {
        RaftRpcClientCore { address, connected: false }
    }

    /// One send: up to `MAX_RAFT_RPC_SEND_RETRY_COUNT` delivery attempts of
    /// the request under correlation id `msg_id`, each consuming the next
    /// attempt event. Serializing the request onto the socket belongs to the
    /// boundary that produces the events, so only the events decide the
    /// result, which is exactly `send_spec` of them; a connection is held
    /// open after the call exactly when the send was delivered.
    pub fn send(&mut self, msg_id: u64, _req: &RaftCmdRequest, attempts: &Vec<AttemptEvent>) -> (r:
        Result<(), RpcError>)
        ensures
            final(self).address_view() == old(self).address_view(),
            match send_spec(msg_id, attempts@, MAX_RAFT_RPC_SEND_RETRY_COUNT as nat) {
                SendOutcome::Delivered => r == Ok::<(), RpcError>(()) && final(self).connected(),
                SendOutcome::Mismatch { got } => !final(self).connected() && (r matches Err(
                    RpcError::IdMismatch { expected, got: g },
                ) && expected == msg_id && g == got),
                SendOutcome::Exhausted => !final(self).connected() && (r matches Err(
                    RpcError::SendFailed { address },
                ) && address@ == old(self).address_view()),
            },
    {
        let mut tries: usize = 0;
        proof {
            assert(attempts@.skip(0) =~= attempts@);
        }
        while tries < MAX_RAFT_RPC_SEND_RETRY_COUNT && tries < attempts.len()
            invariant
                tries <= MAX_RAFT_RPC_SEND_RETRY_COUNT,
                tries <= attempts@.len(),
                send_spec(msg_id, attempts@, MAX_RAFT_RPC_SEND_RETRY_COUNT as nat) == send_spec(
                    msg_id,
                    attempts@.skip(tries as int),
                    (MAX_RAFT_RPC_SEND_RETRY_COUNT - tries) as nat,
                ),
                self.address@ == old(self).address@,
            decreases MAX_RAFT_RPC_SEND_RETRY_COUNT - tries,
        {
            proof {
                assert(attempts@.skip(tries as int)[0] == attempts@[tries as int]);
                assert(attempts@.skip(tries as int).skip(1) =~= attempts@.skip(tries as int + 1));
            }
            match attempts[tries] {
                AttemptEvent::ConnectFailed => {
                    // Connecting to the store failed; back off and retry.
                    self.connected = false;
                },
                AttemptEvent::IoFailed => {
                    // The exchange failed; the connection is discarded and
                    // rebuilt from scratch on the next attempt.
                    self.connected = false;
                },
                AttemptEvent::Response { msg_type, id } => {
                    if msg_type != MessageType::CmdResp {
                        // A malformed response counts as a failed attempt.
                        self.connected = false;
                    } else if id == msg_id {
                        self.connected = true;
                        return Ok(());
                    } else {
                        // A response correlated to some other request is a
                        // protocol error: fatal, never retried.
                        self.connected = false;
                        return Err(RpcError::IdMismatch { expected: msg_id, got: id });
                    }
                },
            }
            tries = tries + 1;
        }
        self.connected = false;
        Err(RpcError::SendFailed { address: self.address.clone() })
    }
}

/// A client for one target store: a monotonically increasing correlation-id
/// counter and the connection state all sends go through. In the running
/// system the counter is atomic and the core sits behind a mutex, so
/// concurrent callers serialize; the model owns both.
pub struct RaftRpcClient {
    msg_id: u64,
    core: RaftRpcClientCore,
}

impl RaftRpcClient {
    /// The next correlation id this client will use.
    pub closed spec fn msg_id(&self) -> u64 {
        self.msg_id
    }

    /// The target address.
    pub closed spec fn address_view(&self) -> Seq<char> {
        self.core.address@
    }

    /// Whether a connection is open.
    pub closed spec fn connected(&self) -> bool {
        self.core.connected
    }

    pub fn new(address: String) -> (c: RaftRpcClient)
        ensures
            c.msg_id() == 0,
            c.address_view() == address@,
            !c.connected(),
    {
        RaftRpcClient { msg_id: 0, core: RaftRpcClientCore::new(address) }
    }

    /// Allocate the next correlation id. Ids are unique and increasing per
    /// client, which is what lets a response be matched to its request on a
    /// shared connection.
    pub fn alloc_msg_id(&mut self) -> (id: u64)
        requires
            old(self).msg_id() < u64::MAX,
        ensures
            id == old(self).msg_id(),
            final(self).msg_id() == old(self).msg_id() + 1,
            final(self).address_view() == old(self).address_view(),
            final(self).connected() == old(self).connected(),
    {
        let id = self.msg_id;
        self.msg_id = self.msg_id + 1;
        id
    }

    /// Send one command under a fresh correlation id and wait for the matched
    /// response; the payload of a well-formed response is discarded beyond
    /// validating its type and id.
    pub fn send(&mut self, req: &RaftCmdRequest, attempts: &Vec<AttemptEvent>) -> (r: Result<
        (),
        RpcError,
    >)
        requires
            old(self).msg_id() < u64::MAX,
        ensures
            final(self).msg_id() == old(self).msg_id() + 1,
            final(self).address_view() == old(self).address_view(),
            match send_spec(old(self).msg_id(), attempts@, MAX_RAFT_RPC_SEND_RETRY_COUNT as nat) {
                SendOutcome::Delivered => r == Ok::<(), RpcError>(()) && final(self).connected(),
                SendOutcome::Mismatch { got } => !final(self).connected() && (r matches Err(
                    RpcError::IdMismatch { expected, got: g },
                ) && expected == old(self).msg_id() && g == got),
                SendOutcome::Exhausted => !final(self).connected() && (r matches Err(
                    RpcError::SendFailed { address },
                ) && address@ == old(self).address_view()),
            },
    {
        let msg_id = self.alloc_msg_id();
        self.core.send(msg_id, req, attempts)
    }

    /// Build and send the command that suspends `region` ahead of a merge.
    /// What the command holds is fixed by `build_admin_request`; putting its
    /// bytes on the wire belongs to the boundary that produces the attempt
    /// events, so the result here depends on those events alone.
    pub fn send_suspend_region(
        &mut self,
        region: &Region,
        peer: Peer,
        attempts: &Vec<AttemptEvent>,
    ) -> (r: Result<(), RpcError>)
        requires
            old(self).msg_id() < u64::MAX,
        ensures
            final(self).msg_id() == old(self).msg_id() + 1,
            final(self).address_view() == old(self).address_view(),
            match send_spec(old(self).msg_id(), attempts@, MAX_RAFT_RPC_SEND_RETRY_COUNT as nat) {
                SendOutcome::Delivered => r == Ok::<(), RpcError>(()) && final(self).connected(),
                SendOutcome::Mismatch { got } => !final(self).connected() && (r matches Err(
                    RpcError::IdMismatch { expected, got: g },
                ) && expected == old(self).msg_id() && g == got),
                SendOutcome::Exhausted => !final(self).connected() && (r matches Err(
                    RpcError::SendFailed { address },
                ) && address@ == old(self).address_view()),
            },
    {
        let req = build_admin_request(AdminCmdType::SuspendRegion, region, peer);
        self.send(&req, attempts)
    }

    /// Build and send the command that shuts a region down once it has been
    /// merged away. What the command holds is fixed by `build_admin_request`;
    /// putting its bytes on the wire belongs to the boundary that produces
    /// the attempt events, so the result here depends on those events alone.
    pub fn send_shutdown_region(
        &mut self,
        region: &Region,
        peer: Peer,
        attempts: &Vec<AttemptEvent>,
    ) -> (r: Result<(), RpcError>)
        requires
            old(self).msg_id() < u64::MAX,
        ensures
            final(self).msg_id() == old(self).msg_id() + 1,
            final(self).address_view() == old(self).address_view(),
            match send_spec(old(self).msg_id(), attempts@, MAX_RAFT_RPC_SEND_RETRY_COUNT as nat) {
                SendOutcome::Delivered => r == Ok::<(), RpcError>(()) && final(self).connected(),
                SendOutcome::Mismatch { got } => !final(self).connected() && (r matches Err(
                    RpcError::IdMismatch { expected, got: g },
                ) && expected == old(self).msg_id() && g == got),
                SendOutcome::Exhausted => !final(self).connected() && (r matches Err(
                    RpcError::SendFailed { address },
                ) && address@ == old(self).address_view()),
            },
    {
        let req = build_admin_request(AdminCmdType::ShutdownRegion, region, peer);
        self.send(&req, attempts)
    }
}

/// Relies on `uuid::Uuid::new_v4` and `Uuid::as_bytes`: a fresh version-4
/// identifier is sixteen bytes. The bytes are random, so nothing more is
/// assumed of them.
#[verifier::external_body]
fn fresh_uuid() -> (r: Vec<u8>)
    ensures
        r@.len() == 16,
{
    uuid::Uuid::new_v4().as_bytes().to_vec()
}

/// Build an administrative command addressed to `region`'s `peer`, tagged
/// with a fresh sixteen-byte correlation identifier in its header.
pub fn build_admin_request(cmd_type: AdminCmdType, region: &Region, peer: Peer) -> (r:
    RaftCmdRequest)
    ensures
        r@.cmd_type == cmd_type,
        r@.region_id == region@.id,
        r@.peer == peer,
        r@.region == region@,
        r@.uuid.len() == 16,
{
    RaftCmdRequest {
        region_id: region.id,
        peer,
        uuid: fresh_uuid(),
        cmd_type,
        region: region.duplicate(),
    }
}

} // verus!
