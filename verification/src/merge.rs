//! The region-merge task state machine.
//!
//! Merging two adjacent regions takes a handshake of administrative commands
//! — suspend, then commit, then shutdown — addressed to a leader peer whose
//! address must first be resolved from its store id. The coordinator never
//! blocks on that resolution: it hands the resolver a continuation carrying
//! everything the follow-up step needs, and the continuation re-enters the
//! system as a new task on the coordinator's own queue. Every failure in the
//! suspend phase — resolution failed, or the command could not be delivered —
//! is handled the same way: rotate to the region's next peer and re-submit
//! the initiating step.
//!
//! The coordinator's decisions are verified as functions from task and event
//! to the next task or action; the unverified shell performs the actions
//! (asking the resolver, driving the socket) and feeds the results back.

use vstd::prelude::*;

use crate::region::{Peer, Region, RegionView};
use crate::rpc::{AttemptEvent, RaftRpcClient, SendOutcome, MAX_RAFT_RPC_SEND_RETRY_COUNT};
use crate::rpc::send_spec;

verus! {

/// Which protocol step a continuation resumes once an address is resolved.
#[derive(Clone, Copy, PartialEq, Eq, Structural, Debug)]
pub enum TaskType {
    SuspendRegion,
    ShutdownRegion,
}

/// Everything a follow-up step needs, carried across the asynchronous resolve
/// boundary: the resolution callback runs later and on another thread, so the
/// context owns its data. It is a transient, single-use value, consumed by
/// exactly one `AfterResolve` task; its address is valid only for that one
/// attempt — a failed attempt re-resolves from scratch.
#[derive(Clone, PartialEq, Eq, Debug)]
pub struct TaskContext {
    pub task_type: TaskType,
    pub region: Region,
    pub peer: Peer,
    pub local_region: Region,
    pub local_peer: Peer,
    pub address: String,
}

/// Mathematical view of a task context.
pub struct TaskContextView {
    pub task_type: TaskType,
    pub region: RegionView,
    pub peer: Peer,
    pub local_region: RegionView,
    pub local_peer: Peer,
    pub address: Seq<char>,
}

impl View for TaskContext {
    type V = TaskContextView;

    open spec fn view(&self) -> TaskContextView {
        TaskContextView {
            task_type: self.task_type,
            region: self.region@,
            peer: self.peer,
            local_region: self.local_region@,
            local_peer: self.local_peer,
            address: self.address@,
        }
    }
}

/// One element of the coordinator's queue.
#[derive(Clone, PartialEq, Eq, Debug)]
pub enum Task {
    /// Begin suspending `region` ahead of a merge, starting from the hint
    /// `leader`; completion is reported against the local controlling region
    /// and peer.
    SuspendRegion { region: Region, leader: Peer, local_region: Region, local_peer: Peer },
    /// Finalize the merge against the local controlling region.
    CommitMerge { region: Region, peer: Peer },
    /// Decommission a region already merged away, starting from the hint
    /// `leader`.
    ShutdownRegion { region: Region, leader: Peer },
    /// Continuation fired once a store id has been resolved to an address.
    AfterResolve { context: TaskContext },
}

/// Mathematical view of a task.
pub enum TaskView {
    SuspendRegion { region: RegionView, leader: Peer, local_region: RegionView, local_peer: Peer },
    CommitMerge { region: RegionView, peer: Peer },
    ShutdownRegion { region: RegionView, leader: Peer },
    AfterResolve { context: TaskContextView },
}

impl View for Task {
    type V = TaskView;

    open spec fn view(&self) -> TaskView {
        match self {
            Task::SuspendRegion { region, leader, local_region, local_peer } => (
            TaskView::SuspendRegion {
                region: region@,
                leader: *leader,
                local_region: local_region@,
                local_peer: *local_peer,
            }),
            Task::CommitMerge { region, peer } => (TaskView::CommitMerge {
                region: region@,
                peer: *peer,
            }),
            Task::ShutdownRegion { region, leader } => (TaskView::ShutdownRegion {
                region: region@,
                leader: *leader,
            }),
            Task::AfterResolve { context } => (TaskView::AfterResolve { context: context@ }),
        }
    }
}

/// The work the coordinator hands the resolver: turn `store_id` into a
/// network address, then fire the continuation with the captured data.
#[derive(Clone, PartialEq, Eq, Debug)]
pub struct ResolveRequest {
    pub store_id: u64,
    pub region: Region,
    pub peer: Peer,
    pub local_region: Region,
    pub local_peer: Peer,
}

/// Mathematical view of a resolve request.
pub struct ResolveRequestView {
    pub store_id: u64,
    pub region: RegionView,
    pub peer: Peer,
    pub local_region: RegionView,
    pub local_peer: Peer,
}

impl View for ResolveRequest {
    type V = ResolveRequestView;

    open spec fn view(&self) -> ResolveRequestView {
        ResolveRequestView {
            store_id: self.store_id,
            region: self.region@,
            peer: self.peer,
            local_region: self.local_region@,
            local_peer: self.local_peer,
        }
    }
}

/// What the coordinator asks its surroundings to do after handling one task:
/// hand a request to the resolver, submit a follow-up task to its own queue,
/// or nothing.
#[derive(Clone, PartialEq, Eq, Debug)]
pub enum Action {
    Resolve(ResolveRequest),
    Submit(Task),
    Idle,
}

/// The first index in `peers` holding the id, or -1 if no peer has it.
pub open spec fn peer_position(peers: Seq<Peer>, id: u64) -> int
    decreases peers.len(),
{
    if peers.len() == 0 {
        -1
    } else if peers[0].id == id {
        0
    } else {
        let rest = peer_position(peers.skip(1), id);
        if rest < 0 {
            -1
        } else {
            rest + 1
        }
    }
}

/// `peer_position` finds the first occurrence: a non-negative position is in
/// range, holds the id, and nothing before it does; a negative one means no
/// peer holds the id.
pub proof fn lemma_peer_position(peers: Seq<Peer>, id: u64)
    ensures
        peer_position(peers, id) >= 0 ==> {
            &&& peer_position(peers, id) < peers.len()
            &&& peers[peer_position(peers, id)].id == id
            &&& forall|j: int| 0 <= j < peer_position(peers, id) ==> peers[j].id != id
        },
        peer_position(peers, id) < 0 ==> forall|j: int|
            0 <= j < peers.len() ==> peers[j].id != id,
    decreases peers.len(),
{
    if peers.len() == 0 {
    } else if peers[0].id == id {
    } else {
        lemma_peer_position(peers.skip(1), id);
        let rest = peer_position(peers.skip(1), id);
        if rest >= 0 {
            assert forall|j: int| 0 <= j < rest + 1 implies peers[j].id != id by {
                if j > 0 {
                    assert(peers.skip(1)[j - 1] == peers[j]);
                }
            }
        } else {
            assert forall|j: int| 0 <= j < peers.len() implies peers[j].id != id by {
                if j > 0 {
                    assert(peers.skip(1)[j - 1] == peers[j]);
                }
            }
        }
    }
}

/// Where the round robin goes from `last_peer`: the peer after the first
/// occurrence of `last_peer`'s id, wrapping around; the first peer if the id
/// is absent from a non-empty list; `last_peer` itself if the list is empty.
pub open spec fn next_peer_spec(region: RegionView, last_peer: Peer) -> Peer {
    let pos = peer_position(region.peers, last_peer.id);
    if pos >= 0 {
        region.peers[(pos + 1) % (region.peers.len() as int)]
    } else if region.peers.len() > 0 {
        region.peers[0]
    } else {
        last_peer
    }
}

/// The next candidate leader of `region` after `last_peer`: if `last_peer` is
/// the i-th of n peers the result is the (i+1 mod n)-th; if it is absent from
/// a non-empty peer list the result is the first peer; if the list is empty
/// there is no candidate and `last_peer` comes back unchanged.
pub fn next_peer(region: &Region, last_peer: Peer) -> (r: Peer)
    ensures
        r == next_peer_spec(region@, last_peer),
{
    proof {
        lemma_peer_position(region.peers@, last_peer.id);
    }
    let n = region.peers.len();
    let mut i: usize = 0;
    while i < n
        invariant
            n == region.peers@.len(),
            i <= n,
            forall|j: int| 0 <= j < i ==> region.peers@[j].id != last_peer.id,
        decreases n - i,
    {
        if region.peers[i].id == last_peer.id {
            proof {
                lemma_peer_position(region.peers@, last_peer.id);
                let pos = peer_position(region.peers@, last_peer.id);
                assert(pos >= 0);
                assert(pos == i as int);
            }
            let next = if i + 1 == n {
                0
            } else {
                i + 1
            };
            proof {
                if i + 1 == n {
                    vstd::arithmetic::div_mod::lemma_mod_self_0(n as int);
                } else {
                    vstd::arithmetic::div_mod::lemma_small_mod((i + 1) as nat, n as nat);
                }
            }
            return region.peers[next];
        }
        i = i + 1;
    }
    proof {
        lemma_peer_position(region.peers@, last_peer.id);
    }
    if region.peers.len() == 0 {
        return last_peer;
    }
    region.peers[0]
}

/// The follow-up task after the suspend command was sent at a resolved
/// address: delivery advances the handshake to `CommitMerge` against the
/// local controlling region; any failure — exhausted retries or a correlation
/// mismatch — rotates to the region's next peer and re-submits the suspend
/// step.
pub open spec fn after_suspend_send(context: TaskContextView, attempts: Seq<AttemptEvent>) -> TaskView {
    match send_spec(0, attempts, MAX_RAFT_RPC_SEND_RETRY_COUNT as nat) {
        SendOutcome::Delivered => TaskView::CommitMerge {
            region: context.local_region,
            peer: context.local_peer,
        },
        _ => TaskView::SuspendRegion {
            region: context.region,
            leader: next_peer_spec(context.region, context.peer),
            local_region: context.local_region,
            local_peer: context.local_peer,
        },
    }
}

/// The merge coordinator: it consumes merge tasks from its worker's queue and
/// decides, for each task and each outcome the surroundings report, what
/// happens next. It keeps no state of its own — every send builds a fresh
/// client at the resolved address, and every continuation owns its data.
pub struct Runner {
}

impl Runner {
    pub fn new() -> (r: Runner) {
        Runner {}
    }

    /// Begin the suspend step: the leader's address is not known, so the
    /// coordinator asks the resolver for the leader's store, capturing in the
    /// request everything the continuation needs.
    pub fn handle_suspend_region(
        &self,
        region: Region,
        leader: Peer,
        local_region: Region,
        local_peer: Peer,
    ) -> (r: ResolveRequest)
        ensures
            r@ == (ResolveRequestView {
                store_id: leader.store_id,
                region: region@,
                peer: leader,
                local_region: local_region@,
                local_peer,
            }),
    {
        ResolveRequest {
            store_id: leader.store_id,
            region,
            peer: leader,
            local_region,
            local_peer,
        }
    }

    /// The continuation the resolver fires, exactly once, with its result:
    /// an address lets the handshake move to `AfterResolve`; a failure
    /// rotates to the region's next peer and re-submits the initiating step.
    pub fn resolve_callback(&self, req: ResolveRequest, result: Option<String>) -> (t: Task)
        ensures
            result matches Some(addr) ==> t@ == (TaskView::AfterResolve {
                context: TaskContextView {
                    task_type: TaskType::SuspendRegion,
                    region: req@.region,
                    peer: req@.peer,
                    local_region: req@.local_region,
                    local_peer: req@.local_peer,
                    address: addr@,
                },
            }),
            result is None ==> t@ == (TaskView::SuspendRegion {
                region: req@.region,
                leader: next_peer_spec(req@.region, req@.peer),
                local_region: req@.local_region,
                local_peer: req@.local_peer,
            }),
    {
        let ResolveRequest { store_id: _, region, peer, local_region, local_peer } = req;
        match result {
            Some(addr) => Task::AfterResolve {
                context: TaskContext {
                    task_type: TaskType::SuspendRegion,
                    region,
                    peer,
                    local_region,
                    local_peer,
                    address: addr,
                },
            },
            None => {
                let next = next_peer(&region, peer);
                Task::SuspendRegion { region, leader: next, local_region, local_peer }
            },
        }
    }

    /// Resume the handshake at the resolved address. For a suspend context, a
    /// fresh client sends the suspend command there — delivery advances the
    /// handshake to `CommitMerge` against the local controlling region, any
    /// failure rotates to the region's next peer and re-submits the suspend
    /// step. A shutdown context has no behavior: that phase of the protocol
    /// defines none here.
    pub fn handle_after_resolve(&self, context: TaskContext, attempts: &Vec<AttemptEvent>) -> (t:
        Option<Task>)
        ensures
            context@.task_type == TaskType::ShutdownRegion ==> t is None,
            context@.task_type == TaskType::SuspendRegion ==> (t matches Some(next) && next@
                == after_suspend_send(context@, attempts@)),
    {
        match context.task_type {
            TaskType::SuspendRegion => {
                let TaskContext { task_type: _, region, peer, local_region, local_peer, address } =
                    context;
                let mut client = RaftRpcClient::new(address);
                match client.send_suspend_region(&region, peer, attempts) {
                    Ok(()) => Some(Task::CommitMerge { region: local_region, peer: local_peer }),
                    Err(_) => {
                        let next = next_peer(&region, peer);
                        Some(
                            Task::SuspendRegion {
                                region,
                                leader: next,
                                local_region,
                                local_peer,
                            },
                        )
                    },
                }
            },
            TaskType::ShutdownRegion => None,
        }
    }

    /// Dispatch one dequeued task. A suspend step asks the resolver; a
    /// continuation resumes at the resolved address, consuming the attempt
    /// events the surroundings report for the send. The commit and shutdown
    /// steps have no behavior here — the protocol defines those phases but
    /// the coordinator does not act on them — so they leave the machine idle.
    pub fn run(&self, task: Task, attempts: &Vec<AttemptEvent>) -> (a: Action)
        ensures
            task@ matches TaskView::SuspendRegion { region, leader, local_region, local_peer }
                ==> (a matches Action::Resolve(req) && req@ == (ResolveRequestView {
                store_id: leader.store_id,
                region,
                peer: leader,
                local_region,
                local_peer,
            })),
            task@ matches TaskView::CommitMerge { .. } ==> a == Action::Idle,
            task@ matches TaskView::ShutdownRegion { .. } ==> a == Action::Idle,
            task@ matches TaskView::AfterResolve { context } ==> {
                &&& context.task_type == TaskType::ShutdownRegion ==> a == Action::Idle
                &&& context.task_type == TaskType::SuspendRegion ==> (a matches Action::Submit(next)
                    && next@ == after_suspend_send(context, attempts@))
            },
    {
        match task {
            Task::SuspendRegion { region, leader, local_region, local_peer } => Action::Resolve(
                self.handle_suspend_region(region, leader, local_region, local_peer),
            ),
            Task::CommitMerge { region: _, peer: _ } => Action::Idle,
            Task::ShutdownRegion { region: _, leader: _ } => Action::Idle,
            Task::AfterResolve { context } => match self.handle_after_resolve(context, attempts) {
                Some(next) => Action::Submit(next),
                None => Action::Idle,
            },
        }
    }
}

} // verus!
