//! What holds of every launch, whatever the caller reports.

use vstd::prelude::*;
use crate::conf::{ConfView, HostAddr, ListenAnnounce};
use crate::error::LaunchError;
use crate::instance::{InstanceView, Teardown};
use crate::plan::{network, p2p_args, plan_of, socket_name, socket_path, LaunchPlanView};
use crate::launch::{
    credentials_in, shows_ready, ActionView, EventView, LaunchView, NodeStatusView, Stage,
    MAX_ATTEMPTS, POLL_INTERVAL_MS,
};
use crate::text::{decimal, lemma_cancel_prefix, lemma_cancel_suffix, lemma_decimal_injective};

verus! {

/// An accepted event keeps a state well formed.
pub proof fn lemma_next_wf(state: LaunchView, event: EventView)
    requires
        state.wf(),
    ensures
        state.after(event).wf(),
{
}

/// Every state that a launch reaches is well formed.
pub proof fn lemma_run_wf(conf: ConfView, backend: HostAddr, events: Seq<EventView>)
    ensures
        LaunchView::initial(conf, backend).run(events).wf(),
    decreases events.len(),
{
    if events.len() > 0 {
        lemma_run_wf(conf, backend, events.drop_last());
        lemma_next_wf(LaunchView::initial(conf, backend).run(events.drop_last()), events.last());
    }
}

/// A launch never goes back to an earlier stage, and it keeps its settings.
pub proof fn law_stages_advance(state: LaunchView, events: Seq<EventView>, seen: int)
    requires
        0 <= seen <= events.len(),
    ensures
        state.run(events.take(seen)).stage.rank() <= state.run(events).stage.rank(),
        state.run(events).conf == state.conf,
        state.run(events).backend == state.backend,
    decreases events.len(),
{
    if seen == events.len() {
        assert(events.take(seen) =~= events);
    }
    if events.len() > 0 {
        law_stages_advance(state, events.drop_last(), if seen < events.len() { seen } else { 0 });
        if seen < events.len() {
            assert(events.take(seen) =~= events.drop_last().take(seen));
        }
    }
}

/// `events[at]` is `event`, and the launch accepted it when it came.
pub open spec fn taken_at(
    start: LaunchView,
    events: Seq<EventView>,
    at: int,
    event: EventView,
) -> bool {
    &&& 0 <= at < events.len()
    &&& events[at] == event
    &&& start.run(events.take(at)).accepts(event)
}

/// Somewhere among `events` the launch accepted `event`.
pub open spec fn took(start: LaunchView, events: Seq<EventView>, event: EventView) -> bool {
    exists|at: int| taken_at(start, events, at, event)
}

/// What the stage and the data of a launch tell about the events that it
/// accepted so far:
/// a reserved listener address is the loopback address with a port that
/// was reported as allocated; the process runs only after it was reported
/// as started; the control socket is used only after it was seen; the
/// node counts as ready only after a reply without warnings, whose
/// identity it keeps; the credentials and the working directory in use
/// are those that were reported.
pub open spec fn history(start: LaunchView, events: Seq<EventView>) -> bool {
    let now = start.run(events);
    &&& now.listen_on matches Some(addr) ==> addr == HostAddr::spec_loopback(addr.port) && took(
        start,
        events,
        EventView::PortAllocated(addr.port),
    )
    &&& now.stage.process_runs() ==> took(start, events, EventView::Spawned)
    &&& (now.stage == Stage::Sync || now.stage == Stage::Peer || now.stage == Stage::Ready)
        ==> took(start, events, EventView::SocketProbed(true))
    &&& (now.stage == Stage::Peer || now.stage == Stage::Ready) ==> exists|
        reply: Option<NodeStatusView>,
    |
        #![trigger took(start, events, EventView::StatusReplied(reply))]
        shows_ready(reply) && reply->0.id == now.id && took(
            start,
            events,
            EventView::StatusReplied(reply),
        )
    &&& 2 <= now.stage.rank() <= 7 ==> exists|content: Option<Seq<char>>|
        #![trigger took(start, events, EventView::CredentialsRead(content))]
        credentials_in(content) == Some(now.credentials) && took(
            start,
            events,
            EventView::CredentialsRead(content),
        )
    &&& 1 <= now.stage.rank() <= 7 ==> took(
        start,
        events,
        EventView::WorkspaceCreated(now.workspace),
    )
}

proof fn lemma_took_earlier(start: LaunchView, events: Seq<EventView>, event: EventView)
    requires
        events.len() > 0,
        took(start, events.drop_last(), event),
    ensures
        took(start, events, event),
{
    let at = choose|at: int| taken_at(start, events.drop_last(), at, event);
    assert(events.drop_last().take(at) =~= events.take(at));
    assert(taken_at(start, events, at, event));
}

proof fn lemma_took_last(start: LaunchView, events: Seq<EventView>)
    requires
        events.len() > 0,
        start.run(events.drop_last()).accepts(events.last()),
    ensures
        took(start, events, events.last()),
{
    let at = events.len() - 1;
    assert(events.take(at) =~= events.drop_last());
    assert(taken_at(start, events, at, events.last()));
}

/// Every launch keeps its history: the process runs only after it was
/// started, the control socket is used only after it was seen, and a node
/// is ready only after it reported itself synchronised.
pub proof fn law_history(conf: ConfView, backend: HostAddr, events: Seq<EventView>)
    ensures
        history(LaunchView::initial(conf, backend), events),
    decreases events.len(),
{
    let start = LaunchView::initial(conf, backend);
    if events.len() > 0 {
        let earlier = events.drop_last();
        let event = events.last();
        let before = start.run(earlier);
        let now = start.run(events);
        law_history(conf, backend, earlier);
        if before.accepts(event) {
            lemma_took_last(start, events);
        }
        if now.listen_on is Some && before.listen_on == now.listen_on {
            lemma_took_earlier(start, events, EventView::PortAllocated(now.listen_on->0.port));
        }
        if now.stage.process_runs() {
            if before.stage.process_runs() {
                lemma_took_earlier(start, events, EventView::Spawned);
            }
        }
        if now.stage == Stage::Sync || now.stage == Stage::Peer || now.stage == Stage::Ready {
            if before.stage == Stage::Sync || before.stage == Stage::Peer || before.stage
                == Stage::Ready {
                lemma_took_earlier(start, events, EventView::SocketProbed(true));
            }
        }
        if now.stage == Stage::Peer || now.stage == Stage::Ready {
            if before.stage == Stage::Peer || before.stage == Stage::Ready {
                let reply = choose|reply: Option<NodeStatusView>|
                    shows_ready(reply) && reply->0.id == before.id && took(
                        start,
                        earlier,
                        EventView::StatusReplied(reply),
                    );
                lemma_took_earlier(start, events, EventView::StatusReplied(reply));
            }
        }
        if 2 <= now.stage.rank() <= 7 {
            if 2 <= before.stage.rank() <= 7 {
                let content = choose|content: Option<Seq<char>>|
                    credentials_in(content) == Some(before.credentials) && took(
                        start,
                        earlier,
                        EventView::CredentialsRead(content),
                    );
                lemma_took_earlier(start, events, EventView::CredentialsRead(content));
            }
        }
        if 1 <= now.stage.rank() <= 7 {
            if 1 <= before.stage.rank() <= 7 {
                lemma_took_earlier(start, events, EventView::WorkspaceCreated(before.workspace));
            }
        }
    }
}

/// How an answer relates to the state that it leaves behind: the launch
/// hands out a node exactly when it becomes ready, and that node is the one
/// its state describes; it orders an abort exactly when it fails.
pub proof fn law_answers_match_states(state: LaunchView, event: EventView)
    requires
        state.wf(),
        state.accepts(event),
    ensures
        state.reaction(event) is Ready <==> state.next(event).stage == Stage::Ready,
        state.reaction(event) is Ready ==> state.reaction(event) == ActionView::Ready(
            state.next(event).instance(),
        ),
        state.reaction(event) is Abort <==> state.next(event).stage == Stage::Failed,
        state.reaction(event) is Abort <==> state.failure(event) is Some,
        state.reaction(event) is Spawn <==> state.next(event).stage == Stage::Process,
{
    lemma_next_wf(state, event);
}

/// A node that was not asked to listen exposes no address for peers:
/// neither its state nor any node handed out holds one.
pub proof fn law_quiet_node_exposes_no_peer_target(
    conf: ConfView,
    backend: HostAddr,
    events: Seq<EventView>,
    event: EventView,
)
    requires
        !conf.p2p.listen_announce.listens(),
    ensures
        ({
            let now = LaunchView::initial(conf, backend).run(events);
            &&& now.instance().id_host is None
            &&& now.accepts(event) ==> (now.reaction(event) matches ActionView::Ready(node)
                ==> node.id_host is None)
        }),
{
    let now = LaunchView::initial(conf, backend).run(events);
    lemma_run_wf(conf, backend, events);
    law_stages_advance(LaunchView::initial(conf, backend), events, 0);
    if now.accepts(event) {
        law_answers_match_states(now, event);
        lemma_next_wf(now, event);
    }
}

/// A node that was asked to listen and came up exposes itself under the
/// identity that it reported when it was ready, at the loopback address
/// with the port that was reported as allocated.
pub proof fn law_listener_exposes_allocated_port(
    conf: ConfView,
    backend: HostAddr,
    events: Seq<EventView>,
)
    requires
        conf.p2p.listen_announce.listens(),
        LaunchView::initial(conf, backend).run(events).stage == Stage::Ready,
    ensures
        ({
            let start = LaunchView::initial(conf, backend);
            let now = start.run(events);
            &&& now.instance().id_host matches Some(peer)
            &&& peer.host matches Some(addr)
            &&& addr.ip == (127u8, 0u8, 0u8, 1u8)
            &&& took(start, events, EventView::PortAllocated(addr.port))
            &&& exists|reply: Option<NodeStatusView>|
                #![trigger took(start, events, EventView::StatusReplied(reply))]
                shows_ready(reply) && reply->0.id == peer.id && took(
                    start,
                    events,
                    EventView::StatusReplied(reply),
                )
        }),
{
    let start = LaunchView::initial(conf, backend);
    lemma_run_wf(conf, backend, events);
    law_history(conf, backend, events);
    law_stages_advance(start, events, 0);
}

/// `count` reports that the control socket does not exist.
pub open spec fn probes_missing(count: nat) -> Seq<EventView> {
    Seq::new(count, |i: int| EventView::SocketProbed(false))
}

/// While the budget lasts, a missing control socket only counts as one
/// more failed attempt.
pub proof fn lemma_socket_polling(state: LaunchView, count: nat)
    requires
        state.stage == Stage::Socket,
        state.attempts + count < MAX_ATTEMPTS,
    ensures
        state.run(probes_missing(count)) == (LaunchView {
            attempts: state.attempts + count,
            ..state
        }),
    decreases count,
{
    if count > 0 {
        lemma_socket_polling(state, (count - 1) as nat);
        assert(probes_missing(count).drop_last() =~= probes_missing((count - 1) as nat));
    }
}

/// If the control socket never appears, the launch looks for it
/// `MAX_ATTEMPTS` times, `POLL_INTERVAL_MS` apart, and fails on the last
/// of these attempts with `SockPathNotExist`, ordering the process killed
/// and the working directory removed.
pub proof fn law_socket_never_appears(state: LaunchView)
    requires
        state.stage == Stage::Socket,
        state.attempts == 0,
    ensures
        forall|count: nat|
            count < MAX_ATTEMPTS ==> (#[trigger] state.run(probes_missing(count))).stage
                == Stage::Socket,
        forall|count: nat|
            count + 1 < MAX_ATTEMPTS ==> (#[trigger] state.run(probes_missing(count))).reaction(
                EventView::SocketProbed(false),
            ) == (ActionView::ProbeSocket {
                path: socket_path(state.workspace),
                delay_ms: POLL_INTERVAL_MS,
            }),
        state.run(probes_missing((MAX_ATTEMPTS - 1) as nat)).reaction(
            EventView::SocketProbed(false),
        ) == (ActionView::Abort {
            error: LaunchError::SockPathNotExist,
            cleanup: Teardown { stop_daemon: false, kill_process: true, remove_workspace: true },
        }),
        state.run(probes_missing(MAX_ATTEMPTS as nat)).stage == Stage::Failed,
{
    assert forall|count: nat| count < MAX_ATTEMPTS implies (#[trigger] state.run(
        probes_missing(count),
    )).stage == Stage::Socket by {
        lemma_socket_polling(state, count);
    }
    assert forall|count: nat| count + 1 < MAX_ATTEMPTS implies (#[trigger] state.run(
        probes_missing(count),
    )).reaction(EventView::SocketProbed(false)) == (ActionView::ProbeSocket {
        path: socket_path(state.workspace),
        delay_ms: POLL_INTERVAL_MS,
    }) by {
        lemma_socket_polling(state, count);
    }
    lemma_socket_polling(state, (MAX_ATTEMPTS - 1) as nat);
    let all = probes_missing(MAX_ATTEMPTS as nat);
    assert(all.drop_last() =~= probes_missing((MAX_ATTEMPTS - 1) as nat));
}

/// A control socket that appears at any of the `MAX_ATTEMPTS` attempts ends
/// the first phase at once: the launch turns to the node's status, without
/// a pause and with a fresh budget.
pub proof fn law_socket_seen_in_time(state: LaunchView, failed: nat)
    requires
        state.stage == Stage::Socket,
        state.attempts == 0,
        failed < MAX_ATTEMPTS,
    ensures
        ({
            let then = state.run(probes_missing(failed));
            let seen = EventView::SocketProbed(true);
            &&& then.accepts(seen)
            &&& then.reaction(seen) == (ActionView::QueryStatus {
                socket: socket_path(state.workspace),
                delay_ms: 0,
            })
            &&& then.next(seen) == (LaunchView { stage: Stage::Sync, attempts: 0, ..state })
        }),
{
    lemma_socket_polling(state, failed);
}

/// The reports of a sequence of status replies.
pub open spec fn status_events(replies: Seq<Option<NodeStatusView>>) -> Seq<EventView> {
    Seq::new(replies.len(), |i: int| EventView::StatusReplied(replies[i]))
}

/// None of the replies shows readiness.
pub open spec fn all_unready(replies: Seq<Option<NodeStatusView>>) -> bool {
    forall|i: int| 0 <= i < replies.len() ==> !shows_ready(#[trigger] replies[i])
}

/// While the budget lasts, a reply that does not show readiness only
/// counts as one more failed attempt.
pub proof fn lemma_sync_polling(state: LaunchView, replies: Seq<Option<NodeStatusView>>)
    requires
        state.stage == Stage::Sync,
        state.attempts + replies.len() < MAX_ATTEMPTS,
        all_unready(replies),
    ensures
        state.run(status_events(replies)) == (LaunchView {
            attempts: state.attempts + replies.len(),
            ..state
        }),
    decreases replies.len(),
{
    if replies.len() > 0 {
        lemma_sync_polling(state, replies.drop_last());
        assert(status_events(replies).drop_last() =~= status_events(replies.drop_last()));
        assert(!shows_ready(replies[replies.len() - 1]));
    }
}

/// If the node never reports itself synchronised, be it that its queries
/// fail or that they come back with a warning, the launch asks
/// `MAX_ATTEMPTS` times, `POLL_INTERVAL_MS` apart, and fails on the last
/// of these attempts with `GetInfoSyncing`, ordering the node stopped, the
/// process killed and the working directory removed.
pub proof fn law_sync_never_reached(state: LaunchView, replies: Seq<Option<NodeStatusView>>)
    requires
        state.stage == Stage::Sync,
        state.attempts == 0,
        replies.len() == MAX_ATTEMPTS,
        all_unready(replies),
    ensures
        forall|count: int|
            0 <= count < replies.len() ==> (#[trigger] state.run(
                status_events(replies.take(count)),
            )).stage == Stage::Sync,
        forall|count: int|
            0 <= count < replies.len() - 1 ==> (#[trigger] state.run(
                status_events(replies.take(count)),
            )).reaction(EventView::StatusReplied(replies[count])) == (ActionView::QueryStatus {
                socket: socket_path(state.workspace),
                delay_ms: POLL_INTERVAL_MS,
            }),
        state.run(status_events(replies.drop_last())).reaction(
            EventView::StatusReplied(replies.last()),
        ) == (ActionView::Abort {
            error: LaunchError::GetInfoSyncing,
            cleanup: Teardown { stop_daemon: true, kill_process: true, remove_workspace: true },
        }),
        state.run(status_events(replies)).stage == Stage::Failed,
{
    assert forall|count: int| 0 <= count < replies.len() implies (#[trigger] state.run(
        status_events(replies.take(count)),
    )).stage == Stage::Sync by {
        lemma_sync_polling(state, replies.take(count));
    }
    assert forall|count: int| 0 <= count < replies.len() - 1 implies (#[trigger] state.run(
        status_events(replies.take(count)),
    )).reaction(EventView::StatusReplied(replies[count])) == (ActionView::QueryStatus {
        socket: socket_path(state.workspace),
        delay_ms: POLL_INTERVAL_MS,
    }) by {
        lemma_sync_polling(state, replies.take(count));
        assert(!shows_ready(replies[count]));
    }
    lemma_sync_polling(state, replies.drop_last());
    assert(!shows_ready(replies[replies.len() - 1]));
    let all = status_events(replies);
    assert(all.drop_last() =~= status_events(replies.drop_last()));
    assert(all.last() == EventView::StatusReplied(replies.last()));
}

/// A reply without warnings at any of the `MAX_ATTEMPTS` attempts ends the
/// second phase at once: the launch keeps the identity that the node
/// reported and goes on to the peer, or is ready if there is none.
pub proof fn law_synced_in_time(
    state: LaunchView,
    unready: Seq<Option<NodeStatusView>>,
    status: NodeStatusView,
)
    requires
        state.stage == Stage::Sync,
        state.attempts == 0,
        unready.len() < MAX_ATTEMPTS,
        all_unready(unready),
        status.synced(),
    ensures
        ({
            let then = state.run(status_events(unready));
            let reply = EventView::StatusReplied(Some(status));
            &&& then.accepts(reply)
            &&& then.failure(reply) is None
            &&& then.next(reply).id == status.id
            &&& then.next(reply).stage == if state.conf.p2p.connect is Some {
                Stage::Peer
            } else {
                Stage::Ready
            }
        }),
{
    lemma_sync_polling(state, unready);
}

/// Tearing a node down twice releases nothing the second time: the
/// process is killed, the node stopped and the working directory removed
/// by the first teardown only.
pub proof fn law_teardown_idempotent(node: InstanceView)
    ensures
        node.live ==> node.release() == Teardown::everything(),
        node.torn_down().release() == Teardown::nothing(),
        node.torn_down().torn_down() == node.torn_down(),
        node.torn_down().id_host == node.id_host,
{
}

/// Credentials that are absent or malformed end the launch with
/// `MissingAuth` before any process is spawned: up to then the launch has
/// neither asked for a process nor taken one as started, and the abort
/// orders only the working directory removed.
pub proof fn law_missing_credentials_abort_before_spawn(
    conf: ConfView,
    backend: HostAddr,
    events: Seq<EventView>,
    content: Option<Seq<char>>,
)
    requires
        LaunchView::initial(conf, backend).run(events).stage == Stage::Credentials,
        credentials_in(content) is None,
    ensures
        ({
            let start = LaunchView::initial(conf, backend);
            let now = start.run(events);
            let event = EventView::CredentialsRead(content);
            &&& now.accepts(event)
            &&& now.reaction(event) == (ActionView::Abort {
                error: LaunchError::MissingAuth,
                cleanup: Teardown {
                    stop_daemon: false,
                    kill_process: false,
                    remove_workspace: true,
                },
            })
            &&& now.next(event).stage == Stage::Failed
            &&& forall|seen: int|
                0 <= seen <= events.len() ==> !((#[trigger] start.run(
                    events.take(seen),
                )).request() is Spawn)
            &&& !took(start, events, EventView::Spawned)
        }),
{
    let start = LaunchView::initial(conf, backend);
    assert forall|seen: int| 0 <= seen <= events.len() implies !((#[trigger] start.run(
        events.take(seen),
    )).request() is Spawn) by {
        law_stages_advance(start, events, seen);
    }
    if took(start, events, EventView::Spawned) {
        let at = choose|at: int| taken_at(start, events, at, EventView::Spawned);
        law_stages_advance(start, events, at);
    }
}

/// Running a sequence of events is running its first part and then the rest.
pub proof fn lemma_run_split(state: LaunchView, events: Seq<EventView>, seen: int)
    requires
        0 <= seen <= events.len(),
    ensures
        state.run(events) == state.run(events.take(seen)).run(events.skip(seen)),
    decreases events.len(),
{
    if seen == events.len() {
        assert(events.take(seen) =~= events);
        assert(events.skip(seen) =~= Seq::empty());
    } else {
        lemma_run_split(state, events.drop_last(), seen);
        assert(events.drop_last().take(seen) =~= events.take(seen));
        assert(events.drop_last().skip(seen) =~= events.skip(seen).drop_last());
    }
}

/// Once the process is to be started, the working directory, the
/// credentials and the listener address of a launch are settled.
pub proof fn lemma_settled(state: LaunchView, events: Seq<EventView>)
    requires
        state.stage.rank() >= 3,
    ensures
        state.run(events).stage.rank() >= 3,
        state.run(events).workspace == state.workspace,
        state.run(events).credentials == state.credentials,
        state.run(events).listen_on == state.listen_on,
    decreases events.len(),
{
    if events.len() > 0 {
        lemma_settled(state, events.drop_last());
    }
}

/// A node that came up was started with the plan for the very data that
/// the launch ends with: its working directory, the backend's credentials
/// and, for a node that listens, the address under which it is exposed.
pub proof fn law_ready_node_ran_its_plan(
    conf: ConfView,
    backend: HostAddr,
    events: Seq<EventView>,
)
    requires
        LaunchView::initial(conf, backend).run(events).stage == Stage::Ready,
    ensures
        ({
            let start = LaunchView::initial(conf, backend);
            let now = start.run(events);
            exists|seen: int|
                #![trigger start.run(events.take(seen))]
                taken_at(start, events, seen, EventView::Spawned) && start.run(
                    events.take(seen),
                ).request() == ActionView::Spawn(
                    plan_of(now.workspace, backend, now.credentials, conf, now.listen_on),
                )
        }),
{
    let start = LaunchView::initial(conf, backend);
    law_history(conf, backend, events);
    let seen = choose|seen: int| taken_at(start, events, seen, EventView::Spawned);
    let then = start.run(events.take(seen));
    law_stages_advance(start, events.take(seen), 0);
    lemma_run_split(start, events, seen);
    lemma_settled(then, events.skip(seen));
}

/// Nodes that were given different ports are told to listen at different
/// addresses.
pub proof fn law_distinct_ports_distinct_listeners(mode: ListenAnnounce, p: u16, q: u16)
    requires
        mode.listens(),
        p != q,
    ensures
        HostAddr::spec_loopback(p).text() != HostAddr::spec_loopback(q).text(),
        p2p_args(mode, Some(HostAddr::spec_loopback(p))) != p2p_args(
            mode,
            Some(HostAddr::spec_loopback(q)),
        ),
{
    let a = HostAddr::spec_loopback(p);
    let b = HostAddr::spec_loopback(q);
    if a.text() == b.text() {
        lemma_cancel_prefix(a.host_text() + seq![':'], decimal(p as nat), decimal(q as nat));
        lemma_decimal_injective(p as nat, q as nat);
    }
    let flag = if mode == ListenAnnounce::Listen {
        "--bind-addr="@
    } else {
        "--addr="@
    };
    if p2p_args(mode, Some(a)) == p2p_args(mode, Some(b)) {
        assert(p2p_args(mode, Some(a))[0] == flag + a.text());
        assert(p2p_args(mode, Some(b))[0] == flag + b.text());
        lemma_cancel_prefix(flag, a.text(), b.text());
    }
}

/// Nodes that were given different working directories are told so, and
/// they look for their control sockets in different places.
pub proof fn law_distinct_workspaces_distinct_sockets(a: Seq<char>, b: Seq<char>)
    requires
        a != b,
    ensures
        socket_path(a) != socket_path(b),
        "--lightning-dir="@ + a != "--lightning-dir="@ + b,
{
    let tail = seq!['/'] + network() + seq!['/'] + socket_name();
    assert(socket_path(a) =~= a + tail);
    assert(socket_path(b) =~= b + tail);
    if socket_path(a) == socket_path(b) {
        lemma_cancel_suffix(a, b, tail);
    }
    if "--lightning-dir="@ + a == "--lightning-dir="@ + b {
        lemma_cancel_prefix("--lightning-dir="@, a, b);
    }
}

/// The plan with which a launch in this state starts its process.
pub open spec fn plan_in(state: LaunchView) -> LaunchPlanView {
    plan_of(state.workspace, state.backend, state.credentials, state.conf, state.listen_on)
}

/// Launches that were given different working directories start their
/// nodes in different directories and look for different control sockets;
/// listeners that were given different ports are told to listen at
/// different addresses and are exposed under different ones. That the
/// directories and ports handed to launches that run side by side do
/// differ is for the operating system to ensure.
pub proof fn law_launches_apart_stay_apart(a: LaunchView, b: LaunchView)
    ensures
        a.workspace != b.workspace ==> socket_path(a.workspace) != socket_path(b.workspace)
            && plan_in(a).args[5] != plan_in(b).args[5],
        ({
            &&& a.conf.p2p.listen_announce.listens()
            &&& b.conf.p2p.listen_announce.listens()
            &&& a.listen_on matches Some(here)
            &&& b.listen_on matches Some(there)
            &&& here == HostAddr::spec_loopback(here.port)
            &&& there == HostAddr::spec_loopback(there.port)
            &&& here.port != there.port
        }) ==> plan_in(a).args[6] != plan_in(b).args[6] && a.instance().id_host
            != b.instance().id_host,
{
    if a.workspace != b.workspace {
        law_distinct_workspaces_distinct_sockets(a.workspace, b.workspace);
        assert(plan_in(a).args[5] == "--lightning-dir="@ + a.workspace);
        assert(plan_in(b).args[5] == "--lightning-dir="@ + b.workspace);
    }
    let mode_a = a.conf.p2p.listen_announce;
    let mode_b = b.conf.p2p.listen_announce;
    if mode_a.listens() && mode_b.listens() && a.listen_on is Some && b.listen_on is Some {
        let here = a.listen_on->0;
        let there = b.listen_on->0;
        if here == HostAddr::spec_loopback(here.port) && there == HostAddr::spec_loopback(
            there.port,
        ) && here.port != there.port {
            let arg_a = p2p_args(mode_a, a.listen_on)[0];
            let arg_b = p2p_args(mode_b, b.listen_on)[0];
            assert(plan_in(a).args[6] == arg_a);
            assert(plan_in(b).args[6] == arg_b);
            if mode_a == mode_b {
                law_distinct_ports_distinct_listeners(mode_a, here.port, there.port);
                if arg_a == arg_b {
                    assert(p2p_args(mode_a, a.listen_on) =~= p2p_args(mode_b, b.listen_on));
                }
            } else {
                reveal_strlit("--bind-addr=");
                reveal_strlit("--addr=");
                assert(arg_a[2] != arg_b[2]);
            }
        }
    }
}

} // verus!
