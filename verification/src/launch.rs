//! The launch of one node as a sequence of decisions.
//!
//! A [`Launch`] never performs an effect itself. It asks for one through an
//! [`Action`], the caller carries it out and reports what happened as an
//! [`Event`], and the launch answers with the next action. The sequence ends
//! with [`Action::Ready`] or [`Action::Abort`].

use vstd::prelude::*;
use vstd::string::*;
use crate::conf::{Conf, ConfView, HostAddr, IdHost, IdHostView};
use crate::error::LaunchError;
use crate::instance::{Instance, InstanceView, Teardown};
use crate::plan::{
    control_socket_path, parse_credentials, plan_of, socket_path, split_credentials, Credentials,
    CredentialsView, LaunchPlan, LaunchPlanView,
};

verus! {

/// How many times at most a readiness check is made in each phase.
pub const MAX_ATTEMPTS: u8 = 60;

/// The pause between two attempts of a readiness check, in milliseconds.
pub const POLL_INTERVAL_MS: u64 = 500;

/// What a launch is waiting for.
#[derive(Debug, PartialEq, Eq, Clone, Copy, Structural)]
pub enum Stage {
    /// The working directory is being created.
    Workspace,
    /// The backend's credential file is being read.
    Credentials,
    /// A port for the peer-to-peer listener is being reserved.
    Port,
    /// The node process is being started.
    Process,
    /// The node's control socket has not appeared yet.
    Socket,
    /// The node has not reported itself synchronised yet.
    Sync,
    /// The node is connecting to the peer named in the settings.
    Peer,
    /// The node is up. The launch is over.
    Ready,
    /// The launch was abandoned. It is over.
    Failed,
}

impl Stage {
    /// What a launch holds at this stage and has to release when it is
    /// abandoned there: the working directory once it exists, the process
    /// once it was started, and the node behind the control socket once
    /// that socket was seen. A failed launch holds nothing any more.
    pub open spec fn cleanup(self) -> Teardown {
        Teardown {
            stop_daemon: self.socket_seen(),
            kill_process: self.process_runs(),
            remove_workspace: self != Stage::Workspace && self != Stage::Failed,
        }
    }

    /// The stages in which the control socket is known to exist.
    pub open spec fn socket_seen(self) -> bool {
        self == Stage::Sync || self == Stage::Peer || self == Stage::Ready
    }

    /// The stages in which the node process runs.
    pub open spec fn process_runs(self) -> bool {
        self == Stage::Socket || self == Stage::Sync || self == Stage::Peer || self == Stage::Ready
    }

    /// The place of the stage in the order in which a launch passes through
    /// them.
    pub open spec fn rank(self) -> nat {
        match self {
            Stage::Workspace => 0,
            Stage::Credentials => 1,
            Stage::Port => 2,
            Stage::Process => 3,
            Stage::Socket => 4,
            Stage::Sync => 5,
            Stage::Peer => 6,
            Stage::Ready => 7,
            Stage::Failed => 8,
        }
    }

    /// The two stages after which nothing more happens.
    pub open spec fn is_final(self) -> bool {
        self == Stage::Ready || self == Stage::Failed
    }
}

/// What a node answers to a status query, as far as a launch reads it.
#[derive(Debug, PartialEq, Eq)]
pub struct NodeStatus {
    /// The node's identity.
    pub id: String,
    /// Present while the backend is still synchronising with the network.
    pub warning_bitcoind_sync: Option<String>,
    /// Present while the node is still synchronising with the backend.
    pub warning_lightningd_sync: Option<String>,
}

/// The mathematical content of a [`NodeStatus`].
pub struct NodeStatusView {
    pub id: Seq<char>,
    pub warning_bitcoind_sync: Option<Seq<char>>,
    pub warning_lightningd_sync: Option<Seq<char>>,
}

impl NodeStatusView {
    /// A node is synchronised when it reports neither warning.
    pub open spec fn synced(self) -> bool {
        self.warning_bitcoind_sync is None && self.warning_lightningd_sync is None
    }
}

/// The content of an optional string.
pub open spec fn text_of(s: Option<String>) -> Option<Seq<char>> {
    match s {
        Some(s) => Some(s@),
        None => None,
    }
}

impl View for NodeStatus {
    type V = NodeStatusView;

    open spec fn view(&self) -> NodeStatusView {
        NodeStatusView {
            id: self.id@,
            warning_bitcoind_sync: text_of(self.warning_bitcoind_sync),
            warning_lightningd_sync: text_of(self.warning_lightningd_sync),
        }
    }
}

/// What happened when the caller carried out an [`Action`].
#[derive(Debug)]
pub enum Event {
    /// The working directory exists at the given path.
    WorkspaceCreated(String),
    /// The credential file was read; `None` if it could not be.
    CredentialsRead(Option<String>),
    /// The operating system handed out this free port.
    PortAllocated(u16),
    /// The node process runs.
    Spawned,
    /// Creating the directory, reserving the port or starting the process failed.
    IoFailed(std::io::Error),
    /// Whether the control socket exists.
    SocketProbed(bool),
    /// The node's answer to a status query; `None` if the query failed.
    StatusReplied(Option<NodeStatus>),
    /// The node is connected to the peer.
    Connected,
    /// The node could not connect to the peer.
    ConnectFailed(clightningrpc::Error),
}

/// The mathematical content of an [`Event`].
pub enum EventView {
    WorkspaceCreated(Seq<char>),
    CredentialsRead(Option<Seq<char>>),
    PortAllocated(u16),
    Spawned,
    IoFailed(std::io::Error),
    SocketProbed(bool),
    StatusReplied(Option<NodeStatusView>),
    Connected,
    ConnectFailed(clightningrpc::Error),
}

impl View for Event {
    type V = EventView;

    open spec fn view(&self) -> EventView {
        match *self {
            Event::WorkspaceCreated(path) => EventView::WorkspaceCreated(path@),
            Event::CredentialsRead(content) => EventView::CredentialsRead(text_of(content)),
            Event::PortAllocated(port) => EventView::PortAllocated(port),
            Event::Spawned => EventView::Spawned,
            Event::IoFailed(e) => EventView::IoFailed(e),
            Event::SocketProbed(exists) => EventView::SocketProbed(exists),
            Event::StatusReplied(reply) => EventView::StatusReplied(
                match reply {
                    Some(status) => Some(status@),
                    None => None,
                },
            ),
            Event::Connected => EventView::Connected,
            Event::ConnectFailed(e) => EventView::ConnectFailed(e),
        }
    }
}

/// What the caller has to do next.
#[derive(Debug)]
pub enum Action {
    /// Create a fresh working directory.
    CreateWorkspace,
    /// Read the backend's credential file.
    ReadCredentials,
    /// Ask the operating system for a free port on the loopback interface.
    AllocatePort,
    /// Start the node process.
    Spawn(LaunchPlan),
    /// Wait `delay_ms` milliseconds, then look whether `path` exists.
    ProbeSocket { path: String, delay_ms: u64 },
    /// Wait `delay_ms` milliseconds, then query the node's status through
    /// the control socket at `socket`.
    QueryStatus { socket: String, delay_ms: u64 },
    /// Tell the node to connect to the peer `id`, at `host` if that is given.
    Connect { id: String, host: Option<String> },
    /// The node is up; the launch is over.
    Ready(Instance),
    /// The launch failed with `error`; release what `cleanup` names.
    Abort { error: LaunchError, cleanup: Teardown },
}

/// The mathematical content of an [`Action`].
pub enum ActionView {
    CreateWorkspace,
    ReadCredentials,
    AllocatePort,
    Spawn(LaunchPlanView),
    ProbeSocket { path: Seq<char>, delay_ms: u64 },
    QueryStatus { socket: Seq<char>, delay_ms: u64 },
    Connect { id: Seq<char>, host: Option<Seq<char>> },
    Ready(InstanceView),
    Abort { error: LaunchError, cleanup: Teardown },
}

impl View for Action {
    type V = ActionView;

    open spec fn view(&self) -> ActionView {
        match *self {
            Action::CreateWorkspace => ActionView::CreateWorkspace,
            Action::ReadCredentials => ActionView::ReadCredentials,
            Action::AllocatePort => ActionView::AllocatePort,
            Action::Spawn(plan) => ActionView::Spawn(plan@),
            Action::ProbeSocket { path, delay_ms } => ActionView::ProbeSocket {
                path: path@,
                delay_ms,
            },
            Action::QueryStatus { socket, delay_ms } => ActionView::QueryStatus {
                socket: socket@,
                delay_ms,
            },
            Action::Connect { id, host } => ActionView::Connect { id: id@, host: text_of(host) },
            Action::Ready(instance) => ActionView::Ready(instance@),
            Action::Abort { error, cleanup } => ActionView::Abort { error, cleanup },
        }
    }
}

/// The credentials in what was read from the credential file, if any.
pub open spec fn credentials_in(content: Option<Seq<char>>) -> Option<CredentialsView> {
    match content {
        Some(content) => split_credentials(content),
        None => None,
    }
}

/// A reply shows readiness if the query succeeded and the node is synchronised.
pub open spec fn shows_ready(reply: Option<NodeStatusView>) -> bool {
    reply matches Some(status) && status.synced()
}

/// The state of a launch.
#[derive(Debug)]
pub struct Launch {
    conf: Conf,
    backend: HostAddr,
    stage: Stage,
    workspace: String,
    credentials: Credentials,
    listen_on: Option<HostAddr>,
    attempts: u8,
    id: String,
}

/// The mathematical content of a [`Launch`].
pub struct LaunchView {
    /// The settings that the launch was started with.
    pub conf: ConfView,
    /// Where the backend's RPC interface listens.
    pub backend: HostAddr,
    /// What the launch is waiting for.
    pub stage: Stage,
    /// The working directory; meaningful once it was created.
    pub workspace: Seq<char>,
    /// The backend's credentials; meaningful once they were read.
    pub credentials: CredentialsView,
    /// The address reserved for the peer-to-peer listener, if one was reserved.
    pub listen_on: Option<HostAddr>,
    /// How many attempts of the current readiness check have failed.
    pub attempts: nat,
    /// The node's identity; meaningful once the node reported itself ready.
    pub id: Seq<char>,
}

impl View for Launch {
    type V = LaunchView;

    closed spec fn view(&self) -> LaunchView {
        LaunchView {
            conf: self.conf@,
            backend: self.backend,
            stage: self.stage,
            workspace: self.workspace@,
            credentials: self.credentials@,
            listen_on: self.listen_on,
            attempts: self.attempts as nat,
            id: self.id@,
        }
    }
}

impl LaunchView {
    /// The state in which every launch begins.
    pub open spec fn initial(conf: ConfView, backend: HostAddr) -> LaunchView {
        LaunchView {
            conf,
            backend,
            stage: Stage::Workspace,
            workspace: Seq::empty(),
            credentials: CredentialsView { user: Seq::empty(), password: Seq::empty() },
            listen_on: None,
            attempts: 0,
            id: Seq::empty(),
        }
    }

    /// The events that answer what the launch is waiting for.
    pub open spec fn accepts(self, event: EventView) -> bool {
        match self.stage {
            Stage::Workspace => event is WorkspaceCreated || event is IoFailed,
            Stage::Credentials => event is CredentialsRead,
            Stage::Port => event is PortAllocated || event is IoFailed,
            Stage::Process => event is Spawned || event is IoFailed,
            Stage::Socket => event is SocketProbed,
            Stage::Sync => event is StatusReplied,
            Stage::Peer => event is Connected || event is ConnectFailed,
            Stage::Ready => false,
            Stage::Failed => false,
        }
    }

    /// The error with which the launch ends on `event`, if it ends with one.
    ///
    /// A failed system call ends it with that call's error, credentials that
    /// are absent or malformed with `MissingAuth`, a failed connection to
    /// the peer with the RPC error. A readiness check whose attempt number
    /// `MAX_ATTEMPTS` fails ends it with `SockPathNotExist` or
    /// `GetInfoSyncing`.
    pub open spec fn failure(self, event: EventView) -> Option<LaunchError> {
        match (self.stage, event) {
            (Stage::Workspace, EventView::IoFailed(e)) => Some(LaunchError::Io(e)),
            (Stage::Port, EventView::IoFailed(e)) => Some(LaunchError::Io(e)),
            (Stage::Process, EventView::IoFailed(e)) => Some(LaunchError::Io(e)),
            (Stage::Credentials, EventView::CredentialsRead(content)) => if credentials_in(
                content,
            ) is None {
                Some(LaunchError::MissingAuth)
            } else {
                None
            },
            (Stage::Socket, EventView::SocketProbed(exists)) => if !exists && self.attempts
                + 1 >= MAX_ATTEMPTS {
                Some(LaunchError::SockPathNotExist)
            } else {
                None
            },
            (Stage::Sync, EventView::StatusReplied(reply)) => if !shows_ready(reply)
                && self.attempts + 1 >= MAX_ATTEMPTS {
                Some(LaunchError::GetInfoSyncing)
            } else {
                None
            },
            (Stage::Peer, EventView::ConnectFailed(e)) => Some(LaunchError::Rpc(e)),
            _ => None,
        }
    }

    /// The state after an event that the launch accepts.
    pub open spec fn next(self, event: EventView) -> LaunchView {
        if self.failure(event) is Some {
            LaunchView { stage: Stage::Failed, ..self }
        } else {
            match (self.stage, event) {
                (Stage::Workspace, EventView::WorkspaceCreated(path)) => LaunchView {
                    stage: Stage::Credentials,
                    workspace: path,
                    ..self
                },
                (Stage::Credentials, EventView::CredentialsRead(content)) => LaunchView {
                    stage: if self.conf.p2p.listen_announce.listens() {
                        Stage::Port
                    } else {
                        Stage::Process
                    },
                    credentials: credentials_in(content)->0,
                    ..self
                },
                (Stage::Port, EventView::PortAllocated(port)) => LaunchView {
                    stage: Stage::Process,
                    listen_on: Some(HostAddr::spec_loopback(port)),
                    ..self
                },
                (Stage::Process, EventView::Spawned) => LaunchView {
                    stage: Stage::Socket,
                    attempts: 0,
                    ..self
                },
                (Stage::Socket, EventView::SocketProbed(exists)) => if exists {
                    LaunchView { stage: Stage::Sync, attempts: 0, ..self }
                } else {
                    LaunchView { attempts: self.attempts + 1, ..self }
                },
                (Stage::Sync, EventView::StatusReplied(reply)) => if shows_ready(reply) {
                    LaunchView {
                        stage: if self.conf.p2p.connect is Some {
                            Stage::Peer
                        } else {
                            Stage::Ready
                        },
                        id: reply->0.id,
                        ..self
                    }
                } else {
                    LaunchView { attempts: self.attempts + 1, ..self }
                },
                (Stage::Peer, EventView::Connected) => LaunchView { stage: Stage::Ready, ..self },
                _ => self,
            }
        }
    }

    /// The pause before an attempt of a readiness check: none before the
    /// first one, the poll interval before each later one.
    pub open spec fn delay_ms(self) -> u64 {
        if self.attempts == 0 {
            0
        } else {
            POLL_INTERVAL_MS
        }
    }

    /// The node that a completed launch hands out: a node that listens is
    /// known by its identity and the address of its listener, any other
    /// node exposes nothing.
    pub open spec fn instance(self) -> InstanceView {
        InstanceView {
            id_host: match self.listen_on {
                Some(addr) => Some(IdHostView { id: self.id, host: Some(addr) }),
                None => None,
            },
            live: true,
        }
    }

    /// What a launch that has not failed asks of the caller.
    pub open spec fn request(self) -> ActionView
        recommends
            self.stage != Stage::Failed,
    {
        match self.stage {
            Stage::Workspace => ActionView::CreateWorkspace,
            Stage::Credentials => ActionView::ReadCredentials,
            Stage::Port => ActionView::AllocatePort,
            Stage::Process => ActionView::Spawn(
                plan_of(self.workspace, self.backend, self.credentials, self.conf, self.listen_on),
            ),
            Stage::Socket => ActionView::ProbeSocket {
                path: socket_path(self.workspace),
                delay_ms: self.delay_ms(),
            },
            Stage::Sync => ActionView::QueryStatus {
                socket: socket_path(self.workspace),
                delay_ms: self.delay_ms(),
            },
            Stage::Peer => match self.conf.p2p.connect {
                Some(peer) => ActionView::Connect {
                    id: peer.id,
                    host: match peer.host {
                        Some(addr) => Some(addr.text()),
                        None => None,
                    },
                },
                None => arbitrary(),
            },
            Stage::Ready => ActionView::Ready(self.instance()),
            Stage::Failed => arbitrary(),
        }
    }

    /// The answer to an event that the launch accepts: the order to abort
    /// and clean up if the launch fails on it, else the next request.
    pub open spec fn reaction(self, event: EventView) -> ActionView {
        match self.failure(event) {
            Some(error) => ActionView::Abort { error, cleanup: self.stage.cleanup() },
            None => self.next(event).request(),
        }
    }

    /// The state after any event: an event that is not accepted changes
    /// nothing.
    pub open spec fn after(self, event: EventView) -> LaunchView {
        if self.accepts(event) {
            self.next(event)
        } else {
            self
        }
    }

    /// The state after a sequence of events.
    pub open spec fn run(self, events: Seq<EventView>) -> LaunchView
        decreases events.len(),
    {
        if events.len() == 0 {
            self
        } else {
            self.run(events.drop_last()).after(events.last())
        }
    }

    /// What holds of every state that a launch reaches.
    pub open spec fn wf(self) -> bool {
        &&& self.attempts < MAX_ATTEMPTS
        &&& (self.stage == Stage::Workspace || self.stage == Stage::Credentials || self.stage
            == Stage::Port) ==> self.listen_on is None
        &&& (self.stage == Stage::Process || self.stage.process_runs()) ==> (self.listen_on is Some
            <==> self.conf.p2p.listen_announce.listens())
        &&& self.listen_on is Some ==> self.conf.p2p.listen_announce.listens()
        &&& self.stage == Stage::Port ==> self.conf.p2p.listen_announce.listens()
        &&& self.stage == Stage::Peer ==> self.conf.p2p.connect is Some
    }
}

impl Stage {
    /// Names what a launch holds at this stage and has to release when it
    /// is abandoned there.
    pub fn release(self) -> (cleanup: Teardown)
        ensures
            cleanup == self.cleanup(),
    {
        match self {
            Stage::Workspace | Stage::Failed => Teardown {
                stop_daemon: false,
                kill_process: false,
                remove_workspace: false,
            },
            Stage::Credentials | Stage::Port | Stage::Process => Teardown {
                stop_daemon: false,
                kill_process: false,
                remove_workspace: true,
            },
            Stage::Socket => Teardown {
                stop_daemon: false,
                kill_process: true,
                remove_workspace: true,
            },
            Stage::Sync | Stage::Peer | Stage::Ready => Teardown {
                stop_daemon: true,
                kill_process: true,
                remove_workspace: true,
            },
        }
    }
}

impl Launch {
    /// Begins the launch of a node with the settings `conf` next to the
    /// backend whose RPC interface listens on `backend`.
    pub fn start(conf: &Conf, backend: HostAddr) -> (begun: (Launch, Action))
        ensures
            begun.0@ == LaunchView::initial(conf@, backend),
            begun.0@.wf(),
            begun.1@ == begun.0@.request(),
    {
        let launch = Launch {
            conf: conf.clone(),
            backend,
            stage: Stage::Workspace,
            workspace: String::new(),
            credentials: Credentials { user: String::new(), password: String::new() },
            listen_on: None,
            attempts: 0,
            id: String::new(),
        };
        (launch, Action::CreateWorkspace)
    }

    /// What the launch is waiting for.
    pub fn stage(&self) -> (stage: Stage)
        ensures
            stage == self@.stage,
    {
        self.stage
    }

    fn delay(&self) -> (ms: u64)
        ensures
            ms == self@.delay_ms(),
    {
        if self.attempts == 0 {
            0
        } else {
            POLL_INTERVAL_MS
        }
    }

    fn spawn(&self) -> (action: Action)
        ensures
            action@ == ActionView::Spawn(
                plan_of(
                    self@.workspace,
                    self@.backend,
                    self@.credentials,
                    self@.conf,
                    self@.listen_on,
                ),
            ),
    {
        Action::Spawn(
            LaunchPlan::build(
                self.workspace.as_str(),
                &self.backend,
                &self.credentials,
                &self.conf,
                self.listen_on,
            ),
        )
    }

    fn probe(&self) -> (action: Action)
        ensures
            action@ == (ActionView::ProbeSocket {
                path: socket_path(self@.workspace),
                delay_ms: self@.delay_ms(),
            }),
    {
        Action::ProbeSocket {
            path: control_socket_path(self.workspace.as_str()),
            delay_ms: self.delay(),
        }
    }

    fn query(&self) -> (action: Action)
        ensures
            action@ == (ActionView::QueryStatus {
                socket: socket_path(self@.workspace),
                delay_ms: self@.delay_ms(),
            }),
    {
        Action::QueryStatus {
            socket: control_socket_path(self.workspace.as_str()),
            delay_ms: self.delay(),
        }
    }

    fn dial(peer: &IdHost) -> (action: Action)
        ensures
            action@ == (ActionView::Connect {
                id: peer@.id,
                host: match peer@.host {
                    Some(addr) => Some(addr.text()),
                    None => None,
                },
            }),
    {
        Action::Connect {
            id: peer.id.clone(),
            host: match peer.host {
                Some(addr) => Some(addr.to_text()),
                None => None,
            },
        }
    }

    fn ready(&self) -> (action: Action)
        ensures
            action@ == ActionView::Ready(self@.instance()),
    {
        let id_host = match self.listen_on {
            Some(addr) => Some(IdHost { id: self.id.clone(), host: Some(addr) }),
            None => None,
        };
        Action::Ready(Instance::new(id_host))
    }

    fn abort(&mut self, error: LaunchError) -> (action: Action)
        ensures
            action@ == (ActionView::Abort { error, cleanup: old(self)@.stage.cleanup() }),
            final(self)@ == (LaunchView { stage: Stage::Failed, ..old(self)@ }),
    {
        let cleanup = self.stage.release();
        self.stage = Stage::Failed;
        Action::Abort { error, cleanup }
    }

    /// Takes in what happened and answers with what to do next.
    ///
    /// An event that does not answer the pending request is handed back and
    /// changes nothing. After `Ready` or `Abort` no event is accepted.
    pub fn step(&mut self, event: Event) -> (answer: Result<Action, Event>)
        ensures
            old(self)@.accepts(event@) ==> answer is Ok && answer->Ok_0@ == old(self)@.reaction(
                event@,
            ) && final(self)@ == old(self)@.next(event@),
            !old(self)@.accepts(event@) ==> answer == Err::<Action, Event>(event) && final(self)@
                == old(self)@,
            old(self)@.wf() ==> final(self)@.wf(),
    {
        match self.stage {
            Stage::Workspace => match event {
                Event::WorkspaceCreated(path) => {
                    self.workspace = path;
                    self.stage = Stage::Credentials;
                    Ok(Action::ReadCredentials)
                },
                Event::IoFailed(e) => Ok(self.abort(LaunchError::Io(e))),
                other => Err(other),
            },
            Stage::Credentials => match event {
                Event::CredentialsRead(content) => {
                    let found = match &content {
                        Some(content) => parse_credentials(content.as_str()),
                        None => None,
                    };
                    match found {
                        Some(credentials) => {
                            self.credentials = credentials;
                            if self.conf.p2p.listen_announce.is_listening() {
                                self.stage = Stage::Port;
                                Ok(Action::AllocatePort)
                            } else {
                                self.stage = Stage::Process;
                                Ok(self.spawn())
                            }
                        },
                        None => Ok(self.abort(LaunchError::MissingAuth)),
                    }
                },
                other => Err(other),
            },
            Stage::Port => match event {
                Event::PortAllocated(port) => {
                    self.listen_on = Some(HostAddr::loopback(port));
                    self.stage = Stage::Process;
                    Ok(self.spawn())
                },
                Event::IoFailed(e) => Ok(self.abort(LaunchError::Io(e))),
                other => Err(other),
            },
            Stage::Process => match event {
                Event::Spawned => {
                    self.stage = Stage::Socket;
                    self.attempts = 0;
                    Ok(self.probe())
                },
                Event::IoFailed(e) => Ok(self.abort(LaunchError::Io(e))),
                other => Err(other),
            },
            Stage::Socket => match event {
                Event::SocketProbed(exists) => {
                    if exists {
                        self.stage = Stage::Sync;
                        self.attempts = 0;
                        Ok(self.query())
                    } else if self.attempts >= MAX_ATTEMPTS - 1 {
                        Ok(self.abort(LaunchError::SockPathNotExist))
                    } else {
                        self.attempts = self.attempts + 1;
                        Ok(self.probe())
                    }
                },
                other => Err(other),
            },
            Stage::Sync => match event {
                Event::StatusReplied(reply) => {
                    let id = match reply {
                        Some(status) => {
                            if status.warning_bitcoind_sync.is_none()
                                && status.warning_lightningd_sync.is_none() {
                                Some(status.id)
                            } else {
                                None
                            }
                        },
                        None => None,
                    };
                    match id {
                        Some(id) => {
                            self.id = id;
                            match &self.conf.p2p.connect {
                                Some(peer) => {
                                    let action = Self::dial(peer);
                                    self.stage = Stage::Peer;
                                    Ok(action)
                                },
                                None => {
                                    self.stage = Stage::Ready;
                                    Ok(self.ready())
                                },
                            }
                        },
                        None => {
                            if self.attempts >= MAX_ATTEMPTS - 1 {
                                Ok(self.abort(LaunchError::GetInfoSyncing))
                            } else {
                                self.attempts = self.attempts + 1;
                                Ok(self.query())
                            }
                        },
                    }
                },
                other => Err(other),
            },
            Stage::Peer => match event {
                Event::Connected => {
                    self.stage = Stage::Ready;
                    Ok(self.ready())
                },
                Event::ConnectFailed(e) => Ok(self.abort(LaunchError::Rpc(e))),
                other => Err(other),
            },
            Stage::Ready => Err(event),
            Stage::Failed => Err(event),
        }
    }
}

} // verus!
