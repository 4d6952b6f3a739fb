use lightningd::conf::{Conf, HostAddr, IdHost, ListenAnnounce, P2P};
use lightningd::instance::{Instance, Teardown};
use lightningd::launch::{
    Action, Event, Launch, NodeStatus, Stage, MAX_ATTEMPTS, POLL_INTERVAL_MS,
};
use lightningd::LaunchError;

const BACKEND: HostAddr = HostAddr { ip: (127, 0, 0, 1), port: 18443 };

fn conf_with(mode: ListenAnnounce, connect: Option<IdHost>) -> Conf {
    let mut conf = Conf::default();
    conf.p2p = P2P { connect, listen_announce: mode };
    conf
}

fn synced(id: &str) -> Event {
    Event::StatusReplied(Some(NodeStatus {
        id: id.to_string(),
        warning_bitcoind_sync: None,
        warning_lightningd_sync: None,
    }))
}

fn io_error() -> std::io::Error {
    std::io::Error::new(std::io::ErrorKind::Other, "refused")
}

/// Drives a launch up to the point where the process runs and the first
/// look for the control socket is pending.
fn spawned(conf: &Conf, workspace: &str, port: u16) -> Launch {
    let (mut launch, first) = Launch::start(conf, BACKEND);
    assert!(matches!(first, Action::CreateWorkspace));
    let answer = launch.step(Event::WorkspaceCreated(workspace.to_string())).unwrap();
    assert!(matches!(answer, Action::ReadCredentials));
    let answer = launch.step(Event::CredentialsRead(Some("__cookie__:pw".to_string()))).unwrap();
    if conf.p2p.listen_announce.is_listening() {
        assert!(matches!(answer, Action::AllocatePort));
        let answer = launch.step(Event::PortAllocated(port)).unwrap();
        assert!(matches!(answer, Action::Spawn(_)));
    } else {
        assert!(matches!(answer, Action::Spawn(_)));
    }
    let answer = launch.step(Event::Spawned).unwrap();
    assert!(matches!(answer, Action::ProbeSocket { .. }));
    launch
}

/// Drives a launch to its end with a node that is ready at once and
/// returns the node that it hands out.
fn brought_up(conf: &Conf, workspace: &str, port: u16, id: &str) -> Instance {
    let mut launch = spawned(conf, workspace, port);
    let answer = launch.step(Event::SocketProbed(true)).unwrap();
    assert!(matches!(answer, Action::QueryStatus { .. }));
    let mut answer = launch.step(synced(id)).unwrap();
    if let Action::Connect { .. } = answer {
        answer = launch.step(Event::Connected).unwrap();
    }
    assert_eq!(launch.stage(), Stage::Ready);
    match answer {
        Action::Ready(node) => node,
        other => panic!("unexpected answer {:?}", other),
    }
}

#[test]
fn launch_without_p2p_asks_for_each_step_in_order() {
    let mut conf = Conf::default();
    conf.args = vec!["--log-level=debug".to_string()];
    let (mut launch, first) = Launch::start(&conf, BACKEND);
    assert!(matches!(first, Action::CreateWorkspace));
    assert_eq!(launch.stage(), Stage::Workspace);

    let answer = launch.step(Event::WorkspaceCreated("/tmp/n1".to_string())).unwrap();
    assert!(matches!(answer, Action::ReadCredentials));
    assert_eq!(launch.stage(), Stage::Credentials);

    let answer = launch.step(Event::CredentialsRead(Some("__cookie__:pw".to_string()))).unwrap();
    match answer {
        Action::Spawn(plan) => {
            assert_eq!(
                plan.args,
                vec![
                    "--network=regtest",
                    "--bitcoin-rpcconnect=127.0.0.1",
                    "--bitcoin-rpcport=18443",
                    "--bitcoin-rpcuser=__cookie__",
                    "--bitcoin-rpcpassword=pw",
                    "--lightning-dir=/tmp/n1",
                    "--log-level=debug",
                ]
            );
            assert!(!plan.view_stdout);
        }
        other => panic!("unexpected answer {:?}", other),
    }
    assert_eq!(launch.stage(), Stage::Process);

    let answer = launch.step(Event::Spawned).unwrap();
    match answer {
        Action::ProbeSocket { path, delay_ms } => {
            assert_eq!(path, "/tmp/n1/regtest/lightning-rpc");
            assert_eq!(delay_ms, 0);
        }
        other => panic!("unexpected answer {:?}", other),
    }
    assert_eq!(launch.stage(), Stage::Socket);

    let answer = launch.step(Event::SocketProbed(true)).unwrap();
    match answer {
        Action::QueryStatus { socket, delay_ms } => {
            assert_eq!(socket, "/tmp/n1/regtest/lightning-rpc");
            assert_eq!(delay_ms, 0);
        }
        other => panic!("unexpected answer {:?}", other),
    }
    assert_eq!(launch.stage(), Stage::Sync);

    let answer = launch.step(synced("02aa")).unwrap();
    match answer {
        Action::Ready(node) => {
            assert!(node.id_host().is_none());
            assert!(node.is_live());
        }
        other => panic!("unexpected answer {:?}", other),
    }
    assert_eq!(launch.stage(), Stage::Ready);
}

#[test]
fn quiet_node_exposes_no_peer_target() {
    let conf = conf_with(ListenAnnounce::No, None);
    let node = brought_up(&conf, "/tmp/quiet", 0, "02aa");
    assert_eq!(node.id_host(), None);
    let connecting =
        conf_with(ListenAnnounce::No, Some(IdHost { id: "03bb".to_string(), host: None }));
    let node = brought_up(&connecting, "/tmp/quiet2", 0, "02aa");
    assert_eq!(node.id_host(), None);
}

#[test]
fn listening_node_exposes_identity_and_allocated_port() {
    for mode in [ListenAnnounce::Listen, ListenAnnounce::ListenAndAnnounce] {
        let conf = conf_with(mode, None);
        let node = brought_up(&conf, "/tmp/loud", 40123, "02aa");
        assert_eq!(
            node.id_host(),
            Some(&IdHost {
                id: "02aa".to_string(),
                host: Some(HostAddr { ip: (127, 0, 0, 1), port: 40123 }),
            })
        );
    }
}

#[test]
fn listening_launch_binds_the_allocated_port() {
    let conf = conf_with(ListenAnnounce::Listen, None);
    let (mut launch, _) = Launch::start(&conf, BACKEND);
    launch.step(Event::WorkspaceCreated("/tmp/l".to_string())).unwrap();
    let answer = launch.step(Event::CredentialsRead(Some("u:p".to_string()))).unwrap();
    assert!(matches!(answer, Action::AllocatePort));
    assert_eq!(launch.stage(), Stage::Port);
    match launch.step(Event::PortAllocated(51000)).unwrap() {
        Action::Spawn(plan) => {
            assert_eq!(plan.args.len(), 7);
            assert_eq!(plan.args[6], "--bind-addr=127.0.0.1:51000");
        }
        other => panic!("unexpected answer {:?}", other),
    }

    let conf = conf_with(ListenAnnounce::ListenAndAnnounce, None);
    let (mut launch, _) = Launch::start(&conf, BACKEND);
    launch.step(Event::WorkspaceCreated("/tmp/l".to_string())).unwrap();
    launch.step(Event::CredentialsRead(Some("u:p".to_string()))).unwrap();
    match launch.step(Event::PortAllocated(51001)).unwrap() {
        Action::Spawn(plan) => assert_eq!(plan.args[6], "--addr=127.0.0.1:51001"),
        other => panic!("unexpected answer {:?}", other),
    }
}

#[test]
fn second_node_is_told_to_connect_to_the_first() {
    let first = brought_up(&conf_with(ListenAnnounce::Listen, None), "/tmp/a", 40001, "02aa");
    assert!(first.id_host().is_some());

    let conf = conf_with(ListenAnnounce::Listen, first.id_host().cloned());
    let mut launch = spawned(&conf, "/tmp/b", 40002);
    launch.step(Event::SocketProbed(true)).unwrap();
    match launch.step(synced("03bb")).unwrap() {
        Action::Connect { id, host } => {
            assert_eq!(id, "02aa");
            assert_eq!(host, Some("127.0.0.1:40001".to_string()));
        }
        other => panic!("unexpected answer {:?}", other),
    }
    assert_eq!(launch.stage(), Stage::Peer);
    match launch.step(Event::Connected).unwrap() {
        Action::Ready(second) => assert_eq!(
            second.id_host(),
            Some(&IdHost { id: "03bb".to_string(), host: Some(HostAddr::loopback(40002)) })
        ),
        other => panic!("unexpected answer {:?}", other),
    }
}

#[test]
fn peer_without_address_is_dialled_by_identity_alone() {
    let conf = conf_with(ListenAnnounce::No, Some(IdHost { id: "02aa".to_string(), host: None }));
    let mut launch = spawned(&conf, "/tmp/c", 0);
    launch.step(Event::SocketProbed(true)).unwrap();
    match launch.step(synced("03bb")).unwrap() {
        Action::Connect { id, host } => {
            assert_eq!(id, "02aa");
            assert_eq!(host, None);
        }
        other => panic!("unexpected answer {:?}", other),
    }
}

#[test]
fn missing_socket_exhausts_budget_and_kills_process() {
    assert_eq!(MAX_ATTEMPTS, 60);
    assert_eq!(POLL_INTERVAL_MS, 500);
    let mut launch = spawned(&Conf::default(), "/tmp/s", 0);
    for _ in 0..59 {
        match launch.step(Event::SocketProbed(false)).unwrap() {
            Action::ProbeSocket { path, delay_ms } => {
                assert_eq!(path, "/tmp/s/regtest/lightning-rpc");
                assert_eq!(delay_ms, 500);
            }
            other => panic!("unexpected answer {:?}", other),
        }
        assert_eq!(launch.stage(), Stage::Socket);
    }
    match launch.step(Event::SocketProbed(false)).unwrap() {
        Action::Abort { error, cleanup } => {
            assert!(matches!(error, LaunchError::SockPathNotExist));
            assert_eq!(
                cleanup,
                Teardown { stop_daemon: false, kill_process: true, remove_workspace: true }
            );
        }
        other => panic!("unexpected answer {:?}", other),
    }
    assert_eq!(launch.stage(), Stage::Failed);
}

#[test]
fn socket_seen_on_last_attempt_still_succeeds() {
    let mut launch = spawned(&Conf::default(), "/tmp/s", 0);
    for _ in 0..59 {
        launch.step(Event::SocketProbed(false)).unwrap();
    }
    match launch.step(Event::SocketProbed(true)).unwrap() {
        Action::QueryStatus { delay_ms, .. } => assert_eq!(delay_ms, 0),
        other => panic!("unexpected answer {:?}", other),
    }
}

#[test]
fn unsynced_node_exhausts_budget() {
    let mut launch = spawned(&Conf::default(), "/tmp/y", 0);
    launch.step(Event::SocketProbed(true)).unwrap();
    for round in 0..59 {
        let reply = match round % 3 {
            0 => None,
            1 => Some(NodeStatus {
                id: "02aa".to_string(),
                warning_bitcoind_sync: Some("bitcoind is syncing".to_string()),
                warning_lightningd_sync: None,
            }),
            _ => Some(NodeStatus {
                id: "02aa".to_string(),
                warning_bitcoind_sync: None,
                warning_lightningd_sync: Some("still loading blocks".to_string()),
            }),
        };
        match launch.step(Event::StatusReplied(reply)).unwrap() {
            Action::QueryStatus { socket, delay_ms } => {
                assert_eq!(socket, "/tmp/y/regtest/lightning-rpc");
                assert_eq!(delay_ms, 500);
            }
            other => panic!("unexpected answer {:?}", other),
        }
        assert_eq!(launch.stage(), Stage::Sync);
    }
    match launch.step(Event::StatusReplied(None)).unwrap() {
        Action::Abort { error, cleanup } => {
            assert!(matches!(error, LaunchError::GetInfoSyncing));
            assert_eq!(
                cleanup,
                Teardown { stop_daemon: true, kill_process: true, remove_workspace: true }
            );
        }
        other => panic!("unexpected answer {:?}", other),
    }
    assert_eq!(launch.stage(), Stage::Failed);
}

#[test]
fn sync_budget_is_independent_of_socket_budget() {
    let mut launch = spawned(&Conf::default(), "/tmp/y", 0);
    for _ in 0..59 {
        launch.step(Event::SocketProbed(false)).unwrap();
    }
    launch.step(Event::SocketProbed(true)).unwrap();
    for _ in 0..59 {
        let answer = launch.step(Event::StatusReplied(None)).unwrap();
        assert!(matches!(answer, Action::QueryStatus { .. }));
    }
    match launch.step(synced("02aa")).unwrap() {
        Action::Ready(node) => assert!(node.is_live()),
        other => panic!("unexpected answer {:?}", other),
    }
}

#[test]
fn absent_or_malformed_credentials_abort_before_spawn() {
    for content in [None, Some(String::new()), Some("no-separator".to_string())] {
        let (mut launch, _) = Launch::start(&conf_with(ListenAnnounce::Listen, None), BACKEND);
        launch.step(Event::WorkspaceCreated("/tmp/m".to_string())).unwrap();
        match launch.step(Event::CredentialsRead(content)).unwrap() {
            Action::Abort { error, cleanup } => {
                assert!(matches!(error, LaunchError::MissingAuth));
                assert_eq!(
                    cleanup,
                    Teardown { stop_daemon: false, kill_process: false, remove_workspace: true }
                );
            }
            other => panic!("unexpected answer {:?}", other),
        }
        assert_eq!(launch.stage(), Stage::Failed);
        assert!(launch.step(Event::Spawned).is_err());
    }
}

#[test]
fn failed_system_calls_abort_with_their_error() {
    let (mut launch, _) = Launch::start(&Conf::default(), BACKEND);
    match launch.step(Event::IoFailed(io_error())).unwrap() {
        Action::Abort { error, cleanup } => {
            match error {
                LaunchError::Io(e) => assert_eq!(e.to_string(), "refused"),
                other => panic!("unexpected error {:?}", other),
            }
            assert_eq!(
                cleanup,
                Teardown { stop_daemon: false, kill_process: false, remove_workspace: false }
            );
        }
        other => panic!("unexpected answer {:?}", other),
    }

    let (mut launch, _) = Launch::start(&conf_with(ListenAnnounce::Listen, None), BACKEND);
    launch.step(Event::WorkspaceCreated("/tmp/p".to_string())).unwrap();
    launch.step(Event::CredentialsRead(Some("u:p".to_string()))).unwrap();
    match launch.step(Event::IoFailed(io_error())).unwrap() {
        Action::Abort { error, cleanup } => {
            assert!(matches!(error, LaunchError::Io(_)));
            assert_eq!(
                cleanup,
                Teardown { stop_daemon: false, kill_process: false, remove_workspace: true }
            );
        }
        other => panic!("unexpected answer {:?}", other),
    }

    let (mut launch, _) = Launch::start(&Conf::default(), BACKEND);
    launch.step(Event::WorkspaceCreated("/tmp/p".to_string())).unwrap();
    launch.step(Event::CredentialsRead(Some("u:p".to_string()))).unwrap();
    match launch.step(Event::IoFailed(io_error())).unwrap() {
        Action::Abort { error, cleanup } => {
            assert!(matches!(error, LaunchError::Io(_)));
            assert_eq!(
                cleanup,
                Teardown { stop_daemon: false, kill_process: false, remove_workspace: true }
            );
        }
        other => panic!("unexpected answer {:?}", other),
    }
    assert_eq!(launch.stage(), Stage::Failed);
}

#[test]
fn failed_connect_aborts_with_rpc_error() {
    let conf = conf_with(ListenAnnounce::No, Some(IdHost { id: "02aa".to_string(), host: None }));
    let mut launch = spawned(&conf, "/tmp/r", 0);
    launch.step(Event::SocketProbed(true)).unwrap();
    launch.step(synced("03bb")).unwrap();
    match launch.step(Event::ConnectFailed(clightningrpc::Error::NoErrorOrResult)).unwrap() {
        Action::Abort { error, cleanup } => {
            assert!(matches!(error, LaunchError::Rpc(clightningrpc::Error::NoErrorOrResult)));
            assert_eq!(
                cleanup,
                Teardown { stop_daemon: true, kill_process: true, remove_workspace: true }
            );
        }
        other => panic!("unexpected answer {:?}", other),
    }
    assert_eq!(launch.stage(), Stage::Failed);
}

#[test]
fn events_out_of_turn_are_handed_back() {
    let (mut launch, _) = Launch::start(&Conf::default(), BACKEND);
    assert!(matches!(launch.step(Event::Spawned), Err(Event::Spawned)));
    assert!(matches!(launch.step(Event::SocketProbed(true)), Err(Event::SocketProbed(true))));
    assert!(matches!(launch.step(Event::PortAllocated(7)), Err(Event::PortAllocated(7))));
    assert_eq!(launch.stage(), Stage::Workspace);
    launch.step(Event::WorkspaceCreated("/tmp/o".to_string())).unwrap();
    assert!(matches!(launch.step(Event::IoFailed(io_error())), Err(Event::IoFailed(_))));
    assert!(matches!(launch.step(Event::Connected), Err(Event::Connected)));
    assert_eq!(launch.stage(), Stage::Credentials);
    let answer = launch.step(Event::CredentialsRead(Some("u:p".to_string()))).unwrap();
    assert!(matches!(answer, Action::Spawn(_)));
    match launch.step(Event::WorkspaceCreated("/tmp/other".to_string())) {
        Err(Event::WorkspaceCreated(path)) => assert_eq!(path, "/tmp/other"),
        other => panic!("unexpected answer {:?}", other),
    }
    launch.step(Event::Spawned).unwrap();
    match launch.step(Event::SocketProbed(false)).unwrap() {
        Action::ProbeSocket { path, .. } => assert_eq!(path, "/tmp/o/regtest/lightning-rpc"),
        other => panic!("unexpected answer {:?}", other),
    }
}

#[test]
fn finished_launch_accepts_nothing() {
    let conf = Conf::default();
    let mut launch = spawned(&conf, "/tmp/f", 0);
    launch.step(Event::SocketProbed(true)).unwrap();
    launch.step(synced("02aa")).unwrap();
    assert_eq!(launch.stage(), Stage::Ready);
    assert!(launch.step(synced("02aa")).is_err());
    assert!(launch.step(Event::Connected).is_err());
    assert!(launch.step(Event::SocketProbed(false)).is_err());
    assert_eq!(launch.stage(), Stage::Ready);
}

#[test]
fn teardown_twice_releases_once() {
    let mut node = brought_up(&conf_with(ListenAnnounce::Listen, None), "/tmp/t", 40009, "02aa");
    assert!(node.is_live());
    assert_eq!(
        node.teardown(),
        Teardown { stop_daemon: true, kill_process: true, remove_workspace: true }
    );
    assert!(!node.is_live());
    assert_eq!(
        node.teardown(),
        Teardown { stop_daemon: false, kill_process: false, remove_workspace: false }
    );
    assert!(!node.is_live());
    assert_eq!(node.id_host().map(|peer| peer.id.as_str()), Some("02aa"));
}

#[test]
fn cleanup_grows_with_the_stage() {
    let none = Teardown { stop_daemon: false, kill_process: false, remove_workspace: false };
    let dir = Teardown { remove_workspace: true, ..none };
    let process = Teardown { kill_process: true, ..dir };
    let all = Teardown { stop_daemon: true, ..process };
    assert_eq!(Stage::Workspace.release(), none);
    assert_eq!(Stage::Credentials.release(), dir);
    assert_eq!(Stage::Port.release(), dir);
    assert_eq!(Stage::Process.release(), dir);
    assert_eq!(Stage::Socket.release(), process);
    assert_eq!(Stage::Sync.release(), all);
    assert_eq!(Stage::Peer.release(), all);
    assert_eq!(Stage::Ready.release(), all);
    assert_eq!(Stage::Failed.release(), none);
}

#[test]
fn each_phase_makes_sixty_attempts_at_most() {
    let mut launch = spawned(&Conf::default(), "/tmp/n", 0);
    let mut probes = 1;
    while let Ok(Action::ProbeSocket { .. }) = launch.step(Event::SocketProbed(false)) {
        probes += 1;
    }
    assert_eq!(probes, 60);
    assert_eq!(launch.stage(), Stage::Failed);

    let mut launch = spawned(&Conf::default(), "/tmp/n", 0);
    launch.step(Event::SocketProbed(true)).unwrap();
    let mut queries = 1;
    while let Ok(Action::QueryStatus { .. }) = launch.step(Event::StatusReplied(None)) {
        queries += 1;
    }
    assert_eq!(queries, 60);
    assert_eq!(launch.stage(), Stage::Failed);
}

#[test]
fn node_ready_at_the_last_query_comes_up() {
    let mut launch = spawned(&Conf::default(), "/tmp/q", 0);
    launch.step(Event::SocketProbed(true)).unwrap();
    for _ in 0..59 {
        launch.step(Event::StatusReplied(None)).unwrap();
    }
    assert!(matches!(launch.step(synced("02aa")).unwrap(), Action::Ready(_)));
    assert_eq!(launch.stage(), Stage::Ready);
}

#[test]
fn outside_errors_convert_into_launch_errors() {
    assert!(matches!(LaunchError::from(io_error()), LaunchError::Io(_)));
    assert!(matches!(
        LaunchError::from(clightningrpc::Error::NonceMismatch),
        LaunchError::Rpc(clightningrpc::Error::NonceMismatch)
    ));
}

#[test]
fn copies_keep_every_field() {
    let peer = IdHost { id: "02aa".to_string(), host: Some(HostAddr::loopback(1)) };
    assert_eq!(peer.clone(), peer);
    let p2p = P2P { connect: Some(peer), listen_announce: ListenAnnounce::ListenAndAnnounce };
    assert_eq!(p2p.clone(), p2p);
    let mut conf = Conf::default();
    conf.args = vec!["--a".to_string(), "--b".to_string()];
    conf.view_stdout = true;
    conf.p2p = p2p;
    let copy = conf.clone();
    assert_eq!(copy.args, conf.args);
    assert_eq!(copy.view_stdout, conf.view_stdout);
    assert_eq!(copy.p2p, conf.p2p);
}
