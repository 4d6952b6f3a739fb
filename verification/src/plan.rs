//! From settings to a command line: backend credentials, the node's
//! arguments and the place of its control socket.

use vstd::prelude::*;
use vstd::string::*;
use crate::conf::{texts, Conf, HostAddr, ListenAnnounce};
use crate::text::{decimal, decimal_text, join};

verus! {

/// User name and password for the backend's RPC interface.
#[derive(Debug, PartialEq, Eq)]
pub struct Credentials {
    pub user: String,
    pub password: String,
}

/// The mathematical content of [`Credentials`].
pub struct CredentialsView {
    pub user: Seq<char>,
    pub password: Seq<char>,
}

impl View for Credentials {
    type V = CredentialsView;

    open spec fn view(&self) -> CredentialsView {
        CredentialsView { user: self.user@, password: self.password@ }
    }
}

impl Clone for Credentials {
    fn clone(&self) -> (copy: Self)
        ensures
            copy@ == self@,
    {
        Credentials { user: self.user.clone(), password: self.password.clone() }
    }
}

/// What a credential file of the form `user:password` holds: the text before
/// its first colon and all the text after it. A file without a colon holds
/// no credentials.
pub open spec fn split_credentials(content: Seq<char>) -> Option<CredentialsView> {
    match content.index_of_first(':') {
        Some(at) => Some(
            CredentialsView { user: content.take(at), password: content.skip(at + 1) },
        ),
        None => None,
    }
}

/// `at` is the place of the first colon of `content`.
pub open spec fn first_colon(content: Seq<char>, at: int) -> bool {
    &&& 0 <= at < content.len()
    &&& content[at] == ':'
    &&& forall|j: int| 0 <= j < at ==> content[j] != ':'
}

/// Credentials are found exactly in the contents that hold a colon, and they
/// are split at the first one.
pub proof fn lemma_split_credentials(content: Seq<char>)
    ensures
        split_credentials(content) is Some <==> content.contains(':'),
        forall|at: int|
            first_colon(content, at) ==> split_credentials(content) == Some(
                CredentialsView { user: content.take(at), password: content.skip(at + 1) },
            ),
{
    content.index_of_first_ensures(':');
    assert forall|at: int| first_colon(content, at) implies split_credentials(content) == Some(
        CredentialsView { user: content.take(at), password: content.skip(at + 1) },
    ) by {
        let found = content.index_of_first(':');
        assert(content.contains(':'));
        assert(found is Some);
        let first = found->0;
        if first < at {
            assert(content[first] != ':');
        } else if at < first {
            assert(content[at] != ':');
        }
    }
}

/// Reads `user:password` out of the content of a credential file.
pub fn parse_credentials(content: &str) -> (found: Option<Credentials>)
    ensures
        match found {
            Some(credentials) => split_credentials(content@) == Some(credentials@),
            None => split_credentials(content@) is None,
        },
{
    let len = content.unicode_len();
    let mut at: usize = 0;
    while at < len
        invariant
            len == content@.len(),
            at <= len,
            forall|j: int| 0 <= j < at ==> content@[j] != ':',
        decreases len - at,
    {
        if content.get_char(at) == ':' {
            let user = content.substring_char(0, at);
            let password = content.substring_char(at + 1, len);
            proof {
                lemma_split_credentials(content@);
                assert(first_colon(content@, at as int));
                assert(content@.take(at as int) =~= content@.subrange(0, at as int));
                assert(content@.skip(at + 1) =~= content@.subrange(at + 1, len as int));
            }
            return Some(
                Credentials { user: String::from_str(user), password: String::from_str(password) },
            );
        }
        at += 1;
    }
    proof {
        lemma_split_credentials(content@);
        assert(!content@.contains(':'));
    }
    None
}

/// The network that every launched node joins.
pub open spec fn network() -> Seq<char> {
    "regtest"@
}

/// The file name of the node's control socket.
pub open spec fn socket_name() -> Seq<char> {
    "lightning-rpc"@
}

/// Where a node with the given working directory creates its control
/// socket: `<workspace>/<network>/<socket name>`.
pub open spec fn socket_path(workspace: Seq<char>) -> Seq<char> {
    workspace + seq!['/'] + network() + seq!['/'] + socket_name()
}

/// Computes the place of the control socket below a working directory.
pub fn control_socket_path(workspace: &str) -> (path: String)
    ensures
        path@ == socket_path(workspace@),
{
    proof {
        reveal_strlit("/");
    }
    let mut path = String::from_str(workspace);
    path.append("/");
    path.append("regtest");
    path.append("/");
    path.append("lightning-rpc");
    assert(path@ =~= socket_path(workspace@));
    path
}

/// The argument that opens the peer-to-peer port: a bind-only address when
/// listening, an announced one when listening and announcing, none otherwise.
pub open spec fn p2p_args(mode: ListenAnnounce, listen_on: Option<HostAddr>) -> Seq<Seq<char>> {
    match (mode, listen_on) {
        (ListenAnnounce::Listen, Some(addr)) => seq!["--bind-addr="@ + addr.text()],
        (ListenAnnounce::ListenAndAnnounce, Some(addr)) => seq!["--addr="@ + addr.text()],
        _ => Seq::empty(),
    }
}

/// The arguments that every launch derives from its surroundings.
pub open spec fn fixed_args(
    workspace: Seq<char>,
    backend: HostAddr,
    credentials: CredentialsView,
) -> Seq<Seq<char>> {
    seq![
        "--network="@ + network(),
        "--bitcoin-rpcconnect="@ + backend.host_text(),
        "--bitcoin-rpcport="@ + decimal(backend.port as nat),
        "--bitcoin-rpcuser="@ + credentials.user,
        "--bitcoin-rpcpassword="@ + credentials.password,
        "--lightning-dir="@ + workspace,
    ]
}

/// The complete command line, one argument per element: the fixed
/// arguments, then the peer-to-peer argument if there is one, then the
/// caller's extra arguments.
pub open spec fn launch_args(
    workspace: Seq<char>,
    backend: HostAddr,
    credentials: CredentialsView,
    mode: ListenAnnounce,
    listen_on: Option<HostAddr>,
    extra: Seq<Seq<char>>,
) -> Seq<Seq<char>> {
    fixed_args(workspace, backend, credentials) + p2p_args(mode, listen_on) + extra
}

/// The text holds no space.
pub open spec fn spaceless(text: Seq<char>) -> bool {
    forall|i: int| 0 <= i < text.len() ==> text[i] != ' '
}

/// Numerals hold no space.
pub proof fn lemma_decimal_spaceless(n: nat)
    ensures
        spaceless(decimal(n)),
    decreases n,
{
    if n >= 10 {
        lemma_decimal_spaceless(n / 10);
    }
}

/// Addresses hold no space.
pub proof fn lemma_address_spaceless(addr: HostAddr)
    ensures
        spaceless(addr.host_text()),
        spaceless(addr.text()),
{
    lemma_decimal_spaceless(addr.ip.0 as nat);
    lemma_decimal_spaceless(addr.ip.1 as nat);
    lemma_decimal_spaceless(addr.ip.2 as nat);
    lemma_decimal_spaceless(addr.ip.3 as nat);
    lemma_decimal_spaceless(addr.port as nat);
}

/// Every argument of a command line is free of spaces, provided that the
/// working directory, the credentials and the extra arguments are.
pub proof fn law_arguments_hold_no_space(
    workspace: Seq<char>,
    backend: HostAddr,
    credentials: CredentialsView,
    mode: ListenAnnounce,
    listen_on: Option<HostAddr>,
    extra: Seq<Seq<char>>,
)
    requires
        spaceless(workspace),
        spaceless(credentials.user),
        spaceless(credentials.password),
        forall|i: int| 0 <= i < extra.len() ==> spaceless(#[trigger] extra[i]),
    ensures
        forall|i: int|
            0 <= i < launch_args(workspace, backend, credentials, mode, listen_on, extra).len()
                ==> spaceless(
                #[trigger] launch_args(workspace, backend, credentials, mode, listen_on, extra)[i],
            ),
{
    reveal_strlit("--network=");
    reveal_strlit("regtest");
    reveal_strlit("--bitcoin-rpcconnect=");
    reveal_strlit("--bitcoin-rpcport=");
    reveal_strlit("--bitcoin-rpcuser=");
    reveal_strlit("--bitcoin-rpcpassword=");
    reveal_strlit("--lightning-dir=");
    reveal_strlit("--bind-addr=");
    reveal_strlit("--addr=");
    lemma_address_spaceless(backend);
    lemma_decimal_spaceless(backend.port as nat);
    if listen_on is Some {
        lemma_address_spaceless(listen_on->0);
    }
    let fixed = fixed_args(workspace, backend, credentials);
    let p2p = p2p_args(mode, listen_on);
    let all = launch_args(workspace, backend, credentials, mode, listen_on, extra);
    assert(spaceless(fixed[0]));
    assert(spaceless(fixed[1]));
    assert(spaceless(fixed[2]));
    assert(spaceless(fixed[3]));
    assert(spaceless(fixed[4]));
    assert(spaceless(fixed[5]));
    assert(p2p.len() > 0 ==> spaceless(p2p[0]));
    assert forall|i: int| 0 <= i < all.len() implies spaceless(#[trigger] all[i]) by {
        if i < 6 {
            assert(all[i] == fixed[i]);
        } else if i < 6 + p2p.len() {
            assert(all[i] == p2p[i - 6]);
        } else {
            assert(all[i] == extra[i - 6 - p2p.len()]);
        }
    }
}

/// How to start the node process.
#[derive(Debug, PartialEq, Eq)]
pub struct LaunchPlan {
    /// The arguments of the process, one per element.
    pub args: Vec<String>,
    /// Whether the process inherits the caller's standard output.
    pub view_stdout: bool,
}

/// The mathematical content of a [`LaunchPlan`].
pub struct LaunchPlanView {
    pub args: Seq<Seq<char>>,
    pub view_stdout: bool,
}

impl View for LaunchPlan {
    type V = LaunchPlanView;

    open spec fn view(&self) -> LaunchPlanView {
        LaunchPlanView { args: texts(self.args@), view_stdout: self.view_stdout }
    }
}

/// The plan for a node in `workspace` that talks to `backend`.
pub open spec fn plan_of(
    workspace: Seq<char>,
    backend: HostAddr,
    credentials: CredentialsView,
    conf: crate::conf::ConfView,
    listen_on: Option<HostAddr>,
) -> LaunchPlanView {
    LaunchPlanView {
        args: launch_args(
            workspace,
            backend,
            credentials,
            conf.p2p.listen_announce,
            listen_on,
            conf.args,
        ),
        view_stdout: conf.view_stdout,
    }
}

impl LaunchPlan {
    /// Resolves the settings of a launch into a command line.
    ///
    /// `listen_on` is the address reserved for the peer-to-peer port; it is
    /// used only if `conf` asks the node to listen.
    pub fn build(
        workspace: &str,
        backend: &HostAddr,
        credentials: &Credentials,
        conf: &Conf,
        listen_on: Option<HostAddr>,
    ) -> (plan: LaunchPlan)
        ensures
            plan@ == plan_of(workspace@, *backend, credentials@, conf@, listen_on),
    {
        let mut args: Vec<String> = Vec::new();
        args.push(join("--network=", "regtest"));
        args.push(join("--bitcoin-rpcconnect=", backend.host_to_text().as_str()));
        args.push(join("--bitcoin-rpcport=", decimal_text(backend.port).as_str()));
        args.push(join("--bitcoin-rpcuser=", credentials.user.as_str()));
        args.push(join("--bitcoin-rpcpassword=", credentials.password.as_str()));
        args.push(join("--lightning-dir=", workspace));
        assert(texts(args@) =~= fixed_args(workspace@, *backend, credentials@));
        match (conf.p2p.listen_announce, listen_on) {
            (ListenAnnounce::Listen, Some(addr)) => {
                args.push(join("--bind-addr=", addr.to_text().as_str()));
            },
            (ListenAnnounce::ListenAndAnnounce, Some(addr)) => {
                args.push(join("--addr=", addr.to_text().as_str()));
            },
            _ => {},
        }
        let ghost head = fixed_args(workspace@, *backend, credentials@) + p2p_args(
            conf.p2p.listen_announce,
            listen_on,
        );
        assert(texts(args@) =~= head);
        let mut i: usize = 0;
        while i < conf.args.len()
            invariant
                i <= conf.args.len(),
                texts(args@) == head + texts(conf.args@).take(i as int),
            decreases conf.args.len() - i,
        {
            let ghost before = texts(args@);
            args.push(conf.args[i].clone());
            i += 1;
            proof {
                let extra = texts(conf.args@);
                assert(texts(args@) =~= before.push(extra[i - 1]));
                assert(extra.take(i as int) =~= extra.take(i - 1).push(extra[i - 1]));
                assert(texts(args@) =~= head + extra.take(i as int));
            }
        }
        assert(texts(conf.args@).take(i as int) =~= texts(conf.args@));
        LaunchPlan { args, view_stdout: conf.view_stdout }
    }
}

} // verus!
