//! What a caller asks of a launch: extra arguments, output visibility and
//! peer-to-peer settings.

use vstd::prelude::*;
use vstd::string::*;
use crate::text::{decimal, decimal_text};

verus! {

/// Whether the node opens a peer-to-peer port, and how it advertises it.
#[derive(Debug, PartialEq, Eq, Clone, Copy, Structural)]
pub enum ListenAnnounce {
    /// No peer-to-peer port is opened.
    No,
    /// The node binds a local port without announcing it.
    Listen,
    /// The node binds a local port and announces it to the network.
    ListenAndAnnounce,
}

impl Default for ListenAnnounce {
    fn default() -> (mode: Self)
        ensures
            mode == ListenAnnounce::No,
    {
        ListenAnnounce::No
    }
}

impl ListenAnnounce {
    /// True for the two modes in which the node accepts inbound peers.
    pub open spec fn listens(self) -> bool {
        self != ListenAnnounce::No
    }

    /// Tells whether the node accepts inbound peers in this mode.
    pub fn is_listening(&self) -> (b: bool)
        ensures
            b == self.listens(),
    {
        match self {
            ListenAnnounce::No => false,
            ListenAnnounce::Listen => true,
            ListenAnnounce::ListenAndAnnounce => true,
        }
    }
}

/// An IPv4 host and TCP port.
#[derive(Debug, PartialEq, Eq, Clone, Copy)]
pub struct HostAddr {
    /// The four octets of the host, most significant first.
    pub ip: (u8, u8, u8, u8),
    /// The TCP port.
    pub port: u16,
}

impl HostAddr {
    /// The loopback host with the given port.
    pub open spec fn spec_loopback(port: u16) -> HostAddr {
        HostAddr { ip: (127, 0, 0, 1), port }
    }

    /// The usual `a.b.c.d:port` notation.
    pub open spec fn text(self) -> Seq<char> {
        self.host_text() + seq![':'] + decimal(self.port as nat)
    }

    /// The dotted-quad notation of the host alone.
    pub open spec fn host_text(self) -> Seq<char> {
        decimal(self.ip.0 as nat) + seq!['.'] + decimal(self.ip.1 as nat) + seq!['.'] + decimal(
            self.ip.2 as nat,
        ) + seq!['.'] + decimal(self.ip.3 as nat)
    }

    /// Builds the loopback address `127.0.0.1:port`.
    pub fn loopback(port: u16) -> (addr: HostAddr)
        ensures
            addr == Self::spec_loopback(port),
    {
        HostAddr { ip: (127, 0, 0, 1), port }
    }

    /// Renders the host as a dotted quad.
    pub fn host_to_text(&self) -> (s: String)
        ensures
            s@ == self.host_text(),
    {
        proof {
            reveal_strlit(".");
        }
        let mut s = decimal_text(self.ip.0 as u16);
        s.append(".");
        s.append(decimal_text(self.ip.1 as u16).as_str());
        s.append(".");
        s.append(decimal_text(self.ip.2 as u16).as_str());
        s.append(".");
        s.append(decimal_text(self.ip.3 as u16).as_str());
        assert(s@ =~= self.host_text());
        s
    }

    /// Renders host and port as `a.b.c.d:port`.
    pub fn to_text(&self) -> (s: String)
        ensures
            s@ == self.text(),
    {
        proof {
            reveal_strlit(":");
        }
        let mut s = self.host_to_text();
        s.append(":");
        s.append(decimal_text(self.port).as_str());
        assert(s@ =~= self.text());
        s
    }
}

/// A peer to dial: its node identity and, where known, its address.
#[derive(Debug, PartialEq, Eq)]
pub struct IdHost {
    /// The node identity of the peer.
    pub id: String,
    /// Where the peer can be reached, if that is known.
    pub host: Option<HostAddr>,
}

/// The mathematical content of an [`IdHost`].
pub struct IdHostView {
    pub id: Seq<char>,
    pub host: Option<HostAddr>,
}

impl View for IdHost {
    type V = IdHostView;

    open spec fn view(&self) -> IdHostView {
        IdHostView { id: self.id@, host: self.host }
    }
}

impl Clone for IdHost {
    fn clone(&self) -> (copy: Self)
        ensures
            copy@ == self@,
    {
        IdHost { id: self.id.clone(), host: self.host }
    }
}

/// Peer-to-peer settings of a launch.
#[derive(Debug, PartialEq, Eq)]
pub struct P2P {
    /// A peer to connect to once the node is ready.
    pub connect: Option<IdHost>,
    /// Whether the node itself listens for peers.
    pub listen_announce: ListenAnnounce,
}

/// The mathematical content of a [`P2P`].
pub struct P2PView {
    pub connect: Option<IdHostView>,
    pub listen_announce: ListenAnnounce,
}

impl View for P2P {
    type V = P2PView;

    open spec fn view(&self) -> P2PView {
        P2PView {
            connect: match self.connect {
                Some(peer) => Some(peer@),
                None => None,
            },
            listen_announce: self.listen_announce,
        }
    }
}

impl Clone for P2P {
    fn clone(&self) -> (copy: Self)
        ensures
            copy@ == self@,
    {
        let connect = match &self.connect {
            Some(peer) => Some(peer.clone()),
            None => None,
        };
        P2P { connect, listen_announce: self.listen_announce }
    }
}

impl Default for P2P {
    fn default() -> (p2p: Self)
        ensures
            p2p@ == (P2PView { connect: None, listen_announce: ListenAnnounce::No }),
    {
        P2P { connect: None, listen_announce: ListenAnnounce::No }
    }
}

/// The views of a list of strings, in order.
pub open spec fn texts(list: Seq<String>) -> Seq<Seq<char>> {
    Seq::new(list.len(), |i: int| list[i]@)
}

/// Copies a list of strings.
pub fn clone_texts(list: &Vec<String>) -> (copy: Vec<String>)
    ensures
        texts(copy@) == texts(list@),
{
    let mut copy: Vec<String> = Vec::new();
    let mut i: usize = 0;
    while i < list.len()
        invariant
            i <= list.len(),
            copy.len() == i,
            forall|k: int| 0 <= k < i ==> copy[k]@ == list[k]@,
        decreases list.len() - i,
    {
        copy.push(list[i].clone());
        i += 1;
    }
    assert(texts(copy@) =~= texts(list@));
    copy
}

/// The settings of one launch.
#[non_exhaustive]
#[derive(Debug)]
pub struct Conf {
    /// Extra command-line arguments, one per element and free of spaces, such
    /// as `--rgb=AABBCC`. They are placed after the arguments that the launch
    /// derives itself, so that they can override them.
    pub args: Vec<String>,
    /// If `true` the node's standard output is shown instead of discarded.
    pub view_stdout: bool,
    /// Whether to open a peer-to-peer port and whether to connect to a peer.
    pub p2p: P2P,
}

/// The mathematical content of a [`Conf`].
pub struct ConfView {
    pub args: Seq<Seq<char>>,
    pub view_stdout: bool,
    pub p2p: P2PView,
}

impl View for Conf {
    type V = ConfView;

    open spec fn view(&self) -> ConfView {
        ConfView { args: texts(self.args@), view_stdout: self.view_stdout, p2p: self.p2p@ }
    }
}

impl Clone for Conf {
    fn clone(&self) -> (copy: Self)
        ensures
            copy@ == self@,
    {
        Conf { args: clone_texts(&self.args), view_stdout: self.view_stdout, p2p: self.p2p.clone() }
    }
}

impl Default for Conf {
    fn default() -> (conf: Self)
        ensures
            conf@ == (ConfView {
                args: Seq::empty(),
                view_stdout: false,
                p2p: P2PView { connect: None, listen_announce: ListenAnnounce::No },
            }),
    {
        let conf = Conf { args: Vec::new(), view_stdout: false, p2p: P2P::default() };
        assert(texts(conf.args@) =~= Seq::empty());
        conf
    }
}

} // verus!
