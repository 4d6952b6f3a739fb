//! A node that was brought up, and its release.

use vstd::prelude::*;
use crate::conf::{IdHost, IdHostView};

verus! {

/// Which of a node's resources have to be released.
#[derive(Debug, PartialEq, Eq, Clone, Copy, Structural)]
pub struct Teardown {
    /// Ask the node to shut down over its control socket.
    pub stop_daemon: bool,
    /// Kill the node process.
    pub kill_process: bool,
    /// Delete the working directory.
    pub remove_workspace: bool,
}

impl Teardown {
    /// Nothing has to be released.
    pub open spec fn nothing() -> Teardown {
        Teardown { stop_daemon: false, kill_process: false, remove_workspace: false }
    }

    /// Node, process and working directory all have to be released.
    pub open spec fn everything() -> Teardown {
        Teardown { stop_daemon: true, kill_process: true, remove_workspace: true }
    }
}

/// The record of a node whose launch completed.
#[derive(Debug)]
pub struct Instance {
    id_host: Option<IdHost>,
    live: bool,
}

/// The mathematical content of an [`Instance`].
pub struct InstanceView {
    /// Identity and address under which other nodes reach this one; present
    /// only for a node that listens.
    pub id_host: Option<IdHostView>,
    /// False once the node's resources were handed over for release.
    pub live: bool,
}

impl View for Instance {
    type V = InstanceView;

    closed spec fn view(&self) -> InstanceView {
        InstanceView {
            id_host: match self.id_host {
                Some(peer) => Some(peer@),
                None => None,
            },
            live: self.live,
        }
    }
}

impl InstanceView {
    /// What a teardown releases: everything while the node's resources are
    /// held, nothing afterwards.
    pub open spec fn release(self) -> Teardown {
        if self.live {
            Teardown::everything()
        } else {
            Teardown::nothing()
        }
    }

    /// The record after a teardown.
    pub open spec fn torn_down(self) -> InstanceView {
        InstanceView { live: false, ..self }
    }
}

impl Instance {
    /// Records a node that was just brought up.
    pub fn new(id_host: Option<IdHost>) -> (instance: Instance)
        ensures
            instance@ == (InstanceView {
                id_host: match id_host {
                    Some(peer) => Some(peer@),
                    None => None,
                },
                live: true,
            }),
    {
        Instance { id_host, live: true }
    }

    /// Identity and address of this node for others to connect to, if it listens.
    pub fn id_host(&self) -> (peer: Option<&IdHost>)
        ensures
            match peer {
                Some(peer) => self@.id_host == Some(peer@),
                None => self@.id_host is None,
            },
    {
        self.id_host.as_ref()
    }

    /// Tells whether the node's resources are still held.
    pub fn is_live(&self) -> (live: bool)
        ensures
            live == self@.live,
    {
        self.live
    }

    /// Hands the node's resources over for release.
    ///
    /// The first call names all of them; every later call names none, so
    /// that nothing is released twice.
    pub fn teardown(&mut self) -> (release: Teardown)
        ensures
            release == old(self)@.release(),
            final(self)@ == old(self)@.torn_down(),
    {
        if self.live {
            self.live = false;
            Teardown { stop_daemon: true, kill_process: true, remove_workspace: true }
        } else {
            Teardown { stop_daemon: false, kill_process: false, remove_workspace: false }
        }
    }
}

} // verus!
