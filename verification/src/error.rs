//! Why a launch can fail.

use vstd::prelude::*;
use vstd::std_specs::convert::FromSpecImpl;

verus! {

/// The operating system's error type, `std::io::Error`. Nothing is claimed
/// about its contents: values are only carried from where they arise to the
/// caller.
#[verifier::external_type_specification]
#[verifier::external_body]
pub struct ExIoError(std::io::Error);

/// The RPC client's error type, `clightningrpc::Error`. Nothing is claimed
/// about its contents: values are only carried from where they arise to the
/// caller.
#[verifier::external_type_specification]
#[verifier::external_body]
pub struct ExRpcError(clightningrpc::Error);

/// The ways in which a launch fails.
#[derive(Debug)]
pub enum LaunchError {
    /// A file-system, network or process operation failed.
    Io(std::io::Error),
    /// The node's RPC interface reported a failure.
    Rpc(clightningrpc::Error),
    /// The backend's credentials are absent or not of the form `user:password`.
    MissingAuth,
    /// The node's control socket did not appear in time.
    SockPathNotExist,
    /// The node did not report itself synchronised in time.
    GetInfoSyncing,
}

impl From<std::io::Error> for LaunchError {
    fn from(e: std::io::Error) -> (error: Self) {
        LaunchError::Io(e)
    }
}

impl FromSpecImpl<std::io::Error> for LaunchError {
    open spec fn obeys_from_spec() -> bool {
        true
    }

    open spec fn from_spec(e: std::io::Error) -> Self {
        LaunchError::Io(e)
    }
}

impl From<clightningrpc::Error> for LaunchError {
    fn from(e: clightningrpc::Error) -> (error: Self) {
        LaunchError::Rpc(e)
    }
}

impl FromSpecImpl<clightningrpc::Error> for LaunchError {
    open spec fn obeys_from_spec() -> bool {
        true
    }

    open spec fn from_spec(e: clightningrpc::Error) -> Self {
        LaunchError::Rpc(e)
    }
}

} // verus!
