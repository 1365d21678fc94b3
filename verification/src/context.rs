//! The network whose snapshot artifacts are fetched, and the names under
//! which the object store keeps them.

use vstd::prelude::*;
use vstd::string::*;

verus! {

/// The top-level name of the incremental snapshots in the object store.
pub const INCREMENTAL_NAME: &'static str = "incremental";

/// The top-level name of the state deltas in the object store.
pub const STATEDELTA_NAME: &'static str = "statedelta";

/// What contracts say of a [`NetworkContext`].
pub struct NetworkView {
    pub network_name: Seq<char>,
    pub target_path: Seq<char>,
}

/// The network to fetch and the local directory to fetch it into.
pub struct NetworkContext {
    network_name: String,
    target_path: String,
}

impl View for NetworkContext {
    type V = NetworkView;

    closed spec fn view(&self) -> NetworkView {
        NetworkView { network_name: self.network_name@, target_path: self.target_path@ }
    }
}

impl NetworkContext {
    /// A context for the network of the given name and the given local
    /// directory.
    pub fn new(network_name: &str, target_path: &str) -> (ctx: Self)
        ensures
            ctx@ == (NetworkView { network_name: network_name@, target_path: target_path@ }),
    {
        NetworkContext {
            network_name: String::from_str(network_name),
            target_path: String::from_str(target_path),
        }
    }

    /// The name of the network.
    pub fn network_name(&self) -> (name: &str)
        ensures
            name@ == self@.network_name,
    {
        self.network_name.as_str()
    }

    /// The local directory.
    pub fn target_path(&self) -> (path: &str)
        ensures
            path@ == self@.target_path,
    {
        self.target_path.as_str()
    }
}

} // verus!
