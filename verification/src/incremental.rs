//! The keys of the incremental snapshot of a network in the object store,
//! and the reading of the block number that the store publishes.

use vstd::prelude::*;
use vstd::string::*;
use crate::context::{NetworkContext, NetworkView, INCREMENTAL_NAME, STATEDELTA_NAME};
use crate::text::{parsed_integer, string_to_integer};

verus! {

/// `eyre::Report`, the error that the fetching tools pass around.
#[verifier::external_type_specification]
#[verifier::external_body]
pub struct ExReport(eyre::Report);

/// The text that the store publishes as the current block is not a block
/// number.
#[derive(Clone, Copy, Debug, PartialEq, Eq, Structural)]
pub struct NotABlockNumber {}

/// The key `top/network` followed by `tail`.
pub open spec fn network_key(top: Seq<char>, network_name: Seq<char>, tail: Seq<char>) -> Seq<
    char,
> {
    top + "/"@ + network_name + tail
}

/// The block number that a text stands for.
pub open spec fn max_block_of(data: Seq<char>) -> Result<i64, NotABlockNumber> {
    match parsed_integer(data) {
        Some(blk) => Ok(blk as i64),
        None => Err(NotABlockNumber {  }),
    }
}

/// The incremental snapshot of the network of a context.
pub struct Incremental<'a> {
    ctx: &'a NetworkContext,
}

impl<'a> View for Incremental<'a> {
    type V = NetworkView;

    closed spec fn view(&self) -> NetworkView {
        self.ctx@
    }
}

impl<'a> Incremental<'a> {
    /// The incremental snapshot of the network of `ctx`. This never fails.
    pub fn new(ctx: &'a NetworkContext) -> (made: Result<Self, eyre::Report>)
        ensures
            made matches Ok(incremental) && incremental@ == ctx@,
    {
        Ok(Incremental { ctx })
    }

    fn key(&self, top: &str, tail: &str) -> (key: String)
        ensures
            key@ == network_key(top@, self@.network_name, tail@),
    {
        let mut key = String::from_str(top);
        key.append("/");
        key.append(self.ctx.network_name());
        key.append(tail);
        key
    }

    /// The key of the lock file: while it exists, the snapshot is being
    /// written.
    pub fn lockfile_key(&self) -> (key: String)
        ensures
            key@ == network_key(INCREMENTAL_NAME@, self@.network_name, "/.lock"@),
    {
        self.key(INCREMENTAL_NAME, "/.lock")
    }

    /// The key of the object that holds the number of the current block.
    pub fn current_tx_block_key(&self) -> (key: String)
        ensures
            key@ == network_key(INCREMENTAL_NAME@, self@.network_name, "/.currentTxBlk"@),
    {
        self.key(INCREMENTAL_NAME, "/.currentTxBlk")
    }

    /// The number of the current block, from the text of the object under
    /// [`Self::current_tx_block_key`]: an optional sign and decimal digits,
    /// nothing else.
    pub fn max_block_from(data: &str) -> (max_block: Result<i64, NotABlockNumber>)
        ensures
            max_block == max_block_of(data@),
    {
        match string_to_integer(data) {
            Ok(blk) => Ok(blk),
            Err(_) => Err(NotABlockNumber {  }),
        }
    }

    /// The root of the state deltas of the network.
    pub fn state_delta_root(&self) -> (root: String)
        ensures
            root@ == network_key(STATEDELTA_NAME@, self@.network_name, ""@),
    {
        self.key(STATEDELTA_NAME, "")
    }

    /// The prefix under which the state deltas of the network are listed.
    pub fn state_delta_prefix(&self) -> (prefix: String)
        ensures
            prefix@ == network_key(STATEDELTA_NAME@, self@.network_name, "/stateDelta"@),
    {
        self.key(STATEDELTA_NAME, "/stateDelta")
    }

    /// The root of the incremental snapshot of the network.
    pub fn incremental_root(&self) -> (root: String)
        ensures
            root@ == network_key(INCREMENTAL_NAME@, self@.network_name, ""@),
    {
        self.key(INCREMENTAL_NAME, "")
    }

    /// The prefix under which the persistence diffs of the network are
    /// listed.
    pub fn persistence_diff_prefix(&self) -> (prefix: String)
        ensures
            prefix@ == network_key(INCREMENTAL_NAME@, self@.network_name, "/diff_persistence"@),
    {
        self.key(INCREMENTAL_NAME, "/diff_persistence")
    }

    /// The root of the current persistence of the network.
    pub fn persistence_root(&self) -> (root: String)
        ensures
            root@ == network_key(INCREMENTAL_NAME@, self@.network_name, "/persistence"@),
    {
        self.key(INCREMENTAL_NAME, "/persistence")
    }
}

} // verus!
