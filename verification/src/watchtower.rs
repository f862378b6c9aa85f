//! The remote calls of the watchtower.

use crate::chain::Hash256;
use crate::error::RpcError;
use vstd::prelude::*;

verus! {

/// Parameters for removing a watched channel.
#[derive(Clone, Copy, Debug)]
pub struct RemoveWatchChannelParams {
    /// The channel.
    pub channel_id: Hash256,
}

/// The channels that a watchtower watches.
pub trait WatchtowerStore {
    /// Stops watching a channel.
    fn remove_watch_channel(&self, channel_id: Hash256);
}

/// What the remote calls of the watchtower work on.
pub struct WatchtowerRpcServerImpl<S> {
    store: S,
}

impl<S> WatchtowerRpcServerImpl<S> {
    /// The store that the calls work on.
    pub closed spec fn spec_store(&self) -> S {
        self.store
    }

    /// The calls on a store.
    pub fn new(store: S) -> (r: WatchtowerRpcServerImpl<S>)
        ensures
            r.spec_store() == store,
    {
        WatchtowerRpcServerImpl { store }
    }
}

impl<S: WatchtowerStore> WatchtowerRpcServerImpl<S> {
    /// Removes a watched channel from the store.
    pub fn remove_watch_channel(&self, params: RemoveWatchChannelParams) -> (r: Result<(), RpcError>)
        ensures
            r is Ok,
            call_ensures(S::remove_watch_channel, (&self.spec_store(), params.channel_id), ()),
    {
        self.store.remove_watch_channel(params.channel_id);
        Ok(())
    }
}

/// The store that a watchtower was made with is told of the channel of the parameters.
pub proof fn law_store_told<S: WatchtowerStore>(
    store: S,
    calls: WatchtowerRpcServerImpl<S>,
    params: RemoveWatchChannelParams,
    r: Result<(), RpcError>,
)
    requires
        call_ensures(WatchtowerRpcServerImpl::<S>::new, (store,), calls),
        call_ensures(WatchtowerRpcServerImpl::<S>::remove_watch_channel, (&calls, params), r),
    ensures
        r is Ok,
        call_ensures(S::remove_watch_channel, (&store, params.channel_id), ()),
{
}

} // verus!
