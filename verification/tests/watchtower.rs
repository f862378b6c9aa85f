use fiber_dev_rpc::chain::Hash256;
use fiber_dev_rpc::watchtower::{
    RemoveWatchChannelParams, WatchtowerRpcServerImpl, WatchtowerStore,
};
use std::cell::RefCell;
use std::rc::Rc;

struct Removals(Rc<RefCell<Vec<Hash256>>>);

impl WatchtowerStore for Removals {
    fn remove_watch_channel(&self, channel_id: Hash256) {
        self.0.borrow_mut().push(channel_id);
    }
}

#[test]
fn removes_the_named_channel_once() {
    let seen = Rc::new(RefCell::new(Vec::new()));
    let server = WatchtowerRpcServerImpl::new(Removals(seen.clone()));
    assert!(seen.borrow().is_empty());
    let params = RemoveWatchChannelParams {
        channel_id: Hash256([3; 32]),
    };
    assert!(server.remove_watch_channel(params).is_ok());
    assert_eq!(*seen.borrow(), vec![Hash256([3; 32])]);
}
