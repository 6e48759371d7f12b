//! A latch that tells everyone who holds a peer's handle that the peer's
//! connection is going away.

use vstd::prelude::*;
use std::sync::Arc;
use crate::channel::{arc_clone, async_mutex_new, watch_channel, watch_current};

verus! {

/// One shared flag: the writing side under `wat` sets it once, any number of
/// clones read it through `done`. Setting it and waiting for it suspend the
/// caller, so they belong to the caller's runtime; reading it does not.
#[derive(Debug)]
pub struct Closer {
    pub wat: Arc<tokio::sync::Mutex<tokio::sync::watch::Sender<bool>>>,
    pub done: tokio::sync::watch::Receiver<bool>,
}

impl Closer {
    /// A latch that is not closed.
    pub fn new() -> Self {
        let (sender, receiver) = watch_channel(false);
        Closer { wat: Arc::new(async_mutex_new(sender)), done: receiver }
    }

    /// Whether the latch has been closed, as far as this moment shows.
    pub fn is_closed(&self) -> bool {
        watch_current(&self.done)
    }
}

impl Clone for Closer {
    /// Another holder of the same latch.
    fn clone(&self) -> (r: Self)
        ensures
            r.wat == self.wat,
    {
        Closer { wat: arc_clone(&self.wat), done: self.done.clone() }
    }
}

impl Default for Closer {
    fn default() -> Self {
        Closer::new()
    }
}

} // verus!
