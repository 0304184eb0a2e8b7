//! The tab registry behind its reader/writer lock: the one shared mutable
//! resource of the navigation core. Well-formedness is the lock invariant,
//! so every reader — however its acquisition interleaves with concurrent
//! fetch commits — observes a well-formed registry and never a half-updated
//! tab.

use vstd::prelude::*;
use vstd::rwlock::RwLock;
use vstd::rwlock::RwLockPredicate;

use crate::model::BrowserError;
use crate::model::PageRequest;
use crate::model::PageResponse;
use crate::model::TabSnapshot;
use crate::model::TransportOutcome;
use crate::registry::utf8_decoded;
use crate::registry::BrowserCore;

verus! {

/// The lock invariant: whatever registry value is stored is well-formed.
pub struct RegistryInv;

impl RwLockPredicate<BrowserCore> for RegistryInv {
    open spec fn inv(self, v: BrowserCore) -> bool {
        v.wf()
    }
}

/// The tab registry behind a single reader/writer lock, shareable between
/// the caller's thread and the runtime loop. Writes (tab creation, fetch
/// commits) are exclusive; snapshots take the read side.
pub struct SharedRegistry {
    lock: RwLock<BrowserCore, RegistryInv>,
}

impl SharedRegistry {
    /// Creates an empty registry behind its lock.
    pub fn new() -> Self {
        SharedRegistry { lock: RwLock::new(BrowserCore::new(), Ghost(RegistryInv)) }
    }

    /// Creates a new tab under the write lock: no URL, no last-loaded time,
    /// the given title. Returns `None` only when the id space is exhausted.
    pub fn create_tab(&self, title: String) -> (r: Option<TabSnapshot>)
        ensures
            r matches Some(snapshot) ==> {
                &&& snapshot.title == title
                &&& snapshot.url is None
                &&& snapshot.last_loaded is None
            },
    {
        let (mut core, handle) = self.lock.acquire_write();
        if core.next_tab_id == u64::MAX {
            handle.release_write(core);
            None
        } else {
            let snapshot = core.create_tab(title);
            handle.release_write(core);
            Some(snapshot)
        }
    }

    /// Copies all current entries under the read lock. Whatever fetch
    /// commits run concurrently, the copy comes from a well-formed registry:
    /// entries are in strictly increasing id order and none is half-updated
    /// (url without last-loaded time, or the reverse).
    pub fn snapshot_tabs(&self) -> (r: Vec<TabSnapshot>)
        ensures
            forall|i: int| 0 <= i < r@.len() ==> (#[trigger] r@[i]).consistent(),
            forall|i: int|
                0 <= i && i + 1 < r@.len() ==> (#[trigger] r@[i]).id.0 < r@[i + 1].id.0,
    {
        let read_handle = self.lock.acquire_read();
        let r = read_handle.borrow().snapshot_tabs();
        read_handle.release_read();
        r
    }

    /// Processes one transport outcome under the write lock, committing a
    /// success to the requesting tab; `BrowserCore::fetch_page` states the
    /// registry side. The returned response, or error, is pinned here.
    pub fn fetch_page(
        &self,
        request: &PageRequest,
        outcome: TransportOutcome,
        received_at: i64,
    ) -> (r: Result<PageResponse, BrowserError>)
        ensures
            match outcome {
                TransportOutcome::TransportFailed { message } => r == Err::<
                    PageResponse,
                    BrowserError,
                >(BrowserError::Network(message)),
                TransportOutcome::Delivered { status, mime_type, body } => match utf8_decoded(
                    body@,
                ) {
                    None => r == Err::<PageResponse, BrowserError>(BrowserError::InvalidBody),
                    Some(decoded) => r matches Ok(page) && {
                        &&& page.url == request.url
                        &&& page.status == status
                        &&& page.mime_type == mime_type
                        &&& page.title is None
                        &&& page.body@ == decoded
                        &&& page.received_at == received_at
                    },
                },
            },
    {
        let (mut core, handle) = self.lock.acquire_write();
        let r = core.fetch_page(request, outcome, received_at);
        handle.release_write(core);
        r
    }
}

} // verus!
