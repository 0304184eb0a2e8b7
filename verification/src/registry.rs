//! The tab registry and the fetch-result pipeline: allocation of tab
//! identifiers, snapshots for consumers, and the commit of one fetch's
//! outcome into the owning tab.

use vstd::prelude::*;

use crate::model::BrowserError;
use crate::model::PageRequest;
use crate::model::PageResponse;
use crate::model::TabId;
use crate::model::TabSnapshot;
use crate::model::TransportOutcome;
use crate::title::derive_title;
use crate::title::spec_derive_title;

verus! {

/// The decoded characters of a byte sequence, if it is valid UTF-8.
pub uninterp spec fn utf8_decoded(bytes: Seq<u8>) -> Option<Seq<char>>;

/// Relies on String::from_utf8: succeeds exactly when the bytes are valid
/// UTF-8 and then yields their decoded characters, a function of the bytes
/// alone.
#[verifier::external_body]
fn decode_utf8(bytes: Vec<u8>) -> (r: Option<String>)
    ensures
        match r {
            Some(s) => utf8_decoded(bytes@) == Some(s@),
            None => utf8_decoded(bytes@) is None,
        },
{
    String::from_utf8(bytes).ok()
}

/// The authoritative owner of tab identity and per-tab navigation metadata.
///
/// Identifiers come from `next_tab_id` and only ever grow, so every entry's
/// id is below the counter and entries are ordered by strictly increasing id.
pub struct BrowserCore {
    pub next_tab_id: u64,
    pub tabs: Vec<TabSnapshot>,
}

/// How one registry entry looks after a successful fetch was committed to
/// it: url and last-loaded time are set from the page, together, and the
/// title becomes the derived one, or stays as it was when none was derived.
pub open spec fn tab_updated(prev: TabSnapshot, cur: TabSnapshot, page: PageResponse) -> bool {
    &&& cur.id == prev.id
    &&& cur.url == Some(page.url)
    &&& cur.last_loaded == Some(page.received_at)
    &&& cur.title@ == match spec_derive_title(page) {
        Some(t) => t,
        None => prev.title@,
    }
}

/// How the whole registry looks after one fetch's result was committed for
/// `tab`: the entry with that id, if present, is updated; every other entry
/// is untouched.
pub open spec fn tabs_after_fetch(
    prev: Seq<TabSnapshot>,
    cur: Seq<TabSnapshot>,
    tab: TabId,
    page: PageResponse,
) -> bool {
    &&& cur.len() == prev.len()
    &&& forall|i: int| 0 <= i < prev.len() && prev[i].id != tab ==> cur[i] == prev[i]
    &&& forall|i: int|
        0 <= i < prev.len() && prev[i].id == tab ==> tab_updated(prev[i], #[trigger] cur[i], page)
}

impl BrowserCore {
    /// The registry invariant: every entry's id is below the allocation
    /// counter, entries are ordered by strictly increasing id, and every
    /// entry is internally consistent.
    pub open spec fn wf(self) -> bool {
        &&& forall|i: int|
            0 <= i < self.tabs@.len() ==> (#[trigger] self.tabs@[i]).id.0 < self.next_tab_id
        &&& forall|i: int|
            0 <= i && i + 1 < self.tabs@.len() ==> (#[trigger] self.tabs@[i]).id.0
                < self.tabs@[i + 1].id.0
        &&& forall|i: int| 0 <= i < self.tabs@.len() ==> (#[trigger] self.tabs@[i]).consistent()
    }

    /// Creates an empty registry.
    pub fn new() -> (r: Self)
        ensures
            r.next_tab_id == 0,
            r.tabs@ == Seq::<TabSnapshot>::empty(),
            r.wf(),
    {
        BrowserCore { next_tab_id: 0, tabs: Vec::new() }
    }

    /// Creates a new logical tab with the given title, no URL and no
    /// last-loaded time, and returns a copy of its entry. The returned id is
    /// distinct from every id handed out before.
    pub fn create_tab(&mut self, title: String) -> (snapshot: TabSnapshot)
        requires
            old(self).wf(),
            old(self).next_tab_id < u64::MAX,
        ensures
            final(self).wf(),
            snapshot == (TabSnapshot {
                id: TabId(old(self).next_tab_id),
                title: title,
                url: None,
                last_loaded: None,
            }),
            final(self).tabs@ == old(self).tabs@.push(snapshot),
            final(self).next_tab_id == old(self).next_tab_id + 1,
            forall|i: int|
                0 <= i < old(self).tabs@.len() ==> (#[trigger] old(self).tabs@[i]).id
                    != snapshot.id,
    {
        let id = TabId::next(&mut self.next_tab_id);
        let snapshot = TabSnapshot { id, title, url: None, last_loaded: None };
        self.tabs.push(snapshot.clone());
        snapshot
    }

    /// Returns a full copy of all current entries, in creation order.
    pub fn snapshot_tabs(&self) -> (r: Vec<TabSnapshot>)
        ensures
            r@ == self.tabs@,
    {
        let n = self.tabs.len();
        let mut r: Vec<TabSnapshot> = Vec::new();
        let mut i: usize = 0;
        while i < n
            invariant
                n == self.tabs@.len(),
                0 <= i <= n,
                r@ == self.tabs@.take(i as int),
            decreases n - i,
        {
            r.push(self.tabs[i].clone());
            proof {
                assert(self.tabs@.take(i as int).push(self.tabs@[i as int]) =~= self.tabs@.take(
                    i as int + 1,
                ));
            }
            i = i + 1;
        }
        proof {
            assert(self.tabs@.take(n as int) =~= self.tabs@);
        }
        r
    }

    /// Commits the result of a successful fetch to the entry for `tab`: its
    /// url and last-loaded time are set together, and its title becomes the
    /// derived one, or keeps its previous value when none was derived. An
    /// unknown tab drops the update silently.
    pub fn apply_fetch_result(&mut self, tab: TabId, page: &PageResponse)
        requires
            old(self).wf(),
        ensures
            final(self).wf(),
            final(self).next_tab_id == old(self).next_tab_id,
            tabs_after_fetch(old(self).tabs@, final(self).tabs@, tab, *page),
    {
        let n = self.tabs.len();
        let mut i: usize = 0;
        while i < n
            invariant
                old(self).wf(),
                n == self.tabs@.len(),
                0 <= i <= n,
                *self == *old(self),
                forall|k: int| 0 <= k < i ==> (#[trigger] self.tabs@[k]).id != tab,
            decreases n - i,
        {
            if self.tabs[i].id == tab {
                let new_title = match derive_title(page) {
                    Some(t) => t,
                    None => self.tabs[i].title.clone(),
                };
                let updated = TabSnapshot {
                    id: self.tabs[i].id,
                    title: new_title,
                    url: Some(page.url.clone()),
                    last_loaded: Some(page.received_at),
                };
                self.tabs[i] = updated;
                proof {
                    lemma_tab_ids_strictly_increasing(*old(self));
                    assert forall|k: int|
                        0 <= k && k + 1 < self.tabs@.len() implies (#[trigger] self.tabs@[k]).id.0
                        < self.tabs@[k + 1].id.0 by {
                        assert(self.tabs@[k].id == old(self).tabs@[k].id);
                        assert(self.tabs@[k + 1].id == old(self).tabs@[k + 1].id);
                    }
                }
                return;
            }
            i = i + 1;
        }
    }

    /// Processes what the transport handed back for one request: on a
    /// transport failure or an undecodable body the registry is left
    /// untouched and the error is surfaced; otherwise the response is built,
    /// its outcome is committed to the requesting tab, and the response is
    /// returned by move with its `title` field left empty.
    pub fn fetch_page(
        &mut self,
        request: &PageRequest,
        outcome: TransportOutcome,
        received_at: i64,
    ) -> (r: Result<PageResponse, BrowserError>)
        requires
            old(self).wf(),
        ensures
            final(self).wf(),
            final(self).next_tab_id == old(self).next_tab_id,
            match outcome {
                TransportOutcome::TransportFailed { message } => r == Err::<
                    PageResponse,
                    BrowserError,
                >(BrowserError::Network(message)) && *final(self) == *old(self),
                TransportOutcome::Delivered { status, mime_type, body } => match utf8_decoded(
                    body@,
                ) {
                    None => r == Err::<PageResponse, BrowserError>(BrowserError::InvalidBody)
                        && *final(self) == *old(self),
                    Some(decoded) => r matches Ok(page) && {
                        &&& page.url == request.url
                        &&& page.status == status
                        &&& page.mime_type == mime_type
                        &&& page.title is None
                        &&& page.body@ == decoded
                        &&& page.received_at == received_at
                        &&& tabs_after_fetch(old(self).tabs@, final(self).tabs@, request.tab, page)
                    },
                },
            },
    {
        match outcome {
            TransportOutcome::TransportFailed { message } => Err(BrowserError::Network(message)),
            TransportOutcome::Delivered { status, mime_type, body } => {
                match decode_utf8(body) {
                    None => Err(BrowserError::InvalidBody),
                    Some(decoded_body) => {
                        let page = PageResponse {
                            url: request.url.clone(),
                            status,
                            mime_type,
                            title: None,
                            body: decoded_body,
                            received_at,
                        };
                        self.apply_fetch_result(request.tab, &page);
                        Ok(page)
                    },
                }
            },
        }
    }

    /// Checks the registry invariant at run time, so that unverified callers
    /// holding a registry can test it before calling operations that require
    /// it.
    #[verifier::rlimit(50)]
    pub fn check_wf(&self) -> (r: bool)
        ensures
            r == self.wf(),
    {
        let n = self.tabs.len();
        let mut i: usize = 0;
        while i < n
            invariant
                n == self.tabs@.len(),
                0 <= i <= n,
                forall|k: int|
                    0 <= k < i ==> (#[trigger] self.tabs@[k]).id.0 < self.next_tab_id,
                forall|k: int|
                    0 <= k < i && k + 1 < n ==> (#[trigger] self.tabs@[k]).id.0 < self.tabs@[k
                        + 1].id.0,
                forall|k: int| 0 <= k < i ==> (#[trigger] self.tabs@[k]).consistent(),
            decreases n - i,
        {
            if self.tabs[i].id.0 >= self.next_tab_id {
                return false;
            }
            if self.tabs[i].url.is_some() != self.tabs[i].last_loaded.is_some() {
                return false;
            }
            if i + 1 < n {
                if self.tabs[i + 1].id.0 <= self.tabs[i].id.0 {
                    return false;
                }
            }
            i = i + 1;
        }
        true
    }
}

proof fn lemma_ids_increase_between(tabs: Seq<TabSnapshot>, i: int, j: int)
    requires
        0 <= i < j < tabs.len(),
        forall|k: int| 0 <= k && k + 1 < tabs.len() ==> (#[trigger] tabs[k]).id.0 < tabs[k + 1].id.0,
    ensures
        tabs[i].id.0 < tabs[j].id.0,
    decreases j - i,
{
    if j > i + 1 {
        lemma_ids_increase_between(tabs, i, j - 1);
    }
}

/// Law: tab identifiers in a well-formed registry are strictly increasing in
/// creation order, and therefore pairwise distinct.
pub proof fn lemma_tab_ids_strictly_increasing(core: BrowserCore)
    requires
        core.wf(),
    ensures
        forall|i: int, j: int|
            0 <= i < j < core.tabs@.len() ==> core.tabs@[i].id.0 < core.tabs@[j].id.0,
        forall|i: int, j: int|
            0 <= i < j < core.tabs@.len() ==> core.tabs@[i].id != core.tabs@[j].id,
{
    assert forall|i: int, j: int|
        0 <= i < j < core.tabs@.len() implies core.tabs@[i].id.0 < core.tabs@[j].id.0 by {
        lemma_ids_increase_between(core.tabs@, i, j);
    }
}

/// Law: no snapshot taken from a well-formed registry is half-updated: each
/// entry's url and last-loaded time are either both set or both unset.
pub proof fn lemma_snapshots_consistent(core: BrowserCore)
    requires
        core.wf(),
    ensures
        forall|i: int|
            0 <= i < core.tabs@.len() ==> ((#[trigger] core.tabs@[i]).url is Some
                <==> core.tabs@[i].last_loaded is Some),
{
}

} // verus!
