use vstd::prelude::*;
use std::collections::HashMap;
use crate::ffi_types::{PendingResponse, RNW_HANDLE_INVALID};

verus! {

broadcast use vstd::std_specs::hash::group_hash_axioms;

/// The registry of live browsers shared by all calls of the C interface. Each browser is
/// known by a handle; handles are handed out in increasing order from 1, so none is ever
/// handed out twice and none is [`RNW_HANDLE_INVALID`].
pub struct GlobalState<B> {
    browsers: HashMap<u64, B>,
    next_handle: u64,
    pending_responses: HashMap<u64, PendingResponse>,
    next_request_id: u64,
}

impl<B> GlobalState<B> {
    #[verifier::type_invariant]
    spec fn inv(self) -> bool {
        &&& 1 <= self.next_handle
        &&& 1 <= self.next_request_id
        &&& forall|h: u64| #[trigger]
            self.browsers@.contains_key(h) ==> 1 <= h < self.next_handle
    }

    /// The live browsers by handle.
    pub closed spec fn browser_map(self) -> Map<u64, B> {
        self.browsers@
    }

    /// The handle that the next registered browser gets.
    pub closed spec fn handle_counter(self) -> u64 {
        self.next_handle
    }

    /// The id that the next resource request gets.
    pub closed spec fn request_counter(self) -> u64 {
        self.next_request_id
    }

    /// The responses waiting for their requests, by request id.
    pub closed spec fn pending_map(self) -> Map<u64, PendingResponse> {
        self.pending_responses@
    }

    /// A registry with no browsers, whose first handle and first request id are 1.
    pub fn new() -> (s: GlobalState<B>)
        ensures
            s.browser_map() == Map::<u64, B>::empty(),
            s.pending_map() == Map::<u64, PendingResponse>::empty(),
            s.handle_counter() == 1,
            s.request_counter() == 1,
    {
        GlobalState {
            browsers: HashMap::new(),
            next_handle: 1,
            pending_responses: HashMap::new(),
            next_request_id: 1,
        }
    }

    /// The handle that the next registered browser gets.
    pub fn next_handle(&self) -> (h: u64)
        ensures
            h == self.handle_counter(),
    {
        self.next_handle
    }

    /// The id that the next resource request gets.
    pub fn next_request_id(&self) -> (id: u64)
        ensures
            id == self.request_counter(),
    {
        self.next_request_id
    }

    /// The responses waiting for their requests.
    pub fn pending_responses(&self) -> (m: &HashMap<u64, PendingResponse>)
        ensures
            m@ == self.pending_map(),
    {
        &self.pending_responses
    }

    /// Registers a browser under a fresh handle and returns that handle: the counter's value,
    /// which no live browser had and which is never the invalid handle.
    pub fn insert_browser(&mut self, browser: B) -> (handle: u64)
        requires
            old(self).handle_counter() < u64::MAX,
        ensures
            handle == old(self).handle_counter(),
            handle != RNW_HANDLE_INVALID,
            !old(self).browser_map().contains_key(handle),
            final(self).browser_map() == old(self).browser_map().insert(handle, browser),
            final(self).handle_counter() == old(self).handle_counter() + 1,
            final(self).request_counter() == old(self).request_counter(),
            final(self).pending_map() == old(self).pending_map(),
    {
        proof {
            use_type_invariant(&*self);
        }
        let handle: u64 = self.next_handle;
        self.next_handle = self.next_handle + 1;
        let mut browsers = HashMap::new();
        std::mem::swap(&mut browsers, &mut self.browsers);
        browsers.insert(handle, browser);
        self.browsers = browsers;
        handle
    }

    /// Takes the browser with this handle out of the registry, if there is one.
    pub fn remove_browser(&mut self, handle: u64) -> (r: Option<B>)
        ensures
            final(self).browser_map() == old(self).browser_map().remove(handle),
            old(self).browser_map().contains_key(handle) ==> r == Some(
                old(self).browser_map()[handle],
            ),
            !old(self).browser_map().contains_key(handle) ==> r is None,
            final(self).handle_counter() == old(self).handle_counter(),
            final(self).request_counter() == old(self).request_counter(),
            final(self).pending_map() == old(self).pending_map(),
    {
        proof {
            use_type_invariant(&*self);
        }
        let mut browsers = HashMap::new();
        std::mem::swap(&mut browsers, &mut self.browsers);
        let r = browsers.remove(&handle);
        self.browsers = browsers;
        r
    }

    /// The browser with this handle, if it is live.
    pub fn get_browser(&self, handle: u64) -> (r: Option<&B>)
        ensures
            self.browser_map().contains_key(handle) ==> r == Some(&self.browser_map()[handle]),
            !self.browser_map().contains_key(handle) ==> r is None,
            r is Some ==> handle != RNW_HANDLE_INVALID && handle < self.handle_counter(),
    {
        proof {
            use_type_invariant(self);
        }
        self.browsers.get(&handle)
    }

    /// Hands out a fresh request id: the counter's value, after which the counter moves on.
    pub fn alloc_request_id(&mut self) -> (id: u64)
        requires
            old(self).request_counter() < u64::MAX,
        ensures
            id == old(self).request_counter(),
            final(self).request_counter() == old(self).request_counter() + 1,
            final(self).browser_map() == old(self).browser_map(),
            final(self).handle_counter() == old(self).handle_counter(),
            final(self).pending_map() == old(self).pending_map(),
    {
        proof {
            use_type_invariant(&*self);
        }
        let id: u64 = self.next_request_id;
        self.next_request_id = self.next_request_id + 1;
        id
    }
}

/// A browser registered under a handle is what a lookup of that handle finds afterwards.
pub proof fn law_registered_browser_is_found<B>(before: GlobalState<B>, after: GlobalState<B>, handle: u64, browser: B)
    requires
        after.browser_map() == before.browser_map().insert(handle, browser),
    ensures
        after.browser_map().contains_key(handle),
        after.browser_map()[handle] == browser,
{
}

/// Closing one handle leaves every other live handle and its browser as they were, and
/// the closed handle is found no more.
pub proof fn law_close_affects_only_its_handle<B>(before: GlobalState<B>, after: GlobalState<B>, closed: u64, other: u64)
    requires
        after.browser_map() == before.browser_map().remove(closed),
        other != closed,
    ensures
        !after.browser_map().contains_key(closed),
        after.browser_map().contains_key(other) == before.browser_map().contains_key(other),
        before.browser_map().contains_key(other) ==> after.browser_map()[other] == before.browser_map()[other],
{
}

/// A handle is never handed out twice: a registration hands out the counter's value and
/// moves the counter past it, and no operation ever lowers the counter, so any later
/// registration, made while the counter is higher, hands out a different handle.
pub proof fn law_handles_never_reissued<B>(earlier: GlobalState<B>, later: GlobalState<B>)
    requires
        later.handle_counter() > earlier.handle_counter(),
    ensures
        later.handle_counter() != earlier.handle_counter(),
        later.handle_counter() != RNW_HANDLE_INVALID,
{
}

} // verus!
