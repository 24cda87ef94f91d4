use vstd::prelude::*;
use std::collections::HashMap;
use crate::ffi_types::{default_mime_type, response_mime_type};
use crate::text::{c_text, text_or};

verus! {

broadcast use vstd::std_specs::hash::group_hash_axioms;

/// A rectangle as Win32 describes it, by its edges.
#[derive(Clone, Copy, Debug, PartialEq, Eq, Structural)]
pub struct WinRect {
    pub left: i32,
    pub top: i32,
    pub right: i32,
    pub bottom: i32,
}

/// The controller bounds for a webview of the given size at the parent's origin.
pub fn size_bounds(width: i32, height: i32) -> (r: WinRect)
    ensures
        r == (WinRect { left: 0, top: 0, right: width, bottom: height }),
{
    WinRect { left: 0, top: 0, right: width, bottom: height }
}

/// The controller bounds for a webview placed at `(x, y)` with the given size.
pub fn placed_bounds(x: i32, y: i32, width: i32, height: i32) -> (r: WinRect)
    requires
        i32::MIN <= x + width <= i32::MAX,
        i32::MIN <= y + height <= i32::MAX,
    ensures
        r.left == x,
        r.top == y,
        r.right == x + width,
        r.bottom == y + height,
{
    WinRect { left: x, top: y, right: x + width, bottom: y + height }
}

/// The header that carries a scheme response's MIME type (the default type where the
/// host's string is a null pointer or not UTF-8).
pub fn content_type_header(mime_type: Option<&[u8]>) -> (h: String)
    ensures
        h@ == "Content-Type: "@ + text_or(c_text(mime_type), default_mime_type()),
{
    let mime = response_mime_type(mime_type);
    let mut h = String::from_str("Content-Type: ");
    h.append(mime.as_str());
    h
}

/// Waiting for an asynchronous WebView2 call: messages are pumped until the call reports
/// that it is ready, but the wait gives up after a number of idle turns.
pub struct ReadyWait {
    idle_turns: u32,
    timeout_turns: u32,
}

impl ReadyWait {
    pub closed spec fn idle(self) -> u32 {
        self.idle_turns
    }

    pub closed spec fn timeout(self) -> u32 {
        self.timeout_turns
    }

    /// A wait that gives up after `timeout_turns` idle turns.
    pub fn new(timeout_turns: u32) -> (w: ReadyWait)
        ensures
            w.idle() == 0,
            w.timeout() == timeout_turns,
    {
        ReadyWait { idle_turns: 0, timeout_turns }
    }

    /// Whether to go on waiting: while the call is not ready and the idle turns are not
    /// used up.
    pub fn keep_waiting(&self, ready: bool) -> (r: bool)
        ensures
            r == (!ready && self.idle() < self.timeout()),
    {
        !ready && self.idle_turns < self.timeout_turns
    }

    /// Counts a turn on which no message was waiting (and the caller slept).
    pub fn note_idle_turn(&mut self)
        requires
            old(self).idle() < old(self).timeout(),
        ensures
            final(self).idle() == old(self).idle() + 1,
            final(self).idle() <= final(self).timeout(),
            final(self).timeout() == old(self).timeout(),
    {
        self.idle_turns = self.idle_turns + 1;
    }
}

/// The addresses of the live webviews, kept while the backend is up.
pub struct InstanceSet {
    instances: Option<HashMap<usize, ()>>,
}

impl InstanceSet {
    /// The live addresses, or `None` while the backend is down.
    pub closed spec fn live(self) -> Option<Set<usize>> {
        match self.instances {
            Some(m) => Some(m@.dom()),
            None => None,
        }
    }

    /// The set while the backend is down.
    pub fn new() -> (s: InstanceSet)
        ensures
            s.live() is None,
    {
        InstanceSet { instances: None }
    }

    /// Starts tracking, empty, when the backend comes up.
    pub fn start(&mut self)
        ensures
            final(self).live() == Some(Set::<usize>::empty()),
    {
        self.instances = Some(HashMap::new());
        proof {
            assert(self.live()->0 =~= Set::<usize>::empty());
        }
    }

    /// Forgets every webview when the backend shuts down.
    pub fn clear(&mut self)
        ensures
            final(self).live() is None,
    {
        self.instances = None;
    }

    /// Records a new webview; nothing is recorded while the backend is down.
    pub fn record(&mut self, handle: usize)
        ensures
            old(self).live() matches Some(s) ==> final(self).live() == Some(s.insert(handle)),
            old(self).live() is None ==> final(self).live() is None,
    {
        match &mut self.instances {
            Some(m) => {
                m.insert(handle, ());
            },
            None => {},
        }
    }

    /// Forgets a destroyed webview.
    pub fn forget(&mut self, handle: usize)
        ensures
            old(self).live() matches Some(s) ==> final(self).live() == Some(s.remove(handle)),
            old(self).live() is None ==> final(self).live() is None,
    {
        match &mut self.instances {
            Some(m) => {
                m.remove(&handle);
            },
            None => {},
        }
    }
}

} // verus!
