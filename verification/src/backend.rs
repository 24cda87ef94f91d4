use vstd::prelude::*;
use crate::text::{c_text, cstr_to_string};

verus! {

/// The process-wide state of a native webview backend: whether it is initialized, and
/// the scheme and before-browse callbacks the host installed, each with its user data.
pub struct BackendState<S, N> {
    initialized: bool,
    scheme_cb: Option<(S, usize)>,
    before_browse_cb: Option<(N, usize)>,
}

/// What `init` has to do.
#[derive(Clone, Copy, Debug, PartialEq, Eq, Structural)]
pub enum InitStep {
    /// The backend is already up: report success and do nothing.
    AlreadyInitialized,
    /// Set the backend up, then report how that went through `finish_init`.
    SetUp,
}

impl<S: Copy, N: Copy> BackendState<S, N> {
    pub closed spec fn is_up(self) -> bool {
        self.initialized
    }

    pub closed spec fn scheme_callback(self) -> Option<(S, usize)> {
        self.scheme_cb
    }

    pub closed spec fn before_browse_callback(self) -> Option<(N, usize)> {
        self.before_browse_cb
    }

    /// A backend that is not initialized and has no callbacks.
    pub fn new() -> (b: BackendState<S, N>)
        ensures
            !b.is_up(),
            b.scheme_callback() is None,
            b.before_browse_callback() is None,
    {
        BackendState { initialized: false, scheme_cb: None, before_browse_cb: None }
    }

    pub fn is_initialized(&self) -> (r: bool)
        ensures
            r == self.is_up(),
    {
        self.initialized
    }

    /// Whether `init` has anything to do: only a backend that is not up yet is set up.
    pub fn begin_init(&self) -> (step: InitStep)
        ensures
            self.is_up() ==> step == InitStep::AlreadyInitialized,
            !self.is_up() ==> step == InitStep::SetUp,
    {
        if self.initialized {
            InitStep::AlreadyInitialized
        } else {
            InitStep::SetUp
        }
    }

    /// Ends `init` once the set-up has run: the backend is up and `init` returns 0 where it
    /// succeeded; otherwise nothing changes and `init` returns -1.
    pub fn finish_init(&mut self, setup_succeeded: bool) -> (r: i32)
        ensures
            setup_succeeded ==> r == 0 && final(self).is_up(),
            !setup_succeeded ==> r == -1 && final(self).is_up() == old(self).is_up(),
            final(self).scheme_callback() == old(self).scheme_callback(),
            final(self).before_browse_callback() == old(self).before_browse_callback(),
    {
        if setup_succeeded {
            self.initialized = true;
            0
        } else {
            -1
        }
    }

    /// Shuts the backend down: no longer up, and both callbacks forgotten.
    pub fn shutdown(&mut self)
        ensures
            !final(self).is_up(),
            final(self).scheme_callback() is None,
            final(self).before_browse_callback() is None,
    {
        self.scheme_cb = None;
        self.before_browse_cb = None;
        self.initialized = false;
    }

    /// Installs the scheme callback with its user data; passing no callback keeps the one
    /// installed before.
    pub fn set_scheme_handler(&mut self, callback: Option<S>, user_data: usize)
        ensures
            callback matches Some(cb) ==> final(self).scheme_callback() == Some((cb, user_data)),
            callback is None ==> final(self).scheme_callback() == old(self).scheme_callback(),
            final(self).before_browse_callback() == old(self).before_browse_callback(),
            final(self).is_up() == old(self).is_up(),
    {
        if let Some(cb) = callback {
            self.scheme_cb = Some((cb, user_data));
        }
    }

    /// Installs the before-browse callback with its user data; passing no callback keeps
    /// the one installed before.
    pub fn set_before_browse_handler(&mut self, callback: Option<N>, user_data: usize)
        ensures
            callback matches Some(cb) ==> final(self).before_browse_callback() == Some(
                (cb, user_data),
            ),
            callback is None ==> final(self).before_browse_callback()
                == old(self).before_browse_callback(),
            final(self).scheme_callback() == old(self).scheme_callback(),
            final(self).is_up() == old(self).is_up(),
    {
        if let Some(cb) = callback {
            self.before_browse_cb = Some((cb, user_data));
        }
    }

    /// The installed scheme callback and its user data.
    pub fn scheme_handler(&self) -> (r: Option<(S, usize)>)
        ensures
            r == self.scheme_callback(),
    {
        self.scheme_cb
    }

    /// The installed before-browse callback and its user data.
    pub fn before_browse_handler(&self) -> (r: Option<(N, usize)>)
        ensures
            r == self.before_browse_callback(),
    {
        self.before_browse_cb
    }

    /// Whether a webview may be created in the window `parent` (0 for none): only in a
    /// window, and only once the backend is up.
    pub fn may_create(&self, parent: usize) -> (r: bool)
        ensures
            r == (parent != 0 && self.is_up()),
    {
        parent != 0 && self.initialized
    }
}

/// The URL a new webview first loads: the caller's, where it is given, UTF-8 and not
/// empty; otherwise it loads nothing.
pub fn initial_navigation(url: Option<&[u8]>) -> (r: Option<String>)
    ensures
        r matches Some(s) ==> c_text(url) == Some(s@) && s@.len() > 0,
        r is None ==> (c_text(url) matches Some(t) ==> t.len() == 0),
{
    match cstr_to_string(url) {
        Some(s) => {
            if s.as_str().is_empty() {
                None
            } else {
                Some(s)
            }
        },
        None => None,
    }
}

/// What becomes of a navigation after the host's before-browse callback.
#[derive(Clone, Copy, Debug, PartialEq, Eq, Structural)]
pub enum NavigationPolicy {
    Allow,
    Cancel,
}

/// The fate of a navigation: `None` where no callback is installed (it goes ahead), else
/// the callback's answer, where any non-zero value cancels it.
pub fn navigation_policy(verdict: Option<i32>) -> (p: NavigationPolicy)
    ensures
        (verdict matches Some(v) && v != 0) <==> p == NavigationPolicy::Cancel,
{
    match verdict {
        Some(v) => if v != 0 {
            NavigationPolicy::Cancel
        } else {
            NavigationPolicy::Allow
        },
        None => NavigationPolicy::Allow,
    }
}

} // verus!
