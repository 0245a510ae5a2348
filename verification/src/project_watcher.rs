//! Watching the shared workspace: which root is watched, and how bursts of file events are
//! collapsed into one notification.
use vstd::prelude::*;

verus! {

/// The event the user interface is sent when projects may have changed.
pub const PROJECTS_CHANGED_EVENT: &'static str = "workspace-projects-changed";
/// How long the watcher waits for quiet before it notifies, in milliseconds.
pub const EVENT_DEBOUNCE_MS: u64 = 500;

/// The workspace root being watched, if any.
pub struct WatchedRoot {
    root: Option<String>,
}

impl WatchedRoot {
    pub closed spec fn root_view(&self) -> Option<Seq<char>> {
        match self.root {
            Some(r) => Some(r@),
            None => None,
        }
    }

    /// Nothing is watched.
    pub fn new() -> (r: Self)
        ensures
            r.root_view() is None,
    {
        WatchedRoot { root: None }
    }

    /// A new watch is needed unless this very root is already watched.
    pub fn needs_watch(&self, root: &str) -> (r: bool)
        ensures
            r == (self.root_view() != Some(root@)),
    {
        match &self.root {
            Some(current) => !crate::text::equals_str(&crate::text::to_chars(root), current.as_str()),
            None => true,
        }
    }

    /// Records the root a watch was started for.
    pub fn watching(&mut self, root: String)
        ensures
            final(self).root_view() == Some(root@),
    {
        self.root = Some(root);
    }

    /// Forgets the watch when it failed for the root being watched; a failure reported for
    /// another root changes nothing.
    pub fn mark_failed(&mut self, root: &str)
        ensures
            old(self).root_view() == Some(root@) ==> final(self).root_view() is None,
            old(self).root_view() != Some(root@) ==> final(self).root_view() == old(self).root_view(),
    {
        let same = match &self.root {
            Some(current) => crate::text::equals_str(&crate::text::to_chars(root), current.as_str()),
            None => false,
        };
        if same {
            self.root = None;
        }
    }
}

/// A burst of file events: the root the last event named, and when the burst is over unless
/// another event comes (in milliseconds).
pub struct Debounce {
    root: String,
    deadline: u64,
}

impl Debounce {
    pub closed spec fn root_view(&self) -> Seq<char> {
        self.root@
    }

    pub closed spec fn deadline_spec(&self) -> u64 {
        self.deadline
    }

    /// The quiet period after an event at `now`.
    pub open spec fn quiet_until(now: u64) -> u64 {
        if now + EVENT_DEBOUNCE_MS > u64::MAX { u64::MAX } else { (now + EVENT_DEBOUNCE_MS) as u64 }
    }

    /// A burst begun by an event for `root` at `now`.
    pub fn start(root: String, now: u64) -> (r: Self)
        ensures
            r.root_view() == root@,
            r.deadline_spec() == Self::quiet_until(now),
    {
        Debounce { root, deadline: now.saturating_add(EVENT_DEBOUNCE_MS) }
    }

    /// Another event in the burst: it names the root and restarts the quiet period.
    pub fn event(&mut self, root: String, now: u64)
        ensures
            final(self).root_view() == root@,
            final(self).deadline_spec() == Self::quiet_until(now),
    {
        self.root = root;
        self.deadline = now.saturating_add(EVENT_DEBOUNCE_MS);
    }

    /// How long to wait for another event at `now`; zero when the burst is over.
    pub fn wait_ms(&self, now: u64) -> (r: u64)
        ensures
            r == if self.deadline_spec() > now { (self.deadline_spec() - now) as u64 } else { 0u64 },
    {
        self.deadline.saturating_sub(now)
    }

    /// The root to notify about once the burst is over.
    pub fn finish(self) -> (r: String)
        ensures
            r@ == self.root_view(),
    {
        self.root
    }
}

} // verus!
