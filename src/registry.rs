use std::collections::HashMap;
use vstd::prelude::*;

use crate::window::{WM_NCCREATE, WM_NCDESTROY};

verus! {

broadcast use vstd::std_specs::hash::group_hash_axioms;

/// Where the class-wide window procedure sends a message.
#[derive(Debug, Copy, Clone, PartialEq, Eq, Structural)]
pub enum ClassRoute {
    /// Hand the message to the system's default procedure.
    Default,
    /// Hand the message to the window registered for the handle.
    Forward,
    /// The native window is gone: drop its registration.
    Unregister,
}

/// The route of message `msg` for a handle that is registered or not.
pub open spec fn class_route(msg: u32, registered: bool) -> ClassRoute {
    if msg == WM_NCCREATE {
        ClassRoute::Default
    } else if msg == WM_NCDESTROY {
        ClassRoute::Unregister
    } else if registered {
        ClassRoute::Forward
    } else {
        ClassRoute::Default
    }
}

/// A window registered for a handle receives that handle's ordinary messages
/// until its entry is dropped; from then on they go to the default procedure.
pub proof fn lemma_registration_routes<V>(instances: Map<usize, V>, hwnd: usize, window: V, msg: u32)
    requires
        msg != WM_NCCREATE,
        msg != WM_NCDESTROY,
    ensures
        class_route(msg, instances.insert(hwnd, window).contains_key(hwnd)) == ClassRoute::Forward,
        class_route(msg, instances.insert(hwnd, window).remove(hwnd).contains_key(hwnd))
            == ClassRoute::Default,
{
}

/// The window class shared by all windows of the process: the module
/// instance it was registered with, and, keyed by native handle, an entry
/// for each live window through which its messages are routed. Entries are
/// meant to be non-owning references, so that the registry never keeps a
/// window alive after the system destroyed it.
pub struct WndClass<V> {
    pub h_instance: usize,
    window_instances: HashMap<usize, V>,
}

impl<V> WndClass<V> {
    /// The registered windows, by native handle.
    pub closed spec fn instances(&self) -> Map<usize, V> {
        self.window_instances@
    }

    /// The module instance the class was registered with.
    pub closed spec fn module(&self) -> usize {
        self.h_instance
    }

    /// A class for module instance `h_instance`, with no windows yet.
    pub fn new(h_instance: usize) -> (r: WndClass<V>)
        ensures
            r.module() == h_instance,
            r.instances() == Map::<usize, V>::empty(),
    {
        WndClass { h_instance, window_instances: HashMap::new() }
    }

    /// Records `window` as the target of the messages for `hwnd`, replacing
    /// any earlier entry for that handle.
    pub fn register(&mut self, hwnd: usize, window: V)
        ensures
            final(self).module() == old(self).module(),
            final(self).instances() == old(self).instances().insert(hwnd, window),
    {
        self.window_instances.insert(hwnd, window);
    }

    /// The entry for `hwnd`, if one is registered.
    pub fn lookup(&self, hwnd: usize) -> (r: Option<&V>)
        ensures
            r == (if self.instances().contains_key(hwnd) {
                Some(&self.instances()[hwnd])
            } else {
                None::<&V>
            }),
    {
        self.window_instances.get(&hwnd)
    }

    /// The number of registered windows.
    pub fn len(&self) -> (r: usize)
        ensures
            r == self.instances().len(),
    {
        self.window_instances.len()
    }

    /// Where the window procedure sends message `msg` for window `hwnd`.
    pub fn route(&self, hwnd: usize, msg: u32) -> (r: ClassRoute)
        ensures
            r == class_route(msg, self.instances().contains_key(hwnd)),
    {
        if msg == WM_NCCREATE {
            ClassRoute::Default
        } else if msg == WM_NCDESTROY {
            ClassRoute::Unregister
        } else if self.window_instances.contains_key(&hwnd) {
            ClassRoute::Forward
        } else {
            ClassRoute::Default
        }
    }

    /// Drops the entry for `hwnd`; true when no window is left, which is
    /// when the application should quit.
    pub fn unregister(&mut self, hwnd: usize) -> (last: bool)
        ensures
            final(self).module() == old(self).module(),
            final(self).instances() == old(self).instances().remove(hwnd),
            last == final(self).instances().is_empty(),
    {
        self.window_instances.remove(&hwnd);
        self.window_instances.is_empty()
    }
}

} // verus!
