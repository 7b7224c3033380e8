//! The network-interface model: selection by name and the lifecycle of
//! the OS handle used for injection.
//!
//! Enumerating adapters and the raw-socket system calls are performed by
//! the surrounding process; this module decides which enumerated entry a
//! name resolves to and guarantees that the injection handle is opened at
//! most once and released exactly once.

use vstd::prelude::*;

verus! {

/// One entry produced by interface enumeration: a name, the address
/// family of the entry's address, and the platform index used for
/// binding.  An interface with several addresses appears once per
/// address.
pub struct NicEntry {
    pub name: String,
    pub family: u16,
    pub index: u32,
}

/// The state of the OS handle behind an [`Interface`].
#[derive(Clone, Copy, Debug)]
pub enum HandleState {
    /// No injection was attempted yet; no OS resource exists.
    Unopened,
    /// The handle was opened and bound; `fd` identifies the OS resource.
    Open { fd: i32 },
    /// The interface was destroyed; the handle may never be used again.
    Closed,
}

/// What destroying a handle does: an open handle yields its descriptor
/// for one OS close, any other state yields nothing.
pub open spec fn spec_close(h: HandleState) -> (HandleState, Option<i32>) {
    match h {
        HandleState::Open { fd } => (HandleState::Closed, Some(fd)),
        _ => (HandleState::Closed, None),
    }
}

/// A selected network interface: its name, the platform index used for
/// binding, and the lazily created OS handle.
pub struct Interface {
    pub name: String,
    pub index: u32,
    pub handle: HandleState,
}

impl Interface {
    /// A fresh interface: the handle is created only on first injection.
    pub fn new(name: String, index: u32) -> (r: Interface)
        ensures
            r.name == name,
            r.index == index,
            r.handle is Unopened,
    {
        Interface { name, index, handle: HandleState::Unopened }
    }

    /// Whether the first injection must create and bind the handle.
    pub fn needs_open(&self) -> (r: bool)
        ensures
            r == (self.handle is Unopened),
    {
        match self.handle {
            HandleState::Unopened => true,
            _ => false,
        }
    }

    /// Record that the OS handle was created and bound.  Allowed only
    /// once: a handle is never opened twice.
    pub fn note_opened(&mut self, fd: i32)
        requires
            old(self).handle is Unopened,
        ensures
            final(self).name == old(self).name,
            final(self).index == old(self).index,
            final(self).handle == (HandleState::Open { fd }),
    {
        self.handle = HandleState::Open { fd };
    }

    /// The descriptor to write to, if the handle is open.
    pub fn fd(&self) -> (r: Option<i32>)
        ensures
            match self.handle {
                HandleState::Open { fd } => r == Some(fd),
                _ => r is None,
            },
    {
        match self.handle {
            HandleState::Open { fd } => Some(fd),
            _ => None,
        }
    }

    /// Destroy the interface's handle.  Returns the descriptor the
    /// caller must close, exactly when the handle was open; an interface
    /// that was never injected on yields nothing.  After this call the
    /// handle is closed for good, so a second destroy yields nothing.
    pub fn take_close(&mut self) -> (r: Option<i32>)
        ensures
            final(self).name == old(self).name,
            final(self).index == old(self).index,
            final(self).handle == spec_close(old(self).handle).0,
            r == spec_close(old(self).handle).1,
    {
        let r = match self.handle {
            HandleState::Open { fd } => Some(fd),
            _ => None,
        };
        self.handle = HandleState::Closed;
        r
    }
}

/// Destroying a handle performs at most one OS close over its whole
/// life: exactly one if it was open, none if it was never opened, and a
/// repeated destroy never yields another.
pub proof fn lemma_close_exactly_once(h: HandleState)
    ensures
        h is Open <==> spec_close(h).1 is Some,
        spec_close(spec_close(h).0).1 is None,
{
}

/// Whether an enumerated entry carries the requested name.
pub open spec fn entry_matches(e: NicEntry, name: Seq<char>) -> bool {
    e.name@ == name
}

/// The entry selection rule: among the entries matching the name, `j` is
/// the first entry with the numerically smallest address family.
pub open spec fn is_selected(entries: Seq<NicEntry>, name: Seq<char>, j: int) -> bool {
    &&& 0 <= j < entries.len()
    &&& entry_matches(entries[j], name)
    &&& forall|k: int|
        0 <= k < entries.len() && entry_matches(entries[k], name) ==> entries[j].family
            <= #[trigger] entries[k].family
    &&& forall|k: int|
        0 <= k < j && entry_matches(entries[k], name) ==> entries[j].family < #[trigger] entries[k].family
}

/// Resolve an interface by exact name among enumerated entries.
///
/// When several entries share the name (one interface, several
/// addresses), the one with the numerically smallest address family is
/// chosen, and among equals the earliest, so resolution is
/// deterministic.
pub fn get_interface(name: &String, entries: &Vec<NicEntry>) -> (r: Option<Interface>)
    ensures
        (r is None) <==> (forall|k: int|
            0 <= k < entries@.len() ==> !entry_matches(#[trigger] entries@[k], name@)),
        match r {
            Some(i) => {
                &&& i.name@ == name@
                &&& i.handle is Unopened
                &&& exists|j: int|
                    #[trigger] is_selected(entries@, name@, j) && i.index == entries@[j].index
            },
            None => true,
        },
{
    let n = entries.len();
    let mut best: Option<usize> = None;
    let mut k: usize = 0;
    while k < n
        invariant
            n == entries@.len(),
            k <= n,
            match best {
                None => forall|i: int| 0 <= i < k ==> !entry_matches(#[trigger] entries@[i], name@),
                Some(b) => {
                    &&& b < k
                    &&& entry_matches(entries@[b as int], name@)
                    &&& forall|i: int|
                        0 <= i < k && entry_matches(#[trigger] entries@[i], name@) ==> entries@[
                            b as int
                        ].family <= entries@[i].family
                    &&& forall|i: int|
                        0 <= i < b && entry_matches(#[trigger] entries@[i], name@) ==> entries@[
                            b as int
                        ].family < entries@[i].family
                },
            },
        decreases n - k,
    {
        if entries[k].name == *name {
            match best {
                None => {
                    best = Some(k);
                },
                Some(b) => {
                    if entries[k].family < entries[b].family {
                        best = Some(k);
                    }
                },
            }
        }
        k = k + 1;
    }
    match best {
        None => None,
        Some(b) => {
            proof {
                assert(is_selected(entries@, name@, b as int));
            }
            Some(Interface::new(entries[b].name.clone(), entries[b].index))
        },
    }
}

} // verus!
