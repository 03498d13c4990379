//! The display link's decision logic: the memoized atom cache, the
//! fixed supported-protocols set, the startup ownership check, and the
//! ICCCM-compliant close decision.
//!
//! The embedding binary owns the display connection and performs the
//! round trips; this module decides what to ask and what the replies
//! mean.

use vstd::prelude::*;

use crate::text::str_eq;

verus! {

/// Index of the first cache entry for `name`, if one exists.
pub open spec fn cache_index(entries: Seq<(String, u32)>, name: Seq<char>) -> Option<int>
    decreases entries.len(),
{
    if entries.len() == 0 {
        None
    } else if entries[0].0@ == name {
        Some(0int)
    } else {
        match cache_index(entries.drop_first(), name) {
            Some(i) => Some(i + 1),
            None => None,
        }
    }
}

/// The memoized atom cache: name to interned id, populated lazily on
/// first use, never evicted.
pub struct AtomCache {
    entries: Vec<(String, u32)>,
}

impl View for AtomCache {
    type V = Seq<(String, u32)>;

    closed spec fn view(&self) -> Seq<(String, u32)> {
        self.entries@
    }
}

impl AtomCache {
    /// Create an empty cache.
    pub fn new() -> (r: AtomCache)
        ensures
            r@ == Seq::<(String, u32)>::empty(),
    {
        AtomCache { entries: Vec::new() }
    }

    /// The cached id for `name`: the id it was recorded with, or none
    /// when a round trip to the server is needed first.
    pub fn lookup(&self, name: &str) -> (r: Option<u32>)
        ensures
            match cache_index(self@, name@) {
                Some(i) => r == Some(self@[i].1),
                None => r is None,
            },
    {
        let n = self.entries.len();
        let mut i: usize = 0;
        while i < n
            invariant
                n == self.entries@.len(),
                0 <= i <= n,
                forall|j: int| 0 <= j < i ==> self.entries@[j].0@ != name@,
            decreases n - i,
        {
            if str_eq(self.entries[i].0.as_str(), name) {
                proof {
                    lemma_cache_first_match(self.entries@, name@, i as int);
                }
                return Some(self.entries[i].1);
            }
            i = i + 1;
        }
        proof {
            lemma_cache_index_characterizes(self.entries@, name@);
        }
        None
    }

    /// Record the id the server interned for `name`.
    pub fn record(&mut self, name: &str, atom: u32)
        ensures
            final(self)@.len() == old(self)@.len() + 1,
            final(self)@.drop_last() =~= old(self)@,
            final(self)@.last().0@ == name@,
            final(self)@.last().1 == atom,
    {
        self.entries.push((name.to_owned(), atom));
    }
}

/// `cache_index` finds the first entry for the name and nothing else.
pub proof fn lemma_cache_index_characterizes(entries: Seq<(String, u32)>, name: Seq<char>)
    ensures
        match cache_index(entries, name) {
            Some(i) => {
                &&& 0 <= i < entries.len()
                &&& entries[i].0@ == name
                &&& forall|j: int| 0 <= j < i ==> entries[j].0@ != name
            },
            None => forall|j: int| 0 <= j < entries.len() ==> entries[j].0@ != name,
        },
    decreases entries.len(),
{
    if entries.len() > 0 && entries[0].0@ != name {
        let rest = entries.drop_first();
        lemma_cache_index_characterizes(rest, name);
        match cache_index(rest, name) {
            Some(i) => {
                assert(entries[i + 1] == rest[i]);
                assert forall|j: int| 0 <= j < i + 1 implies entries[j].0@ != name by {
                    if j > 0 {
                        assert(entries[j] == rest[j - 1]);
                    }
                }
            },
            None => {
                assert forall|j: int| 0 <= j < entries.len() implies entries[j].0@ != name by {
                    if j > 0 {
                        assert(entries[j] == rest[j - 1]);
                    }
                }
            },
        }
    }
}

/// The first entry for the name is the one found.
pub proof fn lemma_cache_first_match(entries: Seq<(String, u32)>, name: Seq<char>, i: int)
    requires
        0 <= i < entries.len(),
        entries[i].0@ == name,
        forall|j: int| 0 <= j < i ==> entries[j].0@ != name,
    ensures
        cache_index(entries, name) == Some(i),
    decreases i,
{
    if i > 0 {
        let rest = entries.drop_first();
        assert(forall|j: int| 0 <= j < rest.len() ==> rest[j] == entries[j + 1]);
        lemma_cache_first_match(rest, name, i - 1);
    }
}

/// The law of memoization: once a name missing from the cache is
/// recorded, looking it up yields exactly the recorded id, with no
/// further round trip.
pub proof fn lemma_memoized(entries: Seq<(String, u32)>, entry: (String, u32))
    requires
        cache_index(entries, entry.0@) is None,
    ensures
        cache_index(entries.push(entry), entry.0@) == Some(entries.len() as int),
        entries.push(entry)[entries.len() as int] == entry,
{
    lemma_cache_index_characterizes(entries, entry.0@);
    lemma_cache_first_match(entries.push(entry), entry.0@, entries.len() as int);
}

/// The names of the protocols advertised on the root window at
/// startup, in the order they are written into the supported-protocols
/// property.
pub fn supported_atom_names() -> (r: Vec<&'static str>)
    ensures
        r@.len() == 4,
        r@[0]@ == "_NET_SUPPORTED"@,
        r@[1]@ == "_NET_WM_STATE"@,
        r@[2]@ == "_NET_ACTIVE_WINDOW"@,
        r@[3]@ == "_NET_WM_STATE_FULLSCREEN"@,
{
    let mut names: Vec<&'static str> = Vec::new();
    names.push("_NET_SUPPORTED");
    names.push("_NET_WM_STATE");
    names.push("_NET_ACTIVE_WINDOW");
    names.push("_NET_WM_STATE_FULLSCREEN");
    names
}

/// The display protocol's access-error code: the reply that means the
/// redirect is already owned.
pub const ACCESS_ERROR_CODE: u8 = 10;

/// Outcome of the startup attempt to select substructure redirection on
/// the root window.
#[derive(Clone, Copy, Debug, PartialEq, Eq, Structural)]
pub enum StartupCheck {
    /// The attribute change succeeded: no other manager is running.
    Ready,
    /// The server answered with an access error: another window
    /// manager already owns the redirect, fatal at startup.
    AnotherWmRunning,
    /// The server answered with some other error.
    OtherError,
}

/// Classify the reply to the substructure-redirect request: no error
/// means the manager may take over; an access error means another
/// manager is running; anything else is reported as an ordinary error.
pub fn classify_startup_reply(error_code: Option<u8>) -> (r: StartupCheck)
    ensures
        r == (match error_code {
            None => StartupCheck::Ready,
            Some(c) => if c == ACCESS_ERROR_CODE {
                StartupCheck::AnotherWmRunning
            } else {
                StartupCheck::OtherError
            },
        }),
{
    match error_code {
        None => StartupCheck::Ready,
        Some(c) => if c == ACCESS_ERROR_CODE {
            StartupCheck::AnotherWmRunning
        } else {
            StartupCheck::OtherError
        },
    }
}

/// What to do to close a window.
#[derive(Clone, Copy, Debug, PartialEq, Eq, Structural)]
pub enum CloseAction {
    /// Send a client message carrying the delete-window atom and a
    /// current timestamp, giving the client a chance to close itself.
    SendDeleteMessage,
    /// Destroy the window outright.
    Destroy,
}

/// The ICCCM close decision: a window whose declared protocol list
/// advertises the delete-window atom is asked to close itself with a
/// client message and is not destroyed; a window without it is
/// destroyed directly.
pub fn close_action(protocols: &Vec<u32>, delete_atom: u32) -> (r: CloseAction)
    ensures
        (r == CloseAction::SendDeleteMessage) <==> protocols@.contains(delete_atom),
        (r == CloseAction::Destroy) <==> !protocols@.contains(delete_atom),
{
    let n = protocols.len();
    let mut i: usize = 0;
    while i < n
        invariant
            n == protocols@.len(),
            0 <= i <= n,
            forall|j: int| 0 <= j < i ==> protocols@[j] != delete_atom,
        decreases n - i,
    {
        if protocols[i] == delete_atom {
            return CloseAction::SendDeleteMessage;
        }
        i = i + 1;
    }
    CloseAction::Destroy
}

} // verus!
