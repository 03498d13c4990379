//! Monitors and the lookup that resolves a name or alias to one.
//!
//! A monitor carries a unique primary name, an optional alias and its
//! ordered desktops.  `Monitors::find_by_name` scans in order and
//! returns the first monitor answering to the queried name, whether by
//! primary name or by alias; aliasing never revokes the primary name.

use vstd::prelude::*;

use crate::desktop::{fresh_desktop, Desktop, DesktopMode};
use crate::kvstore::KvStore;
use crate::text::str_eq;

verus! {

/// A physical or logical display output.
pub struct Monitor {
    /// Primary name, fixed at creation.
    pub name: String,
    /// Optional alias; set by the monitor command, unique among
    /// names and aliases system-wide.
    pub alias: Option<String>,
    /// Ordered desktops of this monitor.
    pub desktops: Vec<Desktop>,
    /// Configuration keys scoped to this monitor.
    pub config: KvStore,
}

/// Whether a monitor answers to `name`, by primary name or by alias.
pub open spec fn answers_to(m: Monitor, name: Seq<char>) -> bool {
    ||| m.name@ == name
    ||| match m.alias {
        Some(a) => a@ == name,
        None => false,
    }
}

/// Index of the first monitor answering to `name`, if any.
pub open spec fn find_index(ms: Seq<Monitor>, name: Seq<char>) -> Option<int>
    decreases ms.len(),
{
    if ms.len() == 0 {
        None
    } else if answers_to(ms[0], name) {
        Some(0int)
    } else {
        match find_index(ms.drop_first(), name) {
            Some(i) => Some(i + 1),
            None => None,
        }
    }
}

impl Monitor {
    /// Create a monitor with the given primary name, no alias, and one
    /// default tiling desktop.
    pub fn new(name: String) -> (r: Monitor)
        ensures
            r.name@ == name@,
            r.alias is None,
            r.desktops@.len() == 1,
            fresh_desktop(r.desktops@[0], DesktopMode::Tile),
            r.config@.len() == 0,
    {
        let mut monitor = Monitor { name, alias: None, desktops: Vec::new(), config: KvStore::new() };
        monitor.add_desktop(DesktopMode::Tile);
        monitor
    }

    /// Add a new desktop with the given mode at the end of the order.
    pub fn add_desktop(&mut self, mode: DesktopMode)
        ensures
            final(self).name == old(self).name,
            final(self).alias == old(self).alias,
            final(self).config == old(self).config,
            final(self).desktops@.len() == old(self).desktops@.len() + 1,
            final(self).desktops@.drop_last() =~= old(self).desktops@,
            fresh_desktop(final(self).desktops@.last(), mode),
    {
        self.desktops.push(Desktop::new(mode));
    }

    /// Alias the monitor.  The primary name is kept.
    pub fn set_alias(&mut self, alias: &str)
        ensures
            final(self).name == old(self).name,
            final(self).desktops == old(self).desktops,
            final(self).config == old(self).config,
            final(self).alias is Some,
            final(self).alias->0@ == alias@,
    {
        self.alias = Some(alias.to_owned());
    }
}

/// Whether a monitor answers to the queried name, executable form.
fn monitor_answers(m: &Monitor, name: &str) -> (r: bool)
    ensures
        r == answers_to(*m, name@),
{
    if str_eq(m.name.as_str(), name) {
        return true;
    }
    match &m.alias {
        Some(a) => str_eq(a.as_str(), name),
        None => false,
    }
}

/// All monitors managed by the window manager, in creation order.
pub struct Monitors(pub Vec<Monitor>);

impl View for Monitors {
    type V = Seq<Monitor>;

    open spec fn view(&self) -> Seq<Monitor> {
        self.0@
    }
}

impl Monitors {
    /// Create an empty list of monitors.
    pub fn new() -> (r: Monitors)
        ensures
            r@.len() == 0,
    {
        Monitors(Vec::new())
    }

    /// Add a new monitor at the end of the order.
    pub fn add_monitor(&mut self, monitor: Monitor)
        ensures
            final(self)@ == old(self)@.push(monitor),
    {
        self.0.push(monitor);
    }

    /// Find the first monitor answering to `name`, by primary name or
    /// by alias; none when no monitor answers.
    pub fn find_by_name(&mut self, name: &str) -> (r: Option<&mut Monitor>)
        ensures
            match r {
                Some(m) => {
                    &&& find_index(old(self)@, name@) is Some
                    &&& 0 <= find_index(old(self)@, name@)->0 < old(self)@.len()
                    &&& *m == old(self)@[find_index(old(self)@, name@)->0]
                    &&& final(self)@ == old(self)@.update(
                        find_index(old(self)@, name@)->0,
                        *final(m),
                    )
                },
                None => {
                    &&& find_index(old(self)@, name@) is None
                    &&& *final(self) == *old(self)
                },
            },
    {
        let n = self.0.len();
        let mut i: usize = 0;
        while i < n
            invariant
                *self == *old(self),
                n == self.0@.len(),
                0 <= i <= n,
                forall|j: int| 0 <= j < i ==> !answers_to(self.0@[j], name@),
            decreases n - i,
        {
            if monitor_answers(&self.0[i], name) {
                proof {
                    lemma_first_match_found(self.0@, name@, i as int);
                }
                return Some(&mut self.0[i]);
            }
            i = i + 1;
        }
        proof {
            lemma_find_index_characterizes(self.0@, name@);
        }
        None
    }
}

/// `find_index` finds the first answering monitor and nothing else: a
/// found index answers to the name and no earlier one does; none found
/// means no monitor answers.
pub proof fn lemma_find_index_characterizes(ms: Seq<Monitor>, name: Seq<char>)
    ensures
        match find_index(ms, name) {
            Some(i) => {
                &&& 0 <= i < ms.len()
                &&& answers_to(ms[i], name)
                &&& forall|j: int| 0 <= j < i ==> !answers_to(ms[j], name)
            },
            None => forall|j: int| 0 <= j < ms.len() ==> !answers_to(ms[j], name),
        },
    decreases ms.len(),
{
    if ms.len() > 0 && !answers_to(ms[0], name) {
        let rest = ms.drop_first();
        lemma_find_index_characterizes(rest, name);
        match find_index(rest, name) {
            Some(i) => {
                assert(ms[i + 1] == rest[i]);
                assert forall|j: int| 0 <= j < i + 1 implies !answers_to(ms[j], name) by {
                    if j > 0 {
                        assert(ms[j] == rest[j - 1]);
                    }
                }
            },
            None => {
                assert forall|j: int| 0 <= j < ms.len() implies !answers_to(ms[j], name) by {
                    if j > 0 {
                        assert(ms[j] == rest[j - 1]);
                    }
                }
            },
        }
    }
}

/// The first answering monitor is the one found.
pub proof fn lemma_first_match_found(ms: Seq<Monitor>, name: Seq<char>, i: int)
    requires
        0 <= i < ms.len(),
        answers_to(ms[i], name),
        forall|j: int| 0 <= j < i ==> !answers_to(ms[j], name),
    ensures
        find_index(ms, name) == Some(i),
    decreases i,
{
    if i > 0 {
        let rest = ms.drop_first();
        assert(forall|j: int| 0 <= j < rest.len() ==> rest[j] == ms[j + 1]);
        lemma_first_match_found(rest, name, i - 1);
    }
}

/// A monitor is found at its position whether queried by its primary
/// name or by its current alias, provided no earlier monitor answers to
/// either query.
pub proof fn lemma_found_by_name_and_alias(ms: Seq<Monitor>, i: int, alias: Seq<char>)
    requires
        0 <= i < ms.len(),
        ms[i].alias is Some,
        ms[i].alias->0@ == alias,
        forall|j: int| 0 <= j < i ==> !answers_to(ms[j], ms[i].name@),
        forall|j: int| 0 <= j < i ==> !answers_to(ms[j], alias),
    ensures
        find_index(ms, ms[i].name@) == Some(i),
        find_index(ms, alias) == Some(i),
{
    lemma_first_match_found(ms, ms[i].name@, i);
    lemma_first_match_found(ms, alias, i);
}

/// An unknown name finds no monitor.
pub proof fn lemma_unknown_name_finds_none(ms: Seq<Monitor>, name: Seq<char>)
    requires
        forall|j: int| 0 <= j < ms.len() ==> !answers_to(ms[j], name),
    ensures
        find_index(ms, name) is None,
{
    lemma_find_index_characterizes(ms, name);
    if find_index(ms, name) is Some {
        assert(answers_to(ms[find_index(ms, name)->0], name));
    }
}

/// Aliasing does not revoke a name: a monitor found by some name is
/// still found there after it is replaced by one that also answers to
/// that name — as `set_alias` leaves it, the primary name being kept.
pub proof fn lemma_alias_keeps_name(ms: Seq<Monitor>, i: int, m2: Monitor, name: Seq<char>)
    requires
        find_index(ms, name) == Some(i),
        answers_to(m2, name),
    ensures
        find_index(ms.update(i, m2), name) == Some(i),
{
    lemma_find_index_characterizes(ms, name);
    let ms2 = ms.update(i, m2);
    assert(forall|j: int| 0 <= j < i ==> ms2[j] == ms[j]);
    lemma_first_match_found(ms2, name, i);
}

} // verus!
