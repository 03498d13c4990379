//! Suppression of protocol events caused by the manager's own requests.
//!
//! Each request the manager issues that is known to generate a
//! self-caused event (for example the reparent performed while managing
//! a window) has its 16-bit sequence number pushed here.  Every incoming
//! event is then tested: entries whose sequence has already passed are
//! discarded, and an event whose sequence exactly equals the smallest
//! pending entry is suppressed, consuming that entry.  Comparison is
//! wraparound-safe: a distance in the lower half of the 2^16 modular
//! range counts as "not yet passed".

use vstd::prelude::*;

verus! {

/// Modular distance from `seqno` up to `to_ignore` in the 16-bit
/// sequence-number space.
pub open spec fn wrap_distance(to_ignore: u16, seqno: u16) -> int {
    (to_ignore as int - seqno as int) % 0x10000
}

/// A pending entry is still pending (not yet passed) when its modular
/// distance from the incoming sequence number lies in the lower half of
/// the range.
pub open spec fn still_pending(to_ignore: u16, seqno: u16) -> bool {
    wrap_distance(to_ignore, seqno) <= 0x8000
}

/// What one incoming event does to the pending collection: entries that
/// have already passed are discarded from the front; if the first entry
/// still pending equals the event's sequence number, the event is
/// suppressed and that entry is consumed as well.  Returns the new
/// pending collection and whether the event is suppressed.
pub open spec fn process(pending: Seq<u16>, seqno: u16) -> (Seq<u16>, bool)
    decreases pending.len(),
{
    if pending.len() == 0 {
        (pending, false)
    } else if !still_pending(pending[0], seqno) {
        process(pending.drop_first(), seqno)
    } else if pending[0] == seqno {
        (pending.drop_first(), true)
    } else {
        (pending, false)
    }
}

/// Ascending min-ordered collection of sequence numbers to ignore.
pub struct EventSequencer {
    pending: Vec<u16>,
}

impl View for EventSequencer {
    type V = Seq<u16>;

    closed spec fn view(&self) -> Seq<u16> {
        self.pending@
    }
}

impl EventSequencer {
    /// Create an empty sequencer: no request awaits suppression.
    pub fn new() -> (r: EventSequencer)
        ensures
            r@ == Seq::<u16>::empty(),
    {
        EventSequencer { pending: Vec::new() }
    }

    /// Record the sequence number of a request whose self-caused event
    /// must not be reprocessed.
    pub fn push(&mut self, seqno: u16)
        ensures
            final(self)@ == old(self)@.push(seqno),
    {
        self.pending.push(seqno);
    }

    /// Number of entries still awaiting their event.
    pub fn len(&self) -> (r: usize)
        ensures
            r == self@.len(),
    {
        self.pending.len()
    }

    /// Test an incoming event's sequence number: discard entries that
    /// have already passed, and report whether the event is suppressed
    /// (consuming the matching entry when it is).
    pub fn should_ignore(&mut self, seqno: u16) -> (r: bool)
        ensures
            final(self)@ == process(old(self)@, seqno).0,
            r == process(old(self)@, seqno).1,
    {
        loop
            invariant
                process(self@, seqno) == process(old(self)@, seqno),
            decreases self@.len(),
        {
            if self.pending.len() == 0 {
                return false;
            }
            let head = self.pending[0];
            if !is_still_pending(head, seqno) {
                self.pending.remove(0);
            } else if head == seqno {
                self.pending.remove(0);
                return true;
            } else {
                return false;
            }
        }
    }
}

/// Executable form of the half-range comparison.
fn is_still_pending(to_ignore: u16, seqno: u16) -> (r: bool)
    ensures
        r == still_pending(to_ignore, seqno),
{
    let d: u32 = if to_ignore >= seqno {
        (to_ignore - seqno) as u32
    } else {
        0x10000 - (seqno as u32 - to_ignore as u32)
    };
    proof {
        lemma_wrap_distance(to_ignore, seqno, d as int);
    }
    d <= 0x8000
}

/// An event whose sequence number equals no pending entry is never
/// suppressed, whatever entries it causes to be discarded.
pub proof fn lemma_no_match_not_suppressed(pending: Seq<u16>, seqno: u16)
    requires
        forall|j: int| 0 <= j < pending.len() ==> pending[j] != seqno,
    ensures
        !process(pending, seqno).1,
    decreases pending.len(),
{
    if pending.len() > 0 && !still_pending(pending[0], seqno) {
        lemma_no_match_not_suppressed(pending.drop_first(), seqno);
    }
}

/// Entries strictly below the matching one are discarded as already
/// passed, and the matching entry suppresses the event: for a pending
/// collection whose entries arrived in increasing order without
/// wraparound, an event bearing entry `i`'s sequence number is
/// suppressed and leaves exactly the entries after `i`.
pub proof fn lemma_suppressed(pending: Seq<u16>, i: int, seqno: u16)
    requires
        0 <= i < pending.len(),
        forall|j: int, k: int| 0 <= j < k < pending.len() ==> pending[j] < pending[k],
        pending[i] == seqno,
        pending[i] - pending[0] < 0x8000,
    ensures
        process(pending, seqno).1 == true,
        process(pending, seqno).0 =~= pending.skip(i + 1),
    decreases i,
{
    if i == 0 {
        assert(wrap_distance(seqno, seqno) == 0) by {
            vstd::arithmetic::div_mod::lemma_small_mod(0nat, 0x10000nat);
        }
        assert(pending.drop_first() =~= pending.skip(1));
    } else {
        // The head arrived before the matching entry and has passed.
        let x = pending[0] as int - seqno as int;
        assert(0 < seqno - pending[0] < 0x8000);
        assert(x % 0x10000 == x + 0x10000) by {
            vstd::arithmetic::div_mod::lemma_mod_add_multiples_vanish(x, 0x10000);
            vstd::arithmetic::div_mod::lemma_small_mod((x + 0x10000) as nat, 0x10000nat);
        }
        assert(!still_pending(pending[0], seqno));
        let rest = pending.drop_first();
        assert(forall|j: int, k: int|
            0 <= j < k < rest.len() ==> rest[j] < rest[k]) by {
            assert(forall|j: int| 0 <= j < rest.len() ==> rest[j] == pending[j + 1]);
        }
        lemma_suppressed(rest, i - 1, seqno);
        assert(rest.skip(i) =~= pending.skip(i + 1));
    }
}

/// The law of single suppression: with entries pushed in increasing
/// arrival order and no wraparound, an event bearing a pending sequence
/// number is suppressed exactly once — the suppression consumes the
/// entry, and a second event with the same number is not suppressed.
pub proof fn lemma_suppressed_exactly_once(pending: Seq<u16>, i: int, seqno: u16)
    requires
        0 <= i < pending.len(),
        forall|j: int, k: int| 0 <= j < k < pending.len() ==> pending[j] < pending[k],
        pending[i] == seqno,
        pending[i] - pending[0] < 0x8000,
    ensures
        process(pending, seqno).1 == true,
        !process(process(pending, seqno).0, seqno).1,
{
    lemma_suppressed(pending, i, seqno);
    let rest = process(pending, seqno).0;
    assert(forall|j: int| 0 <= j < rest.len() ==> rest[j] == pending[i + 1 + j]);
    assert(forall|j: int| 0 <= j < rest.len() ==> rest[j] != seqno);
    lemma_no_match_not_suppressed(rest, seqno);
}

/// The branch-computed distance agrees with the modular definition.
proof fn lemma_wrap_distance(to_ignore: u16, seqno: u16, d: int)
    requires
        d == if to_ignore >= seqno {
            to_ignore - seqno
        } else {
            0x10000 - (seqno - to_ignore)
        },
    ensures
        d == wrap_distance(to_ignore, seqno),
{
    let x = to_ignore as int - seqno as int;
    if to_ignore >= seqno {
        assert(x % 0x10000 == x) by {
            vstd::arithmetic::div_mod::lemma_small_mod(x as nat, 0x10000nat);
        }
    } else {
        assert((x + 0x10000) % 0x10000 == x % 0x10000) by {
            vstd::arithmetic::div_mod::lemma_mod_add_multiples_vanish(x, 0x10000);
        }
        assert((x + 0x10000) % 0x10000 == x + 0x10000) by {
            vstd::arithmetic::div_mod::lemma_small_mod((x + 0x10000) as nat, 0x10000nat);
        }
    }
}

} // verus!
