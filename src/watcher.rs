//! The change flag between the file watcher and the frame loop. The watcher
//! raises it whenever its debouncer reports that the plugin image changed;
//! the frame loop reads and clears it once per frame.
use vstd::prelude::*;

verus! {

/// One thing that happens to the flag.
pub enum FlagEvent {
    /// The watcher reported a change.
    Raised,
    /// The frame loop read and cleared the flag.
    Polled,
}

/// What the polls among `events` return, in order, from a flag that starts
/// out as `pending`.
pub open spec fn poll_results(pending: bool, events: Seq<FlagEvent>) -> Seq<bool>
    decreases events.len(),
{
    if events.len() == 0 {
        Seq::empty()
    } else {
        match events[0] {
            FlagEvent::Raised => poll_results(true, events.drop_first()),
            FlagEvent::Polled => seq![pending] + poll_results(false, events.drop_first()),
        }
    }
}

/// `n` change reports in a row.
pub open spec fn raises(n: nat) -> Seq<FlagEvent>
    decreases n,
{
    if n == 0 {
        Seq::empty()
    } else {
        seq![FlagEvent::Raised] + raises((n - 1) as nat)
    }
}

/// `n` polls in a row.
pub open spec fn polls(n: nat) -> Seq<FlagEvent>
    decreases n,
{
    if n == 0 {
        Seq::empty()
    } else {
        seq![FlagEvent::Polled] + polls((n - 1) as nat)
    }
}

/// `n` change reports, each one read by a poll before the next arrives.
pub open spec fn spaced_raises(n: nat) -> Seq<FlagEvent>
    decreases n,
{
    if n == 0 {
        Seq::empty()
    } else {
        seq![FlagEvent::Raised, FlagEvent::Polled] + spaced_raises((n - 1) as nat)
    }
}

/// A pending-change flag with read-and-clear semantics.
pub struct ChangeFlag {
    pending: bool,
}

impl View for ChangeFlag {
    type V = bool;

    closed spec fn view(&self) -> bool {
        self.pending
    }
}

impl ChangeFlag {
    pub fn new() -> (r: ChangeFlag)
        ensures
            r@ == false,
    {
        ChangeFlag { pending: false }
    }

    /// Records that the plugin image changed.
    pub fn raise(&mut self)
        ensures
            final(self)@ == true,
    {
        self.pending = true;
    }

    /// Whether a change was recorded since the last poll; clears the flag.
    pub fn poll_and_clear(&mut self) -> (r: bool)
        ensures
            r == old(self)@,
            final(self)@ == false,
    {
        let r = self.pending;
        self.pending = false;
        r
    }

    pub fn is_pending(&self) -> (r: bool)
        ensures
            r == self@,
    {
        self.pending
    }
}

proof fn lemma_raises_then(pending: bool, n: nat, rest: Seq<FlagEvent>)
    ensures
        poll_results(pending, raises(n) + rest) == poll_results(
            if n > 0 {
                true
            } else {
                pending
            },
            rest,
        ),
    decreases n,
{
    if n == 0 {
        assert(raises(n) + rest =~= rest);
    } else {
        let events = raises(n) + rest;
        assert(events.drop_first() =~= raises((n - 1) as nat) + rest);
        lemma_raises_then(true, (n - 1) as nat, rest);
    }
}

proof fn lemma_polls_cleared(n: nat)
    ensures
        poll_results(false, polls(n)) == Seq::new(n, |i: int| false),
    decreases n,
{
    if n == 0 {
        assert(poll_results(false, polls(n)) =~= Seq::new(n, |i: int| false));
    } else {
        assert(polls(n).drop_first() =~= polls((n - 1) as nat));
        lemma_polls_cleared((n - 1) as nat);
        assert(poll_results(false, polls(n)) =~= Seq::new(n, |i: int| false));
    }
}

/// Any number of change reports that arrive between two polls give exactly
/// one `true`: the first poll after them returns `true`, every later poll
/// `false`.
pub proof fn lemma_changes_coalesce(pending: bool, n: nat, k: nat)
    requires
        n >= 1,
        k >= 1,
    ensures
        poll_results(pending, raises(n) + polls(k)) == seq![true] + Seq::new(
            (k - 1) as nat,
            |i: int| false,
        ),
{
    lemma_raises_then(pending, n, polls(k));
    assert(polls(k).drop_first() =~= polls((k - 1) as nat));
    lemma_polls_cleared((k - 1) as nat);
}

/// Change reports that are each read before the next arrives give one `true`
/// apiece.
pub proof fn lemma_spaced_changes_signal_each(pending: bool, n: nat)
    ensures
        poll_results(pending, spaced_raises(n)) == Seq::new(n, |i: int| true),
    decreases n,
{
    if n == 0 {
        assert(poll_results(pending, spaced_raises(n)) =~= Seq::new(n, |i: int| true));
    } else {
        let events = spaced_raises(n);
        assert(events.drop_first().drop_first() =~= spaced_raises((n - 1) as nat));
        lemma_spaced_changes_signal_each(false, (n - 1) as nat);
        assert(events[0] == FlagEvent::Raised);
        assert(events.drop_first()[0] == FlagEvent::Polled);
        assert(poll_results(pending, events) == poll_results(true, events.drop_first()));
        assert(poll_results(true, events.drop_first()) == seq![true] + poll_results(
            false,
            events.drop_first().drop_first(),
        ));
        assert(poll_results(pending, spaced_raises(n)) =~= Seq::new(n, |i: int| true));
    }
}

} // verus!
