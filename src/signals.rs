use vstd::prelude::*;

verus! {

/// The receiver set after a refresh that fetched `fresh`: replaced wholesale
/// when `fresh` is non-empty, kept as it was otherwise.
pub open spec fn refreshed<R>(current: Seq<R>, fresh: Seq<R>) -> Seq<R> {
    if fresh.len() > 0 {
        fresh
    } else {
        current
    }
}

/// The current set of per-channel signal receivers.
pub struct SignalRegistry<R> {
    receivers: Vec<R>,
}

impl<R> SignalRegistry<R> {
    /// The receivers, in channel order.
    pub closed spec fn view(&self) -> Seq<R> {
        self.receivers@
    }

    /// A registry holding `initial`, which may be empty right after start.
    pub fn new(initial: Vec<R>) -> (r: Self)
        ensures
            r@ == initial@,
    {
        SignalRegistry { receivers: initial }
    }

    /// Number of receivers held.
    pub fn len(&self) -> (r: usize)
        ensures
            r == self@.len(),
    {
        self.receivers.len()
    }

    /// The receivers, for consumers that drain them.
    pub fn receivers(&self) -> (r: &Vec<R>)
        ensures
            r@ == self@,
    {
        &self.receivers
    }

    /// Replaces the set with `fresh` unless `fresh` is empty, in which case the
    /// broadcaster is taken as not yet ready and the current receivers stay.
    /// Returns whether the set was replaced.
    pub fn replace_if_non_empty(&mut self, fresh: Vec<R>) -> (replaced: bool)
        ensures
            replaced == (fresh@.len() > 0),
            final(self)@ == refreshed(old(self)@, fresh@),
    {
        if fresh.len() != 0 {
            self.receivers = fresh;
            true
        } else {
            false
        }
    }
}

/// A refresh that fetched no receivers leaves every current receiver in place,
/// so subscribers never see the set spuriously emptied.
pub proof fn lemma_empty_refresh_keeps_receivers<R>(current: Seq<R>, fresh: Seq<R>)
    requires
        fresh.len() == 0,
    ensures
        refreshed(current, fresh) == current,
{
}

/// After any refresh the set is non-empty whenever it was non-empty before.
pub proof fn lemma_refresh_never_empties<R>(current: Seq<R>, fresh: Seq<R>)
    requires
        current.len() > 0,
    ensures
        refreshed(current, fresh).len() > 0,
{
}

} // verus!
