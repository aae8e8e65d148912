//! Shared ownership of a native handle: the sharing group.
//!
//! A native handle may be referenced by several ownership tokens at once — a
//! context held by several threads, or by a context value and the sessions
//! derived from it. The handle must be released exactly once, by whoever
//! drops the last token. This module is the bookkeeping of one such group:
//! how many tokens currently refer to the handle and whether it has been
//! released. The glue that owns the raw handle performs every transition
//! under the handle's lock, so a check-and-free can never race a clone.

use vstd::prelude::*;

verus! {

/// The state of one sharing group.
pub struct SharingGroup {
    holders: u64,
    released: bool,
}

impl SharingGroup {
    /// How many ownership tokens currently refer to the handle.
    pub closed spec fn spec_holders(self) -> u64 {
        self.holders
    }

    /// Whether the native handle has been released.
    pub closed spec fn spec_released(self) -> bool {
        self.released
    }

    /// A group is live while at least one token refers to a handle that has
    /// not been released. Every operation on the handle, and every transition
    /// here, demands a live group.
    pub open spec fn is_live(self) -> bool {
        self.spec_holders() >= 1 && !self.spec_released()
    }

    /// The group after one more token joins.
    pub closed spec fn spec_after_clone(self) -> SharingGroup {
        SharingGroup { holders: (self.holders + 1) as u64, released: self.released }
    }

    /// Whether dropping one token now would release the handle: it is the
    /// last token of the group.
    pub open spec fn spec_drop_frees(self) -> bool {
        self.spec_holders() == 1
    }

    /// The group after one token leaves. The handle is released exactly when
    /// that token was the last one.
    pub closed spec fn spec_after_drop(self) -> SharingGroup {
        SharingGroup { holders: (self.holders - 1) as u64, released: self.holders == 1 }
    }

    /// Returns how many ownership tokens currently refer to the handle.
    pub fn holders(&self) -> (n: u64)
        ensures
            n == self.spec_holders(),
    {
        self.holders
    }

    /// Returns whether the native handle has been released.
    pub fn released(&self) -> (b: bool)
        ensures
            b == self.spec_released(),
    {
        self.released
    }

    /// Takes ownership of a freshly created native handle: a group of one
    /// token, nothing released yet.
    pub fn acquire() -> (g: SharingGroup)
        ensures
            g.spec_holders() == 1,
            !g.spec_released(),
            g.is_live(),
    {
        SharingGroup { holders: 1, released: false }
    }

    /// Records one more token joining the group.
    pub fn clone_token(&mut self)
        requires
            old(self).is_live(),
            old(self).spec_holders() < u64::MAX,
        ensures
            *final(self) == old(self).spec_after_clone(),
            final(self).spec_holders() == old(self).spec_holders() + 1,
            !final(self).spec_released(),
            final(self).is_live(),
    {
        self.holders = self.holders + 1;
    }

    /// Records one token leaving the group; says whether the native handle
    /// must be released now, which holds exactly when that token was the last.
    pub fn drop_token(&mut self) -> (freed: bool)
        requires
            old(self).is_live(),
        ensures
            *final(self) == old(self).spec_after_drop(),
            final(self).spec_holders() == old(self).spec_holders() - 1,
            freed == old(self).spec_drop_frees(),
            final(self).spec_released() == freed,
    {
        self.holders = self.holders - 1;
        let was_last = self.holders == 0;
        self.released = was_last;
        was_last
    }
}

/// The group after `k` tokens have left it, one by one.
pub open spec fn spec_after_drops(g: SharingGroup, k: nat) -> SharingGroup
    decreases k,
{
    if k == 0 {
        g
    } else {
        spec_after_drops(g, (k - 1) as nat).spec_after_drop()
    }
}

/// While fewer tokens have left than the group held, the count falls one per
/// drop and nothing has been released.
proof fn lemma_drops_stay_live(g: SharingGroup, i: nat)
    requires
        g.is_live(),
        i < g.spec_holders(),
    ensures
        spec_after_drops(g, i).spec_holders() == g.spec_holders() - i,
        !spec_after_drops(g, i).spec_released(),
    decreases i,
{
    if i > 0 {
        lemma_drops_stay_live(g, (i - 1) as nat);
    }
}

/// Law: draining a sharing group releases the native handle exactly once.
/// Of the `n` drops that remove a group's `n` tokens, the `j`-th finds the
/// group live and frees the handle if and only if it is the last.
pub proof fn lemma_release_exactly_once(g: SharingGroup, n: u64, j: u64)
    requires
        g.is_live(),
        g.spec_holders() == n,
        1 <= j <= n,
    ensures
        spec_after_drops(g, (j - 1) as nat).is_live(),
        spec_after_drops(g, (j - 1) as nat).spec_drop_frees() <==> j == n,
{
    lemma_drops_stay_live(g, (j - 1) as nat);
}

/// Law: a session's token keeps its context alive. With one token held by a
/// session, dropping every other token of the context's group — however many
/// the application held — leaves the group live and the handle unreleased;
/// only dropping the session's own token then frees it.
pub proof fn lemma_session_keeps_context_alive(g: SharingGroup, others: u64)
    requires
        g.is_live(),
        g.spec_holders() == others + 1,
    ensures
        spec_after_drops(g, others as nat).is_live(),
        !spec_after_drops(g, others as nat).spec_released(),
        spec_after_drops(g, others as nat).spec_drop_frees(),
{
    lemma_drops_stay_live(g, others as nat);
}

/// Law: a token joining and then leaving returns the group to its prior
/// state and releases nothing: sharing a handle and letting go of it is
/// invisible to the remaining owners.
pub proof fn lemma_clone_then_drop(g: SharingGroup)
    requires
        g.is_live(),
        g.spec_holders() < u64::MAX,
    ensures
        g.spec_after_clone().spec_after_drop() == g,
        !g.spec_after_clone().spec_drop_frees(),
{
}

/// One recorded transition of a sharing group: a token joining (a clone) or
/// leaving (a drop).
pub enum TokenEvent {
    /// A token joined the group.
    Join,
    /// A token left the group.
    Leave,
}

/// The group after one event.
pub open spec fn spec_apply(g: SharingGroup, e: TokenEvent) -> SharingGroup {
    match e {
        TokenEvent::Join => g.spec_after_clone(),
        TokenEvent::Leave => g.spec_after_drop(),
    }
}

/// The group after a whole trace of events, applied in order.
pub open spec fn spec_run(g: SharingGroup, events: Seq<TokenEvent>) -> SharingGroup
    decreases events.len(),
{
    if events.len() == 0 {
        g
    } else {
        spec_run(spec_apply(g, events[0]), events.drop_first())
    }
}

/// A trace is admissible from `g` when every event finds the group live —
/// no token is cloned or dropped after the handle was released — and a join
/// finds room in the count.
pub open spec fn spec_admissible(g: SharingGroup, events: Seq<TokenEvent>) -> bool
    decreases events.len(),
{
    events.len() == 0 || {
        &&& g.is_live()
        &&& (events[0] is Join ==> g.spec_holders() < u64::MAX)
        &&& spec_admissible(spec_apply(g, events[0]), events.drop_first())
    }
}

/// How many events of a trace release the handle.
pub open spec fn spec_frees(g: SharingGroup, events: Seq<TokenEvent>) -> nat
    decreases events.len(),
{
    if events.len() == 0 {
        0
    } else {
        (if events[0] is Leave && g.spec_drop_frees() {
            1nat
        } else {
            0nat
        }) + spec_frees(spec_apply(g, events[0]), events.drop_first())
    }
}

/// Law: along any admissible trace of clones and drops from a live group,
/// the native handle is released at most once, and it is released exactly
/// once if and only if the trace ends with the handle released — a drained
/// group. No admissible interleaving of owners can double-free, and none can
/// leak the release once the last token is gone.
pub proof fn lemma_trace_releases_exactly_once(g: SharingGroup, events: Seq<TokenEvent>)
    requires
        g.is_live(),
        spec_admissible(g, events),
    ensures
        spec_frees(g, events) <= 1,
        spec_frees(g, events) == 1 <==> spec_run(g, events).spec_released(),
    decreases events.len(),
{
    reveal_with_fuel(spec_admissible, 2);
    reveal_with_fuel(spec_frees, 2);
    reveal_with_fuel(spec_run, 2);
    if events.len() > 0 {
        let g2 = spec_apply(g, events[0]);
        let rest = events.drop_first();
        if events[0] is Leave && g.spec_drop_frees() {
            // The handle is released here; the group is no longer live, so an
            // admissible trace has nothing after this event.
            assert(!g2.is_live());
            assert(rest.len() == 0);
            assert(spec_run(g, events) == g2);
        } else {
            assert(g2.is_live());
            lemma_trace_releases_exactly_once(g2, rest);
        }
    }
}

} // verus!
