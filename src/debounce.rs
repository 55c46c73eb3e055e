//! The per-control debounce filter.
use vstd::prelude::*;

verus! {

/// Ticks (microseconds) that a changed reading must persist before it is trusted.
pub const SETTLE_TICKS: u64 = 8000;

/// The deadline armed by a transition first seen at `now`; it saturates at the
/// top of the clock.
pub open spec fn deadline_after(now: u64) -> u64 {
    if now as int + SETTLE_TICKS as int <= u64::MAX as int {
        (now + SETTLE_TICKS) as u64
    } else {
        u64::MAX
    }
}

/// Debounce state of one control.
#[derive(Clone, Copy, Debug, PartialEq, Eq, Structural)]
pub struct Debounce {
    /// The value last accepted as settled; `None` until one is.
    pub confirmed: Option<u8>,
    /// Deadline of an in-flight, not yet confirmed transition.
    pub pending: Option<u64>,
}

impl Debounce {
    /// Whether a definite reading `raw` taken at `now` lets the control report.
    pub open spec fn admits(self, raw: u8, now: u64) -> bool {
        self.confirmed == Some(raw) || match self.pending {
            None => false,
            Some(d) => d <= now,
        }
    }

    /// The state after a definite reading `raw` taken at `now`.
    pub open spec fn after(self, raw: u8, now: u64) -> Debounce {
        if self.confirmed == Some(raw) {
            Debounce { confirmed: self.confirmed, pending: None }
        } else {
            match self.pending {
                None => Debounce { confirmed: self.confirmed, pending: Some(deadline_after(now)) },
                Some(d) => if d <= now {
                    Debounce { confirmed: Some(raw), pending: None }
                } else {
                    self
                },
            }
        }
    }

    /// A control that has never settled.
    pub fn new() -> (r: Debounce)
        ensures
            r.confirmed is None,
            r.pending is None,
    {
        Debounce { confirmed: None, pending: None }
    }

    /// Feeds one definite reading taken at `now`; returns whether the control
    /// may report this tick (its reading is settled or has just been accepted).
    pub fn observe(&mut self, raw: u8, now: u64) -> (admitted: bool)
        ensures
            admitted == old(self).admits(raw, now),
            *final(self) == old(self).after(raw, now),
    {
        if self.confirmed == Some(raw) {
            self.pending = None;
            true
        } else {
            match self.pending {
                None => {
                    self.pending = Some(now.saturating_add(SETTLE_TICKS));
                    false
                },
                Some(d) => {
                    if d <= now {
                        self.confirmed = Some(raw);
                        self.pending = None;
                        true
                    } else {
                        false
                    }
                },
            }
        }
    }
}

/// The state after feeding `samples`, each a definite reading and its tick,
/// in order.
pub open spec fn run(d: Debounce, samples: Seq<(u8, u64)>) -> Debounce
    decreases samples.len(),
{
    if samples.len() == 0 {
        d
    } else {
        run(d, samples.drop_last()).after(samples.last().0, samples.last().1)
    }
}

/// Whether every sample was taken in the settle window that opens at `t0`.
pub open spec fn within_settle(samples: Seq<(u8, u64)>, t0: u64) -> bool {
    forall|k: int|
        0 <= k < samples.len() ==> t0 <= (#[trigger] samples[k]).1 && samples[k].1 < t0
            + SETTLE_TICKS
}

proof fn lemma_window_keeps_confirmed(d: Debounce, samples: Seq<(u8, u64)>, t0: u64)
    requires
        d.pending is None,
        t0 + SETTLE_TICKS <= u64::MAX,
        within_settle(samples, t0),
    ensures
        run(d, samples).confirmed == d.confirmed,
        run(d, samples).pending matches Some(p) ==> p >= t0 + SETTLE_TICKS,
    decreases samples.len(),
{
    if samples.len() > 0 {
        let init = samples.drop_last();
        assert forall|k: int| 0 <= k < init.len() implies t0 <= (#[trigger] init[k]).1 && init[k].1
            < t0 + SETTLE_TICKS by {
            assert(init[k] == samples[k]);
        }
        lemma_window_keeps_confirmed(d, init, t0);
        assert(samples.last() == samples[samples.len() - 1]);
    }
}

/// A transition first seen with no deadline pending is not confirmed while
/// the samples stay inside the settle window opened by the first of them:
/// the confirmed value is the original one after every prefix of them.
pub proof fn lemma_no_change_before_settle(d: Debounce, samples: Seq<(u8, u64)>, t0: u64)
    requires
        d.pending is None,
        t0 + SETTLE_TICKS <= u64::MAX,
        within_settle(samples, t0),
    ensures
        forall|k: int|
            0 <= k <= samples.len() ==> (#[trigger] run(d, samples.take(k))).confirmed
                == d.confirmed,
{
    assert forall|k: int| 0 <= k <= samples.len() implies (#[trigger] run(
        d,
        samples.take(k),
    )).confirmed == d.confirmed by {
        let pre = samples.take(k);
        assert forall|m: int| 0 <= m < pre.len() implies t0 <= (#[trigger] pre[m]).1 && pre[m].1
            < t0 + SETTLE_TICKS by {
            assert(pre[m] == samples[m]);
        }
        lemma_window_keeps_confirmed(d, pre, t0);
    }
}

/// A reading that returns to the confirmed value inside the settle window
/// cancels the pending deadline: the confirmed value never moved, and no
/// deadline is left.
pub proof fn lemma_bounce_cancelled(d: Debounce, samples: Seq<(u8, u64)>, t0: u64)
    requires
        d.pending is None,
        t0 + SETTLE_TICKS <= u64::MAX,
        within_settle(samples, t0),
        samples.len() > 0,
        d.confirmed == Some(samples.last().0),
    ensures
        run(d, samples) == (Debounce { confirmed: d.confirmed, pending: None }),
        forall|k: int|
            0 <= k <= samples.len() ==> (#[trigger] run(d, samples.take(k))).confirmed
                == d.confirmed,
{
    lemma_no_change_before_settle(d, samples, t0);
    let init = samples.drop_last();
    assert forall|k: int| 0 <= k < init.len() implies t0 <= (#[trigger] init[k]).1 && init[k].1
        < t0 + SETTLE_TICKS by {
        assert(init[k] == samples[k]);
    }
    lemma_window_keeps_confirmed(d, init, t0);
}

proof fn lemma_held_transition(d: Debounce, samples: Seq<(u8, u64)>, t0: u64, k: int)
    requires
        d.pending is None,
        t0 + SETTLE_TICKS <= u64::MAX,
        1 <= k <= samples.len(),
        samples[0].1 == t0,
        forall|m: int| 0 <= m < k ==> d.confirmed != Some((#[trigger] samples[m]).0),
        forall|m: int| 1 <= m < k ==> (#[trigger] samples[m]).1 < t0 + SETTLE_TICKS,
    ensures
        run(d, samples.take(k)) == (Debounce {
            confirmed: d.confirmed,
            pending: Some((t0 + SETTLE_TICKS) as u64),
        }),
    decreases k,
{
    let pre = samples.take(k);
    assert(pre.drop_last() =~= samples.take(k - 1));
    assert(pre.last() == samples[k - 1]);
    if k == 1 {
        assert(samples.take(0) =~= Seq::<(u8, u64)>::empty());
    } else {
        lemma_held_transition(d, samples, t0, k - 1);
    }
}

/// A transition held against the original confirmed value is confirmed at
/// the first sample taken at or after the settle duration: that sample's
/// value becomes the confirmed one.
pub proof fn lemma_change_after_settle(d: Debounce, samples: Seq<(u8, u64)>, t0: u64)
    requires
        d.pending is None,
        t0 + SETTLE_TICKS <= u64::MAX,
        samples.len() >= 2,
        samples[0].1 == t0,
        forall|m: int| 0 <= m < samples.len() ==> d.confirmed != Some((#[trigger] samples[m]).0),
        forall|m: int|
            1 <= m < samples.len() - 1 ==> (#[trigger] samples[m]).1 < t0 + SETTLE_TICKS,
        samples.last().1 >= t0 + SETTLE_TICKS,
    ensures
        run(d, samples).confirmed == Some(samples.last().0),
{
    let n = samples.len() as int;
    lemma_held_transition(d, samples, t0, n - 1);
    assert(samples.drop_last() =~= samples.take(n - 1));
    assert(samples.last() == samples[n - 1]);
}

} // verus!
