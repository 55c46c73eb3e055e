//! The panel: its controls, their debounce state, the annunciator, and the
//! per-tick pass that decides what is reported.
use vstd::arithmetic::div_mod::{lemma_hoist_over_denominator, lemma_mod_multiples_vanish, lemma_fundamental_div_mod, lemma_small_mod};
use vstd::prelude::*;

use crate::annunciator::{blink_phase, Annunciator, OFF_VALUE, TEST_VALUE};
use crate::control::Control;
use crate::debounce::{deadline_after, Debounce};
use crate::protocol::{decode_command, spec_decode, Command};

verus! {

/// Ticks in each resync slot (ten seconds).
pub const SLOT_TICKS: u64 = 10000000;

/// The control whose resync slot contains `now`, for a panel of `n` controls.
pub open spec fn slot_of(now: int, n: int) -> int {
    (now / (SLOT_TICKS as int)) % n
}

/// The resync slot of `now` for a panel of `n` controls.
pub fn slot_index(now: u64, n: usize) -> (r: usize)
    requires
        n > 0,
    ensures
        r as int == slot_of(now as int, n as int),
        r < n,
{
    ((now / SLOT_TICKS) % (n as u64)) as usize
}

/// One report to send: control `control` has value `value`.
#[derive(Clone, Copy, Debug, PartialEq, Eq, Structural)]
pub struct Report {
    pub control: usize,
    pub value: u8,
}

/// Whether a control's resync slot is entered at this pass: the slot is its
/// own and the previous pass was in another slot.
pub open spec fn resync_due(last: Option<usize>, slot: int, j: int) -> bool {
    j == slot && match last {
        Some(s) => s as int != slot,
        None => true,
    }
}

/// The filter of a control after a pass with reading `r`; an indefinite
/// reading leaves it as it was.
pub open spec fn filter_next(f: Debounce, r: Option<u8>, now: u64) -> Debounce {
    match r {
        Some(v) => f.after(v, now),
        None => f,
    }
}

/// Whether the confirmed value of a control changes at this pass.
pub open spec fn changes(f: Debounce, r: Option<u8>, now: u64) -> bool {
    match r {
        Some(v) => f.admits(v, now) && f.confirmed != Some(v),
        None => false,
    }
}

/// Whether a control reports at this pass: its reading is definite and
/// admitted, and either its value changes or its resync slot is entered.
pub open spec fn reports(f: Debounce, r: Option<u8>, now: u64, due: bool) -> bool {
    match r {
        Some(v) => f.admits(v, now) && (f.confirmed != Some(v) || due),
        None => false,
    }
}

/// The reports of the first `k` controls at a pass, in control order.
pub open spec fn reports_upto(
    filters: Seq<Debounce>,
    readings: Seq<Option<u8>>,
    now: u64,
    last: Option<usize>,
    slot: int,
    k: int,
) -> Seq<Report>
    decreases k,
{
    if k <= 0 {
        seq![]
    } else {
        let prev = reports_upto(filters, readings, now, last, slot, k - 1);
        let j = k - 1;
        if reports(filters[j], readings[j], now, resync_due(last, slot, j)) {
            prev.push(Report { control: j as usize, value: readings[j].unwrap() })
        } else {
            prev
        }
    }
}

/// Whether a debounce state shows its control as on.
pub open spec fn shows_active(f: Debounce) -> bool {
    match f.confirmed {
        Some(v) => v != OFF_VALUE,
        None => false,
    }
}

/// What a pass hands back: the reports to send, in order, and the two
/// indicators.
#[derive(Debug)]
pub struct PassOutcome {
    pub reports: Vec<Report>,
    /// The standby annunciator's indicator.
    pub standby_lit: bool,
    /// The general indicator: some control is on, or the annunciator blinks lit.
    pub activity_lit: bool,
}

/// The whole panel state owned by the poll loop.
#[derive(Debug)]
pub struct Panel {
    pub controls: Vec<Control>,
    /// Debounce state of each control, by index.
    pub filters: Vec<Debounce>,
    pub annunciator: Annunciator,
    /// Index of the control whose test value makes the annunciator blink.
    pub test_control: usize,
    /// Resync slot of the last pass.
    pub last_slot: Option<usize>,
}

impl Panel {
    /// The panel is well formed: one filter per control, at least one control,
    /// the test control among them, and the annunciator blinks only while the
    /// test control stands confirmed on its test value.
    pub open spec fn wf(&self) -> bool {
        &&& self.filters@.len() == self.controls@.len()
        &&& self.controls@.len() > 0
        &&& self.test_control < self.controls@.len()
        &&& self.annunciator == Annunciator::AutoBlink ==> self.filters@[self.test_control as int].confirmed
            == Some(TEST_VALUE)
    }

    /// The annunciator after a pass with these readings.
    pub open spec fn annunciator_after(&self, readings: Seq<Option<u8>>, now: u64) -> Annunciator {
        let t = self.test_control as int;
        if changes(self.filters@[t], readings[t], now) {
            self.annunciator.spec_after_test(readings[t].unwrap())
        } else {
            self.annunciator
        }
    }

    /// The reports of a pass with these readings.
    pub open spec fn spec_reports(&self, readings: Seq<Option<u8>>, now: u64) -> Seq<Report> {
        let n = self.controls@.len() as int;
        reports_upto(self.filters@, readings, now, self.last_slot, slot_of(now as int, n), n)
    }

    /// Whether some control stands confirmed on a value other than off.
    pub open spec fn any_active(&self) -> bool {
        exists|j: int| 0 <= j < self.filters@.len() && #[trigger] shows_active(self.filters@[j])
    }

    /// A panel of `controls` whose test control is `test_control`, with
    /// nothing confirmed and the annunciator off; `None` when there are no
    /// controls or the test control is not among them.
    pub fn new(controls: Vec<Control>, test_control: usize) -> (r: Option<Panel>)
        ensures
            r is Some <==> (controls@.len() > 0 && test_control < controls@.len()),
            r matches Some(p) ==> {
                &&& p.wf()
                &&& p.controls == controls
                &&& p.test_control == test_control
                &&& p.annunciator == Annunciator::ForcedOff
                &&& p.last_slot is None
                &&& forall|j: int|
                    0 <= j < p.filters@.len() ==> p.filters@[j] == (Debounce {
                        confirmed: None,
                        pending: None,
                    })
            },
    {
        let n = controls.len();
        if n == 0 || test_control >= n {
            return None;
        }
        let mut filters: Vec<Debounce> = Vec::new();
        let mut i: usize = 0;
        while i < n
            invariant
                i <= n,
                filters@.len() == i,
                forall|j: int|
                    0 <= j < i ==> filters@[j] == (Debounce { confirmed: None, pending: None }),
            decreases n - i,
        {
            filters.push(Debounce::new());
            i = i + 1;
        }
        Some(
            Panel {
                controls,
                filters,
                annunciator: Annunciator::ForcedOff,
                test_control,
                last_slot: None,
            },
        )
    }

    /// Applies one byte from the host and returns the command it stood for.
    /// `!` forces the annunciator on and `.` off; `?` forgets every confirmed
    /// value and forces the annunciator off; other bytes change nothing here.
    /// Sending the banner and rebooting are left to the caller.
    pub fn command(&mut self, byte: u8) -> (effect: Option<Command>)
        requires
            old(self).wf(),
        ensures
            final(self).wf(),
            effect == spec_decode(byte),
            final(self).controls == old(self).controls,
            final(self).test_control == old(self).test_control,
            final(self).last_slot == old(self).last_slot,
            effect == Some(Command::Activate) ==> final(self).annunciator == Annunciator::ForcedOn
                && final(self).filters == old(self).filters,
            effect == Some(Command::Deactivate) ==> final(self).annunciator
                == Annunciator::ForcedOff && final(self).filters == old(self).filters,
            effect == Some(Command::Identify) ==> {
                &&& final(self).annunciator == Annunciator::ForcedOff
                &&& final(self).filters@.len() == old(self).filters@.len()
                &&& forall|j: int|
                    0 <= j < final(self).filters@.len() ==> final(self).filters@[j] == (Debounce {
                        confirmed: None,
                        pending: old(self).filters@[j].pending,
                    })
            },
            effect == Some(Command::Reboot) || effect is None ==> final(self).annunciator
                == old(self).annunciator && final(self).filters == old(self).filters,
    {
        let effect = decode_command(byte);
        match effect {
            Some(Command::Activate) => {
                self.annunciator = Annunciator::ForcedOn;
            },
            Some(Command::Deactivate) => {
                self.annunciator = Annunciator::ForcedOff;
            },
            Some(Command::Identify) => {
                self.annunciator = Annunciator::ForcedOff;
                let n = self.filters.len();
                let mut i: usize = 0;
                while i < n
                    invariant
                        old(self).wf(),
                        self.controls == old(self).controls,
                        self.test_control == old(self).test_control,
                        self.last_slot == old(self).last_slot,
                        self.annunciator == Annunciator::ForcedOff,
                        n == old(self).filters@.len(),
                        i <= n,
                        self.filters@.len() == n,
                        forall|j: int|
                            0 <= j < i ==> self.filters@[j] == (Debounce {
                                confirmed: None,
                                pending: old(self).filters@[j].pending,
                            }),
                        forall|j: int| i <= j < n ==> self.filters@[j] == old(self).filters@[j],
                    decreases n - i,
                {
                    let f = self.filters[i];
                    self.filters.set(i, Debounce { confirmed: None, pending: f.pending });
                    i = i + 1;
                }
            },
            _ => {},
        }
        effect
    }

    /// One debounce-and-report pass over every control, given each control's
    /// reading at `now`. Each filter takes its reading; a control reports
    /// when its confirmed value changes or its resync slot is entered while
    /// its reading is admitted. A change of the test control's confirmed value
    /// drives the annunciator.
    pub fn pass(&mut self, readings: &Vec<Option<u8>>, now: u64) -> (out: PassOutcome)
        requires
            old(self).wf(),
            readings@.len() == old(self).controls@.len(),
        ensures
            final(self).wf(),
            final(self).controls == old(self).controls,
            final(self).test_control == old(self).test_control,
            final(self).last_slot == Some(
                slot_of(now as int, old(self).controls@.len() as int) as usize,
            ),
            final(self).filters@.len() == old(self).filters@.len(),
            forall|j: int|
                0 <= j < final(self).filters@.len() ==> final(self).filters@[j] == filter_next(
                    old(self).filters@[j],
                    readings@[j],
                    now,
                ),
            final(self).annunciator == old(self).annunciator_after(readings@, now),
            out.reports@ == old(self).spec_reports(readings@, now),
            out.standby_lit == final(self).annunciator.spec_lit(now),
            out.activity_lit == (old(self).any_active() || (final(self).annunciator
                == Annunciator::AutoBlink && blink_phase(now))),
    {
        let n = self.controls.len();
        let slot = slot_index(now, n);
        let entered = match self.last_slot {
            Some(s) => s != slot,
            None => true,
        };
        let mut reports: Vec<Report> = Vec::new();
        let mut active = false;
        let mut i: usize = 0;
        while i < n
            invariant
                old(self).wf(),
                n == old(self).controls@.len(),
                readings@.len() == n,
                slot as int == slot_of(now as int, n as int),
                entered == match old(self).last_slot {
                    Some(s) => s != slot,
                    None => true,
                },
                self.controls == old(self).controls,
                self.test_control == old(self).test_control,
                self.last_slot == old(self).last_slot,
                i <= n,
                self.filters@.len() == n,
                forall|j: int|
                    0 <= j < i ==> self.filters@[j] == filter_next(
                        old(self).filters@[j],
                        readings@[j],
                        now,
                    ),
                forall|j: int| i <= j < n ==> self.filters@[j] == old(self).filters@[j],
                self.annunciator == if i > old(self).test_control {
                    old(self).annunciator_after(readings@, now)
                } else {
                    old(self).annunciator
                },
                reports@ == reports_upto(
                    old(self).filters@,
                    readings@,
                    now,
                    old(self).last_slot,
                    slot as int,
                    i as int,
                ),
                active == exists|j: int| 0 <= j < i && #[trigger] shows_active(old(self).filters@[j]),
            decreases n - i,
        {
            let f = self.filters[i];
            let was_active = match f.confirmed {
                Some(v) => v != OFF_VALUE,
                None => false,
            };
            if was_active {
                active = true;
                assert(shows_active(old(self).filters@[i as int]));
            } else {
                assert forall|j: int| 0 <= j < i + 1 && #[trigger] shows_active(old(self).filters@[j]) implies j < i by {}
            }
            match readings[i] {
                None => {},
                Some(v) => {
                    let mut g = f;
                    let admitted = g.observe(v, now);
                    self.filters.set(i, g);
                    if admitted {
                        let changed = match f.confirmed {
                            Some(c) => c != v,
                            None => true,
                        };
                        if changed && i == self.test_control {
                            self.annunciator = self.annunciator.after_test(v);
                        }
                        if changed || (i == slot && entered) {
                            reports.push(Report { control: i, value: v });
                        }
                    }
                },
            }
            i = i + 1;
        }
        self.last_slot = Some(slot);
        let standby_lit = self.annunciator.lit(now);
        let blinking = match self.annunciator {
            Annunciator::AutoBlink => true,
            _ => false,
        };
        PassOutcome { reports, standby_lit, activity_lit: active || (standby_lit && blinking) }
    }
}

proof fn lemma_reports_upto_has(
    filters: Seq<Debounce>,
    readings: Seq<Option<u8>>,
    now: u64,
    last: Option<usize>,
    slot: int,
    k: int,
    j: int,
)
    requires
        0 <= j < k,
        readings[j] is Some,
        reports(filters[j], readings[j], now, resync_due(last, slot, j)),
    ensures
        reports_upto(filters, readings, now, last, slot, k).contains(
            Report { control: j as usize, value: readings[j].unwrap() },
        ),
    decreases k,
{
    let r = Report { control: j as usize, value: readings[j].unwrap() };
    let prev = reports_upto(filters, readings, now, last, slot, k - 1);
    if j == k - 1 {
        assert(prev.push(r)[prev.len() as int] == r);
    } else {
        lemma_reports_upto_has(filters, readings, now, last, slot, k - 1, j);
        let w = choose|w: int| 0 <= w < prev.len() && prev[w] == r;
        assert(prev.push(r)[w] == r);
        let q = Report { control: (k - 1) as usize, value: readings[k - 1].unwrap() };
        assert(prev.push(q)[w] == r);
    }
}

/// Within any stretch of one full resync cycle (the slot duration times the
/// number of controls), every control's slot comes round.
pub proof fn lemma_every_slot_comes_round(t: int, n: int, i: int)
    requires
        t >= 0,
        n > 0,
        0 <= i < n,
    ensures
        exists|u: int| t <= u < t + SLOT_TICKS * n && #[trigger] slot_of(u, n) == i,
{
    let s = SLOT_TICKS as int;
    let k = t / s;
    let q = k % n;
    let m = if i >= q { i - q } else { i - q + n };
    let u = t + m * s;
    lemma_hoist_over_denominator(t, m, s as nat);
    assert(u / s == k + m);
    lemma_fundamental_div_mod(k, n);
    lemma_mod_multiples_vanish(k / n, q + m, n);
    assert(k + m == n * (k / n) + (q + m));
    lemma_small_mod(i as nat, n as nat);
    if i >= q {
        assert((q + m) % n == i);
    } else {
        lemma_mod_multiples_vanish(1, i, n);
        assert(q + m == n * 1 + i);
        assert((q + m) % n == i);
    }
    assert(m * s < n * s) by (nonlinear_arith)
        requires
            m < n,
            s > 0,
    ;
    assert(m * s >= 0) by (nonlinear_arith)
        requires
            m >= 0,
            s > 0,
    ;
    assert(slot_of(u, n) == i);
}

/// A control whose reading stands on its confirmed value is reported at the
/// pass that enters its resync slot, with no change of input needed.
pub proof fn lemma_resync_reports_settled(p: Panel, readings: Seq<Option<u8>>, now: u64, i: int)
    requires
        p.wf(),
        readings.len() == p.controls@.len(),
        0 <= i < p.controls@.len(),
        readings[i] is Some,
        readings[i] == p.filters@[i].confirmed,
        slot_of(now as int, p.controls@.len() as int) == i,
        p.last_slot != Some(i as usize),
    ensures
        p.spec_reports(readings, now).contains(Report { control: i as usize, value: readings[i].unwrap() }),
{
    let n = p.controls@.len() as int;
    lemma_reports_upto_has(p.filters@, readings, now, p.last_slot, slot_of(now as int, n), n, i);
}

/// After `?` every confirmed value is forgotten. From such a state, a control
/// with a definite reading is reported by the first pass at which its pending
/// deadline has passed, and a control with no deadline yet has one armed, which
/// no reading can cancel.
pub proof fn lemma_forgotten_controls_resend(p: Panel, readings: Seq<Option<u8>>, now: u64, i: int)
    requires
        p.wf(),
        readings.len() == p.controls@.len(),
        0 <= i < p.controls@.len(),
        p.filters@[i].confirmed is None,
        readings[i] is Some,
    ensures
        p.filters@[i].pending matches Some(d) && d <= now ==> p.spec_reports(readings, now).contains(
            Report { control: i as usize, value: readings[i].unwrap() },
        ),
        p.filters@[i].pending is None ==> filter_next(p.filters@[i], readings[i], now) == (Debounce {
            confirmed: None,
            pending: Some(deadline_after(now)),
        }),
{
    let n = p.controls@.len() as int;
    if p.filters@[i].pending matches Some(d) && d <= now {
        lemma_reports_upto_has(p.filters@, readings, now, p.last_slot, slot_of(now as int, n), n, i);
    }
}

/// The annunciator follows the test control: it blinks once that control is
/// confirmed on its test value, it goes dark when a blinking one sees that
/// value leave, and it blinks only while the value stands.
pub proof fn lemma_annunciator_follows_test(p: Panel, readings: Seq<Option<u8>>, now: u64)
    requires
        p.wf(),
        readings.len() == p.controls@.len(),
    ensures
        ({
            let t = p.test_control as int;
            let before = p.filters@[t].confirmed;
            let after = filter_next(p.filters@[t], readings[t], now).confirmed;
            let a = p.annunciator_after(readings, now);
            &&& before != Some(TEST_VALUE) && after == Some(TEST_VALUE) ==> a == Annunciator::AutoBlink
            &&& p.annunciator == Annunciator::AutoBlink && after != Some(TEST_VALUE) ==> a
                == Annunciator::ForcedOff
            &&& a == Annunciator::AutoBlink ==> after == Some(TEST_VALUE)
        }),
{
}

} // verus!
