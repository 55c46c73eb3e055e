use skyhawk_panel::annunciator::Annunciator;
use skyhawk_panel::control::Control;
use skyhawk_panel::debounce::{Debounce, SETTLE_TICKS};
use skyhawk_panel::drain::Drain;
use skyhawk_panel::panel::{slot_index, Panel, Report, SLOT_TICKS};
use skyhawk_panel::protocol::{banner, decode_command, encode_frame, Command};
use skyhawk_panel::skyhawk::{skyhawk_panel, CONTROL_COUNT, PARKING_BRAKE_INDEX, STANDBY_INDEX};

/// Readings of every control with all toggles off, the magnetos on "both",
/// flaps and standby neutral, and the parking brake at `pb`.
fn readings_with(sb: u8, pb: u8) -> Vec<Option<u8>> {
    let mut r = vec![Some(b'0'); CONTROL_COUNT];
    r[11] = Some(b'3');
    r[12] = Some(b'0');
    r[STANDBY_INDEX] = Some(sb);
    r[PARKING_BRAKE_INDEX] = Some(pb);
    r
}

fn frames(panel: &Panel, reports: &[Report]) -> Vec<Vec<u8>> {
    reports
        .iter()
        .map(|r| encode_frame(&panel.controls[r.control].tag, r.value))
        .collect()
}

/// A panel whose every control has settled on `readings`, as of tick 8001.
fn settled(readings: &Vec<Option<u8>>) -> Panel {
    let mut p = skyhawk_panel();
    let out = p.pass(readings, 1);
    assert!(out.reports.is_empty());
    let out = p.pass(readings, 1 + SETTLE_TICKS);
    assert_eq!(out.reports.len(), CONTROL_COUNT);
    p
}

#[test]
fn debounce_holds_until_settled() {
    let mut d = Debounce::new();
    d.confirmed = Some(b'0');
    assert!(!d.observe(b'1', 100));
    assert_eq!(d.pending, Some(100 + SETTLE_TICKS));
    assert!(!d.observe(b'1', 100 + SETTLE_TICKS - 1));
    assert_eq!(d.confirmed, Some(b'0'));
    assert!(d.observe(b'1', 100 + SETTLE_TICKS));
    assert_eq!(d.confirmed, Some(b'1'));
    assert_eq!(d.pending, None);
}

#[test]
fn debounce_accepts_value_read_at_deadline() {
    let mut d = Debounce::new();
    d.confirmed = Some(b'0');
    assert!(!d.observe(b'1', 0));
    assert!(d.observe(b'2', SETTLE_TICKS + 5));
    assert_eq!(d.confirmed, Some(b'2'));
}

#[test]
fn debounce_bounce_back_cancels() {
    let mut d = Debounce::new();
    d.confirmed = Some(b'0');
    assert!(!d.observe(b'1', 10));
    assert!(d.observe(b'0', 20));
    assert_eq!(d, Debounce { confirmed: Some(b'0'), pending: None });
    // a later change starts a fresh window
    assert!(!d.observe(b'1', 30 + SETTLE_TICKS));
    assert_eq!(d.pending, Some(30 + 2 * SETTLE_TICKS));
}

#[test]
fn debounce_deadline_saturates() {
    let mut d = Debounce::new();
    assert!(!d.observe(b'1', u64::MAX - 1));
    assert_eq!(d.pending, Some(u64::MAX));
}

#[test]
fn toggle_sampling() {
    let c = Control::toggle(b"bat".to_vec());
    assert_eq!(c.sample(&vec![Some(true)]), Some(b'1'));
    assert_eq!(c.sample(&vec![Some(false)]), Some(b'0'));
    assert_eq!(c.sample(&vec![None]), None);
    assert_eq!(c.sample(&vec![]), None);
}

#[test]
fn positions_sampling_priority_and_fallback() {
    let fl = Control::positions(b"fl".to_vec(), b"-+".to_vec(), Some(b'0'));
    assert_eq!(fl.sample(&vec![Some(false), Some(false)]), Some(b'0'));
    assert_eq!(fl.sample(&vec![Some(false), Some(true)]), Some(b'+'));
    assert_eq!(fl.sample(&vec![Some(true), Some(true)]), Some(b'-'));
    assert_eq!(fl.sample(&vec![None, Some(true)]), Some(b'+'));
    let mag = Control::positions(b"mag".to_vec(), b"01234".to_vec(), None);
    assert_eq!(mag.sample(&vec![Some(false); 5]), None);
    assert_eq!(
        mag.sample(&vec![Some(false), Some(false), Some(false), Some(true), Some(true)]),
        Some(b'3')
    );
}

#[test]
fn commands_decode() {
    assert_eq!(decode_command(b'!'), Some(Command::Activate));
    assert_eq!(decode_command(b'.'), Some(Command::Deactivate));
    assert_eq!(decode_command(b'?'), Some(Command::Identify));
    assert_eq!(decode_command(b'r'), Some(Command::Reboot));
    assert_eq!(decode_command(b'x'), None);
    assert_eq!(decode_command(b'R'), None);
}

#[test]
fn frame_and_banner_bytes() {
    assert_eq!(encode_frame(&b"pb".to_vec(), b'1'), b"pb=1\n".to_vec());
    assert_eq!(encode_frame(&b"mag".to_vec(), b'4'), b"mag=4\n".to_vec());
    assert_eq!(banner(), b"We are a Cessna 172 SP?\n".to_vec());
}

#[test]
fn drain_partial_writes() {
    let mut d = Drain::new(b"mag=3\n".to_vec());
    assert!(!d.is_finished());
    assert_eq!(d.unsent(), b"mag=3\n".to_vec());
    d.record(Some(2));
    assert_eq!(d.unsent(), b"g=3\n".to_vec());
    d.record(Some(0));
    assert!(!d.is_finished());
    d.record(Some(4));
    assert!(d.is_finished());
    assert!(!d.abandoned);
    assert_eq!(d.sent, 6);
}

#[test]
fn drain_failure_abandons() {
    let mut d = Drain::new(b"bat=1\n".to_vec());
    d.record(Some(3));
    d.record(None);
    assert!(d.is_finished());
    assert!(d.abandoned);
    assert_eq!(d.sent, 3);
}

#[test]
fn slots_cycle_through_controls() {
    assert_eq!(slot_index(0, 15), 0);
    assert_eq!(slot_index(SLOT_TICKS - 1, 15), 0);
    assert_eq!(slot_index(SLOT_TICKS, 15), 1);
    assert_eq!(slot_index(14 * SLOT_TICKS, 15), 14);
    assert_eq!(slot_index(15 * SLOT_TICKS, 15), 0);
    assert_eq!(slot_index(u64::MAX, 1), 0);
}

#[test]
fn panel_new_rejects_bad_wiring() {
    assert!(Panel::new(vec![], 0).is_none());
    assert!(Panel::new(vec![Control::toggle(b"bat".to_vec())], 1).is_none());
    let p = Panel::new(vec![Control::toggle(b"bat".to_vec())], 0).unwrap();
    assert_eq!(p.annunciator, Annunciator::ForcedOff);
    assert_eq!(p.filters, vec![Debounce { confirmed: None, pending: None }]);
}

#[test]
fn blink_phase_values() {
    assert!(!Annunciator::AutoBlink.lit(0));
    assert!(Annunciator::AutoBlink.lit(100000));
    assert!(!Annunciator::AutoBlink.lit(200000));
    assert!(Annunciator::ForcedOn.lit(0));
    assert!(!Annunciator::ForcedOff.lit(100000));
}

#[test]
fn isolated_transition_confirmed_after_settle() {
    let base = readings_with(b'0', b'-');
    let mut p = settled(&base);
    let mut on = base.clone();
    on[0] = Some(b'1');
    let t = 1 + SETTLE_TICKS + 100;
    assert!(p.pass(&on, t).reports.is_empty());
    assert!(p.pass(&on, t + SETTLE_TICKS - 1).reports.is_empty());
    assert_eq!(p.filters[0].confirmed, Some(b'0'));
    let out = p.pass(&on, t + SETTLE_TICKS);
    assert_eq!(out.reports, vec![Report { control: 0, value: b'1' }]);
    assert_eq!(p.filters[0].confirmed, Some(b'1'));
}

#[test]
fn transient_is_never_reported() {
    let base = readings_with(b'0', b'-');
    let mut p = settled(&base);
    let mut on = base.clone();
    on[4] = Some(b'1');
    let t = 1 + SETTLE_TICKS + 100;
    assert!(p.pass(&on, t).reports.is_empty());
    assert!(p.pass(&base, t + 10).reports.is_empty());
    assert_eq!(p.filters[4].pending, None);
    assert!(p.pass(&base, t + SETTLE_TICKS).reports.is_empty());
    assert!(p.pass(&base, t + 3 * SETTLE_TICKS).reports.is_empty());
    assert_eq!(p.filters[4].confirmed, Some(b'0'));
}

#[test]
fn every_control_resent_each_cycle() {
    let base = readings_with(b'0', b'-');
    let mut p = settled(&base);
    let mut seen = vec![0usize; CONTROL_COUNT];
    let mut t = SLOT_TICKS;
    while t < SLOT_TICKS + CONTROL_COUNT as u64 * SLOT_TICKS {
        for r in p.pass(&base, t).reports {
            assert_eq!(Some(r.value), p.filters[r.control].confirmed);
            seen[r.control] += 1;
        }
        t += SLOT_TICKS / 4;
    }
    assert_eq!(seen, vec![1usize; CONTROL_COUNT]);
}

#[test]
fn identify_clears_and_resends() {
    let base = readings_with(b'0', b'-');
    let mut p = settled(&base);
    assert_eq!(p.command(b'!'), Some(Command::Activate));
    assert_eq!(p.command(b'?'), Some(Command::Identify));
    assert_eq!(p.annunciator, Annunciator::ForcedOff);
    assert!(p.filters.iter().all(|f| f.confirmed.is_none()));
    let t = 20_000;
    assert!(p.pass(&base, t).reports.is_empty());
    let out = p.pass(&base, t + SETTLE_TICKS);
    let controls: Vec<usize> = out.reports.iter().map(|r| r.control).collect();
    assert_eq!(controls, (0..CONTROL_COUNT).collect::<Vec<usize>>());
}

#[test]
fn standby_test_blinks_annunciator() {
    let base = readings_with(b'0', b'-');
    let mut p = settled(&base);
    let test = readings_with(b'?', b'-');
    let t = 20_000;
    p.pass(&test, t);
    assert_eq!(p.annunciator, Annunciator::ForcedOff);
    let out = p.pass(&test, t + SETTLE_TICKS);
    assert_eq!(p.annunciator, Annunciator::AutoBlink);
    assert_eq!(out.reports, vec![Report { control: STANDBY_INDEX, value: b'?' }]);
    let lit_at = 100_000;
    let out = p.pass(&test, lit_at);
    assert!(out.standby_lit);
    assert!(out.activity_lit);
    let out = p.pass(&test, 200_000);
    assert!(!out.standby_lit);
    p.pass(&base, 300_000);
    assert_eq!(p.annunciator, Annunciator::AutoBlink);
    p.pass(&base, 300_000 + SETTLE_TICKS);
    assert_eq!(p.annunciator, Annunciator::ForcedOff);
}

#[test]
fn forced_annunciator_survives_test_release() {
    let test = readings_with(b'?', b'-');
    let mut p = settled(&test);
    assert_eq!(p.annunciator, Annunciator::AutoBlink);
    p.command(b'!');
    let base = readings_with(b'0', b'-');
    p.pass(&base, 20_000);
    p.pass(&base, 20_000 + SETTLE_TICKS);
    assert_eq!(p.annunciator, Annunciator::ForcedOn);
}

#[test]
fn parking_brake_engaged_reported_once() {
    let pb = Control::positions(b"pb".to_vec(), b"-1".to_vec(), None);
    let engaged = pb.sample(&vec![Some(false), Some(true)]);
    assert_eq!(engaged, Some(b'1'));
    let r = readings_with(b'0', engaged.unwrap());
    let mut p = skyhawk_panel();
    let mut pb_frames = 0;
    let mut t = 1;
    while t < 5 * SLOT_TICKS {
        for f in { let reports = p.pass(&r, t).reports; frames(&p, &reports) } {
            if f.starts_with(b"pb=") {
                assert_eq!(f, b"pb=1\n".to_vec());
                pb_frames += 1;
            }
        }
        t += 1000;
    }
    assert_eq!(pb_frames, 1);
}

#[test]
fn annunciator_commands_emit_no_frames() {
    let base = readings_with(b'0', b'-');
    let mut p = settled(&base);
    assert_eq!(p.command(b'!'), Some(Command::Activate));
    let out = p.pass(&base, 20_000);
    assert!(out.reports.is_empty());
    assert!(out.standby_lit);
    assert_eq!(p.command(b'.'), Some(Command::Deactivate));
    let out = p.pass(&base, 30_000);
    assert!(out.reports.is_empty());
    assert!(!out.standby_lit);
}

#[test]
fn identify_from_nothing_sends_banner_then_every_control() {
    let base = readings_with(b'0', b'-');
    let mut p = skyhawk_panel();
    assert_eq!(p.command(b'?'), Some(Command::Identify));
    let mut sent: Vec<Vec<u8>> = vec![banner()];
    let mut t = 1;
    while t < CONTROL_COUNT as u64 * SLOT_TICKS {
        let reports = p.pass(&base, t).reports;
        sent.extend(frames(&p, &reports));
        t += 500_000;
    }
    assert_eq!(sent[0], b"We are a Cessna 172 SP?\n".to_vec());
    for (i, c) in p.controls.iter().enumerate() {
        let f = encode_frame(&c.tag, base[i].unwrap());
        assert!(sent.contains(&f));
    }
}

#[test]
fn activity_follows_confirmed_values() {
    let base = readings_with(b'0', b'-');
    let mut p = settled(&base);
    // the magnetos stand on "both" and the brake on "disengage"
    assert!(p.pass(&base, 20_000).activity_lit);
    let mut off = base.clone();
    off[11] = Some(b'0');
    off[PARKING_BRAKE_INDEX] = Some(b'0');
    p.pass(&off, 30_000);
    p.pass(&off, 30_000 + SETTLE_TICKS);
    assert!(!p.pass(&off, 50_000).activity_lit);
}
