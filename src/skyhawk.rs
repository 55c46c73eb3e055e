//! The panel of a single-engine trainer's switch row.
use vstd::prelude::*;

use crate::annunciator::Annunciator;
use crate::control::{Control, Sampler};
use crate::debounce::Debounce;
use crate::panel::Panel;

verus! {

/// Number of controls on the panel.
pub const CONTROL_COUNT: usize = 15;

/// Index of the standby switch, whose test position makes the annunciator blink.
pub const STANDBY_INDEX: usize = 13;

/// Index of the parking brake.
pub const PARKING_BRAKE_INDEX: usize = 14;

/// The panel with its controls in wiring order: eleven toggles, then the
/// magnetos, flaps, standby switch and parking brake. Nothing is confirmed yet
/// and the annunciator is off.
pub fn skyhawk_panel() -> (r: Panel)
    ensures
        r.wf(),
        r.controls@.len() == CONTROL_COUNT,
        r.test_control == STANDBY_INDEX,
        r.annunciator == Annunciator::ForcedOff,
        r.last_slot is None,
        r.controls@[0].tag@ == seq![0x62u8, 0x61u8, 0x74u8],
        r.controls@[1].tag@ == seq![0x61u8, 0x6cu8, 0x74u8],
        r.controls@[2].tag@ == seq![0x61u8, 0x76u8, 0x31u8],
        r.controls@[3].tag@ == seq![0x61u8, 0x76u8, 0x32u8],
        r.controls@[4].tag@ == seq![0x70u8, 0x68u8],
        r.controls@[5].tag@ == seq![0x66u8, 0x70u8],
        r.controls@[6].tag@ == seq![0x6cu8, 0x62u8],
        r.controls@[7].tag@ == seq![0x6cu8, 0x6cu8],
        r.controls@[8].tag@ == seq![0x6cu8, 0x74u8],
        r.controls@[9].tag@ == seq![0x6cu8, 0x6eu8],
        r.controls@[10].tag@ == seq![0x6cu8, 0x73u8],
        r.controls@[11].tag@ == seq![0x6du8, 0x61u8, 0x67u8],
        r.controls@[12].tag@ == seq![0x66u8, 0x6cu8],
        r.controls@[13].tag@ == seq![0x73u8, 0x62u8],
        r.controls@[14].tag@ == seq![0x70u8, 0x62u8],
        r.controls@[0].sampler is Toggle,
        r.controls@[1].sampler is Toggle,
        r.controls@[2].sampler is Toggle,
        r.controls@[3].sampler is Toggle,
        r.controls@[4].sampler is Toggle,
        r.controls@[5].sampler is Toggle,
        r.controls@[6].sampler is Toggle,
        r.controls@[7].sampler is Toggle,
        r.controls@[8].sampler is Toggle,
        r.controls@[9].sampler is Toggle,
        r.controls@[10].sampler is Toggle,
        r.controls@[11].sampler matches Sampler::Positions { values, fallback } && values@ == seq![0x30u8, 0x31u8, 0x32u8, 0x33u8, 0x34u8] && fallback is None,
        r.controls@[12].sampler matches Sampler::Positions { values, fallback } && values@ == seq![0x2du8, 0x2bu8] && fallback == Some(0x30u8),
        r.controls@[13].sampler matches Sampler::Positions { values, fallback } && values@ == seq![0x31u8, 0x3fu8] && fallback == Some(0x30u8),
        r.controls@[14].sampler matches Sampler::Positions { values, fallback } && values@ == seq![0x2du8, 0x31u8] && fallback is None,
        forall|j: int|
            0 <= j < r.filters@.len() ==> r.filters@[j] == (Debounce { confirmed: None, pending: None }),
{
    let mut controls: Vec<Control> = Vec::new();
    // bat: battery
    controls.push(Control::toggle(vec![0x62, 0x61, 0x74]));
    // alt: alternator
    controls.push(Control::toggle(vec![0x61, 0x6c, 0x74]));
    // av1: avionics bus 1
    controls.push(Control::toggle(vec![0x61, 0x76, 0x31]));
    // av2: avionics bus 2
    controls.push(Control::toggle(vec![0x61, 0x76, 0x32]));
    // ph: pitot heaters
    controls.push(Control::toggle(vec![0x70, 0x68]));
    // fp: electric fuel pump
    controls.push(Control::toggle(vec![0x66, 0x70]));
    // lb: beacon light
    controls.push(Control::toggle(vec![0x6c, 0x62]));
    // ll: landing lights
    controls.push(Control::toggle(vec![0x6c, 0x6c]));
    // lt: taxi light
    controls.push(Control::toggle(vec![0x6c, 0x74]));
    // ln: nav lights
    controls.push(Control::toggle(vec![0x6c, 0x6e]));
    // ls: strobe lights
    controls.push(Control::toggle(vec![0x6c, 0x73]));
    // mag: magnetos, off / L / R / both / ignition
    controls.push(Control::positions(vec![0x6d, 0x61, 0x67], vec![0x30, 0x31, 0x32, 0x33, 0x34], None));
    // fl: flaps, retract / extend, else neutral
    controls.push(Control::positions(vec![0x66, 0x6c], vec![0x2d, 0x2b], Some(0x30)));
    // sb: standby power, activate / test, else neutral
    controls.push(Control::positions(vec![0x73, 0x62], vec![0x31, 0x3f], Some(0x30)));
    // pb: parking brake, disengage / engage
    controls.push(Control::positions(vec![0x70, 0x62], vec![0x2d, 0x31], None));
    let mut filters: Vec<Debounce> = Vec::new();
    let mut i: usize = 0;
    while i < CONTROL_COUNT
        invariant
            i <= CONTROL_COUNT,
            filters@.len() == i,
            forall|j: int|
                0 <= j < i ==> filters@[j] == (Debounce { confirmed: None, pending: None }),
        decreases CONTROL_COUNT - i,
    {
        filters.push(Debounce::new());
        i = i + 1;
    }
    Panel {
        controls,
        filters,
        annunciator: Annunciator::ForcedOff,
        test_control: STANDBY_INDEX,
        last_slot: None,
    }
}

} // verus!
