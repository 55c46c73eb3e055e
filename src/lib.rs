//! Debounced change reporting for a panel of switches and knobs.
//!
//! Each control's pin levels are sampled into a value, a debounce filter
//! confirms values that hold for a settle time, and a pass over the panel
//! decides which controls report: on a change of confirmed value, or when the
//! control's resync slot comes round. Host commands drive a standby
//! annunciator and can ask for everything to be sent again.
pub mod annunciator;
pub mod control;
pub mod debounce;
pub mod drain;
pub mod panel;
pub mod protocol;
pub mod skyhawk;
