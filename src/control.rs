//! Controls: a tag and the rule that turns pin levels into a value.
use vstd::prelude::*;

verus! {

/// How a control reads its pins. A pin level is `Some(true)` when asserted,
/// `Some(false)` when not, and `None` when it could not be read.
#[derive(Debug)]
pub enum Sampler {
    /// One pin: `1` when asserted, `0` when not.
    Toggle,
    /// Exclusive positions, one pin each, in priority order: the value of the
    /// first asserted pin, else `fallback`.
    Positions { values: Vec<u8>, fallback: Option<u8> },
}

/// The value of the first asserted pin at or after `i`, else `fallback`.
pub open spec fn first_asserted(
    levels: Seq<Option<bool>>,
    values: Seq<u8>,
    fallback: Option<u8>,
    i: int,
) -> Option<u8>
    decreases values.len() - i,
{
    if i < 0 || i >= values.len() || i >= levels.len() {
        fallback
    } else if levels[i] == Some(true) {
        Some(values[i])
    } else {
        first_asserted(levels, values, fallback, i + 1)
    }
}

/// One logical switch or knob of the panel.
#[derive(Debug)]
pub struct Control {
    /// Name of the control on the wire.
    pub tag: Vec<u8>,
    pub sampler: Sampler,
}

impl Control {
    /// The reading of the control for the given pin levels; `None` when it
    /// has no definite value.
    pub open spec fn spec_sample(&self, levels: Seq<Option<bool>>) -> Option<u8> {
        match self.sampler {
            Sampler::Toggle => if levels.len() == 0 {
                None
            } else {
                match levels[0] {
                    Some(true) => Some(0x31u8),
                    Some(false) => Some(0x30u8),
                    None => None,
                }
            },
            Sampler::Positions { values, fallback } => first_asserted(
                levels,
                values@,
                fallback,
                0,
            ),
        }
    }

    /// A control on one pin.
    pub fn toggle(tag: Vec<u8>) -> (r: Control)
        ensures
            r.tag == tag,
            r.sampler is Toggle,
    {
        Control { tag, sampler: Sampler::Toggle }
    }

    /// A control with exclusive positions in priority order.
    pub fn positions(tag: Vec<u8>, values: Vec<u8>, fallback: Option<u8>) -> (r: Control)
        ensures
            r.tag == tag,
            r.sampler == (Sampler::Positions { values, fallback }),
    {
        Control { tag, sampler: Sampler::Positions { values, fallback } }
    }

    /// Reads the control from its pin levels.
    pub fn sample(&self, levels: &Vec<Option<bool>>) -> (r: Option<u8>)
        ensures
            r == self.spec_sample(levels@),
    {
        match &self.sampler {
            Sampler::Toggle => {
                if levels.len() == 0 {
                    None
                } else {
                    match levels[0] {
                        Some(true) => Some(0x31),
                        Some(false) => Some(0x30),
                        None => None,
                    }
                }
            },
            Sampler::Positions { values, fallback } => {
                let mut i: usize = 0;
                while i < values.len() && i < levels.len()
                    invariant
                        self.sampler == (Sampler::Positions { values: *values, fallback: *fallback }),
                        i <= values@.len(),
                        first_asserted(levels@, values@, *fallback, 0) == first_asserted(
                            levels@,
                            values@,
                            *fallback,
                            i as int,
                        ),
                    decreases values@.len() - i,
                {
                    if let Some(true) = levels[i] {
                        return Some(values[i]);
                    }
                    i = i + 1;
                }
                *fallback
            },
        }
    }
}

} // verus!
