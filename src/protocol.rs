//! Host commands and the frames sent to the host.
use vstd::prelude::*;

verus! {

/// A command byte from the host.
#[derive(Clone, Copy, Debug, PartialEq, Eq, Structural)]
pub enum Command {
    /// `!`: force the annunciator on.
    Activate,
    /// `.`: force the annunciator off.
    Deactivate,
    /// `?`: send the banner and resynchronise every control.
    Identify,
    /// `r`: reboot the device.
    Reboot,
}

/// The command a byte stands for; other bytes are ignored.
pub open spec fn spec_decode(b: u8) -> Option<Command> {
    if b == 0x21 {
        Some(Command::Activate)
    } else if b == 0x2e {
        Some(Command::Deactivate)
    } else if b == 0x3f {
        Some(Command::Identify)
    } else if b == 0x72 {
        Some(Command::Reboot)
    } else {
        None
    }
}

/// Decodes one byte from the host.
pub fn decode_command(b: u8) -> (r: Option<Command>)
    ensures
        r == spec_decode(b),
{
    if b == 0x21 {
        Some(Command::Activate)
    } else if b == 0x2e {
        Some(Command::Deactivate)
    } else if b == 0x3f {
        Some(Command::Identify)
    } else if b == 0x72 {
        Some(Command::Reboot)
    } else {
        None
    }
}

/// The report of one control: its tag, `=`, the value byte, a newline.
pub open spec fn spec_frame(tag: Seq<u8>, value: u8) -> Seq<u8> {
    tag + seq![0x3du8, value, 0x0au8]
}

/// Encodes the report of one control.
pub fn encode_frame(tag: &Vec<u8>, value: u8) -> (r: Vec<u8>)
    ensures
        r@ == spec_frame(tag@, value),
{
    let mut out: Vec<u8> = Vec::new();
    let mut i: usize = 0;
    while i < tag.len()
        invariant
            i <= tag@.len(),
            out@ == tag@.subrange(0, i as int),
        decreases tag@.len() - i,
    {
        out.push(tag[i]);
        i = i + 1;
        assert(out@ =~= tag@.subrange(0, i as int));
    }
    out.push(0x3d);
    out.push(value);
    out.push(0x0a);
    assert(out@ =~= spec_frame(tag@, value));
    out
}

/// The identification line sent on `?`.
pub open spec fn spec_banner() -> Seq<u8> {
    seq![
        0x57u8, 0x65, 0x20, 0x61, 0x72, 0x65, 0x20, 0x61, 0x20, 0x43, 0x65, 0x73,
        0x73, 0x6e, 0x61, 0x20, 0x31, 0x37, 0x32, 0x20, 0x53, 0x50, 0x3f, 0x0a,
    ]
}

/// The identification line sent on `?`.
pub fn banner() -> (r: Vec<u8>)
    ensures
        r@ == spec_banner(),
{
    // "We are a Cessna 172 SP?\n"
    let r: Vec<u8> = vec![
        0x57, 0x65, 0x20, 0x61, 0x72, 0x65, 0x20, 0x61, 0x20, 0x43, 0x65, 0x73,
        0x73, 0x6e, 0x61, 0x20, 0x31, 0x37, 0x32, 0x20, 0x53, 0x50, 0x3f, 0x0a,
    ];
    assert(r@ =~= spec_banner());
    r
}

} // verus!
