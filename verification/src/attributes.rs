//! The attribute snapshot of a terminal device.

use vstd::prelude::*;

verus! {

/// The control attributes of a terminal device at one point in time.
///
/// Flag words and line speeds are held as `u64`, which is wide enough for the
/// device's own types on every platform. `control_chars` holds the device's
/// control-character slots in their order, among them the minimum number of
/// bytes a read waits for and the read timeout.
#[derive(Clone, Debug, PartialEq, Eq)]
pub struct TerminalAttributes {
    /// How input is treated on its way in.
    pub input_flags: u64,
    /// How output is treated on its way out.
    pub output_flags: u64,
    /// How the line itself is driven.
    pub control_flags: u64,
    /// How the terminal deals with the user: echo, line editing, signals.
    pub local_flags: u64,
    /// The line discipline.
    pub line_discipline: u8,
    /// The control-character slots, in the device's order.
    pub control_chars: Vec<u8>,
    /// The input speed.
    pub input_speed: u64,
    /// The output speed.
    pub output_speed: u64,
}

/// What a snapshot holds, as a mathematical value: the same fields, with the
/// control characters as a sequence.
pub struct AttributesView {
    pub input_flags: u64,
    pub output_flags: u64,
    pub control_flags: u64,
    pub local_flags: u64,
    pub line_discipline: u8,
    pub control_chars: Seq<u8>,
    pub input_speed: u64,
    pub output_speed: u64,
}

impl View for TerminalAttributes {
    type V = AttributesView;

    open spec fn view(&self) -> AttributesView {
        AttributesView {
            input_flags: self.input_flags,
            output_flags: self.output_flags,
            control_flags: self.control_flags,
            local_flags: self.local_flags,
            line_discipline: self.line_discipline,
            control_chars: self.control_chars@,
            input_speed: self.input_speed,
            output_speed: self.output_speed,
        }
    }
}

/// A copy of a row of control-character slots.
pub(crate) fn copy_slots(slots: &Vec<u8>) -> (copy: Vec<u8>)
    ensures
        copy@ == slots@,
{
    let copy = slots.clone();
    assert(copy@ =~= slots@);
    copy
}

} // verus!
