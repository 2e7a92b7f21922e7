//! The bytes that reset the display when a session ends.

use vstd::prelude::*;

verus! {

/// The escape byte, with which a terminal command begins.
pub const ESCAPE: u8 = 0x1b;

/// The command that clears the whole screen, `ESC [ 2 J`, followed by the
/// command that moves the cursor to the home position, `ESC [ H`.
pub open spec fn reset_sequence() -> Seq<u8> {
    seq![ESCAPE, 0x5b, 0x32, 0x4a, ESCAPE, 0x5b, 0x48]
}

/// The bytes to write, and then to flush, when the session ends: clear the
/// screen, then send the cursor home.
pub fn editor_refresh_screen() -> (bytes: Vec<u8>)
    ensures
        bytes@ == reset_sequence(),
{
    let mut bytes: Vec<u8> = Vec::new();
    bytes.push(ESCAPE);
    bytes.push(0x5b);
    bytes.push(0x32);
    bytes.push(0x4a);
    bytes.push(ESCAPE);
    bytes.push(0x5b);
    bytes.push(0x48);
    assert(bytes@ =~= reset_sequence());
    bytes
}

} // verus!
