//! What is sent to the ILI9341 display controller.

use vstd::prelude::*;

verus! {

/// The four bytes that set the window of the display along one axis: the
/// first place and the last, each as two bytes, the high byte first.
pub open spec fn axis_window_bytes(start: u16, end: u16) -> Seq<u8> {
    seq![(start / 256) as u8, (start % 256) as u8, (end / 256) as u8, (end % 256) as u8]
}

/// The data of a command that sets the window of the display along one
/// axis, from `start` to `end`.
pub fn axis_window(start: u16, end: u16) -> (data: [u8; 4])
    ensures
        data@ == axis_window_bytes(start, end),
{
    let data = [(start / 256) as u8, (start % 256) as u8, (end / 256) as u8, (end % 256) as u8];
    assert(data@ =~= axis_window_bytes(start, end));
    data
}

} // verus!
