use vstd::prelude::*;
use crate::device::{placeholder_address, shown_address, DeviceRecord};
use crate::state::{
    command_for, index_after_down, index_after_up, pause_after, selection_after,
    selection_after_intake, Command, Key,
};

verus! {

/// After a snapshot is taken in, something is selected; and on a non-empty
/// snapshot the next arrow key lands on a valid row, whatever the selection
/// was before (even one left past the end by a shorter snapshot).
pub proof fn intake_then_arrow_in_range(selected: Option<usize>, len: nat, key: Key)
    requires
        1 <= len <= usize::MAX,
        key == Key::Up || key == Key::Down,
    ensures
        selection_after_intake(selected) is Some,
        selection_after(selection_after_intake(selected), len, key) is Some,
        selection_after(selection_after_intake(selected), len, key)->Some_0 < len,
{
}

/// Down then up, or up then down, from a valid row comes back to that row:
/// the wrapping step is a bijection on the rows.
pub proof fn arrows_cancel(i: usize, len: nat)
    requires
        i < len <= usize::MAX,
    ensures
        index_after_up(Some(index_after_down(Some(i), len) as usize), len) == i,
        index_after_down(Some(index_after_up(Some(i), len) as usize), len) == i,
{
}

/// Down from the last row goes to the first; up from the first goes to the last.
pub proof fn arrows_wrap(len: nat)
    requires
        1 <= len <= usize::MAX,
    ensures
        index_after_down(Some((len - 1) as usize), len) == 0,
        index_after_up(Some(0usize), len) == len - 1,
{
}

/// The pause key flips the pause flag once per press, so two presses restore it.
pub proof fn pause_key_flips(paused: bool)
    ensures
        pause_after(command_for(Key::Char('s'), paused), paused) == !paused,
        ({
            let once = pause_after(command_for(Key::Char('s'), paused), paused);
            pause_after(command_for(Key::Char('s'), once), once) == paused
        }),
{
}

/// The quit key asks to leave the loop from any state, and leaves the
/// selection as it was.
pub proof fn quit_key_quits(selected: Option<usize>, len: nat, paused: bool)
    ensures
        command_for(Key::Char('q'), paused) == Command::Quit,
        selection_after(selected, len, Key::Char('q')) == selected,
{
}

/// A device reported with the placeholder address is listed under its
/// local identifier; any other device under its address.
pub proof fn placeholder_listed_by_id(d: DeviceRecord)
    ensures
        d.address@ == placeholder_address() ==> shown_address(d) == d.id@,
        d.address@ != placeholder_address() ==> shown_address(d) == d.address@,
{
}

} // verus!
