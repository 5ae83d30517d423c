use vstd::prelude::*;
use crate::device::DeviceRecord;
use tokio::sync::mpsc::error::TryRecvError;
use tokio::sync::mpsc::Receiver;

verus! {

/// A key press, as far as the viewer tells keys apart.
#[derive(Clone, Copy, Debug, PartialEq, Eq, Structural)]
pub enum Key {
    /// A printable character.
    Char(char),
    /// The up arrow.
    Up,
    /// The down arrow.
    Down,
    /// Any other key.
    Other,
}

/// What the event loop is to do after a key press.
#[derive(Clone, Copy, Debug, PartialEq, Eq, Structural)]
pub enum Command {
    /// Keep running.
    Continue,
    /// Leave the loop.
    Quit,
    /// Store this value in the shared pause flag, then keep running.
    SetPause(bool),
}

/// Selection after the down arrow: the next row, wrapping to the first after
/// the last; the first row when nothing is selected or the list is empty.
pub open spec fn index_after_down(selected: Option<usize>, len: nat) -> nat {
    match selected {
        None => 0,
        Some(s) => if len == 0 || s >= len - 1 { 0 } else { (s + 1) as nat },
    }
}

/// Selection after the up arrow: the previous row, wrapping to the last from
/// the first or from an index past the end; the first row when nothing is
/// selected or the list is empty.
pub open spec fn index_after_up(selected: Option<usize>, len: nat) -> nat {
    match selected {
        None => 0,
        Some(s) => if len == 0 {
            0
        } else if s == 0 || s - 1 >= len {
            (len - 1) as nat
        } else {
            (s - 1) as nat
        },
    }
}

/// The selection after a key press on a list of `len` devices.
pub open spec fn selection_after(selected: Option<usize>, len: nat, key: Key) -> Option<usize> {
    match key {
        Key::Down => Some(index_after_down(selected, len) as usize),
        Key::Up => Some(index_after_up(selected, len) as usize),
        _ => selected,
    }
}

/// The command for a key press, given the current value of the pause flag:
/// `q` quits, `s` stores the negation of the flag, every other key does nothing.
pub open spec fn command_for(key: Key, paused: bool) -> Command {
    match key {
        Key::Char(c) => if c == 'q' {
            Command::Quit
        } else if c == 's' {
            Command::SetPause(!paused)
        } else {
            Command::Continue
        },
        _ => Command::Continue,
    }
}

/// The pause flag once a command has been carried out.
pub open spec fn pause_after(command: Command, paused: bool) -> bool {
    match command {
        Command::SetPause(p) => p,
        _ => paused,
    }
}

/// The selection once a snapshot has been taken in: unchanged if there was
/// one, even if it now lies past the end; the first row otherwise.
pub open spec fn selection_after_intake(selected: Option<usize>) -> Option<usize> {
    match selected {
        Some(s) => Some(s),
        None => Some(0),
    }
}

/// What the viewer holds between frames: the latest snapshot of devices and
/// the selected row. The selection may point past the end of the snapshot
/// after a shorter one came in; it is brought back in range by the next
/// arrow key, and the detail panel shows an empty device meanwhile.
pub struct ViewerState {
    pub devices: Vec<DeviceRecord>,
    pub selected: Option<usize>,
}

impl ViewerState {
    /// No devices yet, with the first row selected.
    pub fn new() -> (r: ViewerState)
        ensures
            r.devices@.len() == 0,
            r.selected == Some(0usize),
    {
        ViewerState { devices: Vec::new(), selected: Some(0) }
    }

    /// Applies a key press to the selection and says what the loop does next.
    /// `paused` is the value of the shared pause flag when the key came.
    pub fn handle_key(&mut self, key: Key, paused: bool) -> (r: Command)
        ensures
            r == command_for(key, paused),
            final(self).selected == selection_after(old(self).selected, old(self).devices@.len(), key),
            final(self).devices@ == old(self).devices@,
    {
        let len = self.devices.len();
        match key {
            Key::Char(c) => {
                if c == 'q' {
                    Command::Quit
                } else if c == 's' {
                    Command::SetPause(!paused)
                } else {
                    Command::Continue
                }
            },
            Key::Down => {
                let next: usize = match self.selected {
                    None => 0,
                    Some(s) => if len == 0 || s >= len - 1 { 0 } else { s + 1 },
                };
                self.selected = Some(next);
                Command::Continue
            },
            Key::Up => {
                let previous: usize = match self.selected {
                    None => 0,
                    Some(s) => if len == 0 {
                        0
                    } else if s == 0 || s - 1 >= len {
                        len - 1
                    } else {
                        s - 1
                    },
                };
                self.selected = Some(previous);
                Command::Continue
            },
            Key::Other => Command::Continue,
        }
    }

    /// Takes in the outcome of a non-blocking receive on the snapshot
    /// channel: a snapshot replaces the device list wholesale and selects the
    /// first row if nothing was selected; an empty or closed channel changes
    /// nothing.
    pub fn apply_received(&mut self, received: Result<Vec<DeviceRecord>, TryRecvError>)
        ensures
            match received {
                Ok(v) => final(self).devices@ == v@
                    && final(self).selected == selection_after_intake(old(self).selected),
                Err(_) => final(self).devices@ == old(self).devices@
                    && final(self).selected == old(self).selected,
            },
    {
        match received {
            Ok(v) => {
                self.devices = v;
                if self.selected.is_none() {
                    self.selected = Some(0);
                }
            },
            Err(_) => {},
        }
    }

    /// Polls the snapshot channel once without blocking and takes in what came.
    pub fn poll_snapshot(&mut self, rx: &mut Receiver<Vec<DeviceRecord>>)
        ensures
            (final(self).devices@ == old(self).devices@ && final(self).selected == old(self).selected)
            || final(self).selected == selection_after_intake(old(self).selected),
    {
        let received = rx.try_recv();
        self.apply_received(received);
    }

    /// One turn of the event loop after the frame is drawn: applies the key
    /// press, if one came, and unless it asks to quit, polls the snapshot
    /// channel once. A quit leaves the state and the channel untouched.
    pub fn step(&mut self, key: Option<Key>, paused: bool, rx: &mut Receiver<Vec<DeviceRecord>>) -> (r: Command)
        ensures
            r == match key {
                Some(k) => command_for(k, paused),
                None => Command::Continue,
            },
            r == Command::Quit ==> final(self).devices@ == old(self).devices@
                && final(self).selected == old(self).selected
                && *final(rx) == *old(rx),
            r != Command::Quit ==> ({
                let sel = match key {
                    Some(k) => selection_after(old(self).selected, old(self).devices@.len(), k),
                    None => old(self).selected,
                };
                (final(self).devices@ == old(self).devices@ && final(self).selected == sel)
                    || final(self).selected == selection_after_intake(sel)
            }),
    {
        let command = match key {
            Some(k) => self.handle_key(k, paused),
            None => Command::Continue,
        };
        if command != Command::Quit {
            self.poll_snapshot(rx);
        }
        command
    }
}

} // verus!
