use vstd::prelude::*;
use crate::decimal::{decimal_of, format_count};
use crate::device::{shown_address, DeviceRecord};
use crate::state::ViewerState;

verus! {

/// Hint for the quit key.
pub const QUIT_HINT: &'static str = "[q → quit]";

/// Hint for the arrow keys.
pub const NAVIGATE_HINT: &'static str = "[up/down → navigate]";

/// One row of the device table: the four cells, and whether the row is the
/// selected one (drawn reversed).
#[derive(Debug)]
pub struct RowView {
    pub address: String,
    pub name: String,
    pub tx_power: String,
    pub rssi: String,
    pub highlighted: bool,
}

/// The detail panel: when the device was detected, how many services it
/// advertises (in decimal), and its decoded manufacturer data.
#[derive(Debug)]
pub struct DetailView {
    pub detected_at: String,
    pub services: String,
    pub company_code: String,
    pub manufacturer_data: String,
}

/// `r` is the table row for device `d`, highlighted or not.
pub open spec fn row_shows(r: RowView, d: DeviceRecord, highlighted: bool) -> bool {
    &&& r.address@ == shown_address(d)
    &&& r.name@ == d.name@
    &&& r.tx_power@ == d.tx_power@
    &&& r.rssi@ == d.rssi@
    &&& r.highlighted == highlighted
}

/// `v` is the detail panel for device `d`.
pub open spec fn detail_shows(v: DetailView, d: DeviceRecord) -> bool {
    &&& v.detected_at@ == d.detected_at@
    &&& v.services@ == decimal_of(d.services@.len())
    &&& v.company_code@ == d.company_code@
    &&& v.manufacturer_data@ == d.manufacturer_data@
}

/// `v` is the detail panel of the empty device: no texts and a count of zero.
pub open spec fn detail_is_empty(v: DetailView) -> bool {
    &&& v.detected_at@.len() == 0
    &&& v.services@ == decimal_of(0)
    &&& v.company_code@.len() == 0
    &&& v.manufacturer_data@.len() == 0
}

/// The row the detail panel describes: the selected one, or the first.
pub open spec fn detail_index(selected: Option<usize>) -> nat {
    match selected {
        Some(s) => s as nat,
        None => 0,
    }
}

/// The label of the pause key, after the current value of the pause flag.
pub open spec fn pause_hint_text(paused: bool) -> Seq<char> {
    if paused {
        "[s → start scanning]"@
    } else {
        "[s → stop scanning]"@
    }
}

/// The detail panel for one device.
fn detail_of(d: &DeviceRecord) -> (v: DetailView)
    ensures
        detail_shows(v, *d),
{
    DetailView {
        detected_at: d.detected_at.clone(),
        services: format_count(d.services.len()),
        company_code: d.company_code.clone(),
        manufacturer_data: d.manufacturer_data.clone(),
    }
}

/// The label of the pause key: it offers to stop scanning while the scanner
/// runs, and to start it while paused.
pub fn pause_hint(paused: bool) -> (r: &'static str)
    ensures
        r@ == pause_hint_text(paused),
{
    proof {
        reveal_strlit("[s → start scanning]");
        reveal_strlit("[s → stop scanning]");
    }
    if paused {
        "[s → start scanning]"
    } else {
        "[s → stop scanning]"
    }
}

impl ViewerState {
    /// The rows of the device table, one per device of the snapshot, in order.
    /// Only the row at the selected index is highlighted.
    pub fn rows(&self) -> (r: Vec<RowView>)
        ensures
            r@.len() == self.devices@.len(),
            forall|i: int|
                0 <= i < r@.len() ==> row_shows(
                    #[trigger] r@[i],
                    self.devices@[i],
                    self.selected == Some(i as usize),
                ),
    {
        let mut out: Vec<RowView> = Vec::new();
        let mut i: usize = 0;
        while i < self.devices.len()
            invariant
                i <= self.devices@.len(),
                out@.len() == i,
                forall|j: int|
                    0 <= j < i ==> row_shows(
                        #[trigger] out@[j],
                        self.devices@[j],
                        self.selected == Some(j as usize),
                    ),
            decreases self.devices@.len() - i,
        {
            let d = &self.devices[i];
            let row = RowView {
                address: d.display_address(),
                name: d.name.clone(),
                tx_power: d.tx_power.clone(),
                rssi: d.rssi.clone(),
                highlighted: self.selected == Some(i),
            };
            out.push(row);
            i = i + 1;
        }
        out
    }

    /// The detail panel: the device at the selected index (the first row when
    /// nothing is selected), or the empty device when that index lies past
    /// the end of the snapshot.
    pub fn detail(&self) -> (v: DetailView)
        ensures
            detail_index(self.selected) < self.devices@.len()
                ==> detail_shows(v, self.devices@[detail_index(self.selected) as int]),
            detail_index(self.selected) >= self.devices@.len() ==> detail_is_empty(v),
    {
        let i: usize = match self.selected {
            Some(s) => s,
            None => 0,
        };
        if i < self.devices.len() {
            detail_of(&self.devices[i])
        } else {
            let empty = DeviceRecord::default();
            detail_of(&empty)
        }
    }
}

} // verus!
