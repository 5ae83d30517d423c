use vstd::prelude::*;
use vstd::string::StringExecFns;

verus! {

/// The address that a radio reports when it exposes no real hardware address.
pub const PLACEHOLDER_ADDRESS: &'static str = "00:00:00:00:00:00";

/// The placeholder address, as characters.
pub open spec fn placeholder_address() -> Seq<char> {
    "00:00:00:00:00:00"@
}

/// One discovered device, as the scanner reports it. A record is never
/// changed once received: a new snapshot replaces the whole list.
#[derive(Clone, Debug)]
pub struct DeviceRecord {
    /// Identifier assigned locally, shown when the address is the placeholder.
    pub id: String,
    /// Hardware address, or the placeholder when the radio hides it.
    pub address: String,
    /// Advertised name; may be empty.
    pub name: String,
    /// Transmit power, already formatted; may be empty.
    pub tx_power: String,
    /// Signal strength, already formatted.
    pub rssi: String,
    /// When the device was detected, already formatted.
    pub detected_at: String,
    /// Advertised service identifiers; only how many there are is shown.
    pub services: Vec<String>,
    /// Company code of the manufacturer data, decoded for display.
    pub company_code: String,
    /// Manufacturer payload, decoded for display (hex or text).
    pub manufacturer_data: String,
}

impl Default for DeviceRecord {
    /// A record with every text empty and no services.
    fn default() -> (r: DeviceRecord)
        ensures
            r.id@.len() == 0,
            r.address@.len() == 0,
            r.name@.len() == 0,
            r.tx_power@.len() == 0,
            r.rssi@.len() == 0,
            r.detected_at@.len() == 0,
            r.services@.len() == 0,
            r.company_code@.len() == 0,
            r.manufacturer_data@.len() == 0,
    {
        DeviceRecord {
            id: String::new(),
            address: String::new(),
            name: String::new(),
            tx_power: String::new(),
            rssi: String::new(),
            detected_at: String::new(),
            services: Vec::new(),
            company_code: String::new(),
            manufacturer_data: String::new(),
        }
    }
}

/// What the address column shows for a device: its local identifier when the
/// address is the placeholder, the address itself otherwise.
pub open spec fn shown_address(d: DeviceRecord) -> Seq<char> {
    if d.address@ == placeholder_address() {
        d.id@
    } else {
        d.address@
    }
}

impl DeviceRecord {
    /// The text of the address column for this device.
    pub fn display_address(&self) -> (r: String)
        ensures
            r@ == shown_address(*self),
    {
        proof {
            reveal_strlit("00:00:00:00:00:00");
        }
        let placeholder = String::from_str(PLACEHOLDER_ADDRESS);
        if self.address == placeholder {
            self.id.clone()
        } else {
            self.address.clone()
        }
    }
}

} // verus!
