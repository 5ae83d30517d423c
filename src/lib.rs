//! State, navigation rules and view model of a terminal viewer that lists
//! nearby wireless devices, as delivered in full snapshots by a scanner.

mod channel;
mod decimal;
mod device;
mod laws;
mod state;
mod view;

pub use decimal::{decimal_of, digit_char, format_count};
pub use laws::{
    arrows_cancel, arrows_wrap, intake_then_arrow_in_range, pause_key_flips,
    placeholder_listed_by_id, quit_key_quits,
};
pub use device::{placeholder_address, shown_address, DeviceRecord, PLACEHOLDER_ADDRESS};
pub use state::{
    command_for, index_after_down, index_after_up, pause_after, selection_after,
    selection_after_intake, Command, Key, ViewerState,
};
pub use view::{
    detail_index, detail_is_empty, detail_shows, pause_hint, pause_hint_text, row_shows,
    DetailView, RowView, NAVIGATE_HINT, QUIT_HINT,
};
