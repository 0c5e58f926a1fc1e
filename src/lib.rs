//! A full-screen terminal feed viewer: the decisions of its render loop,
//! of its tick/input event merge and of its terminal-mode guard, each a
//! verified function from plain values to plain values.

mod driver;
mod key;
mod session;
mod source;
mod view;

pub use driver::{
    drive, lemma_every_exit_restores, lemma_one_draw_per_event, lemma_only_exit_key_stops, quits,
    trace, Command, Driver, Phase, Step,
};
pub use key::{Event, Key};
pub use session::{
    cooked, enter_ops, entered, lemma_restore_idempotent, lemma_restored_is_cooked,
    lemma_session_round_trip, restore_ops, restored, TerminalMode, TerminalOp,
};
pub use source::{
    lemma_input_before_tick, lemma_read_error_is_no_input, merge, merged, Config, EventSource,
    InputStatus, Resolution,
};
pub use view::{body_region, build_table, DisplayItem, Region, TableView};
