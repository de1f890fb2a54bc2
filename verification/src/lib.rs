//! Verified core of a floating box-drawing palette: the text the palette
//! types, the window show/hide rules, the single-instance and keepalive
//! decisions, and the debug-log line format.

pub mod text;
pub mod win_ctl;
pub mod input;
pub mod single_instance;
pub mod pump_keepalive;
pub mod debug_log;
pub mod ui;
pub mod icon;
pub mod chars;
