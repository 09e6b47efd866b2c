//! Combat-session core: projections, capture lifecycle and round archiving.
pub mod axis_laws;
pub mod battle;
pub mod capture_laws;
pub mod choice_laws;
pub mod combat_details;
pub mod command_laws;
pub mod commands;
pub mod desktop;
pub mod desktop_laws;
pub mod detail;
pub mod detail_cache;
pub mod detail_laws;
pub mod detail_pages;
pub mod detail_text;
pub mod double;
pub mod error;
pub mod event_laws;
pub mod history;
pub mod hud;
pub mod hud_laws;
pub mod lanes;
pub mod lifecycle_laws;
pub mod line;
pub mod live_capture;
pub mod model;
pub mod names;
pub mod notices;
pub mod operations;
pub mod page_laws;
pub mod preferences;
pub mod presentation;
pub mod presentation_laws;
pub mod protocol_laws;
pub mod queries;
pub mod readout;
pub mod readout_laws;
pub mod record_laws;
pub mod reducer;
pub mod requests;
pub mod round_laws;
pub mod rounds;
pub mod rpc;
pub mod runtime;
pub mod session;
pub mod session_laws;
pub mod settings;
pub mod settings_laws;
pub mod single;
pub mod streams;
pub mod tally;
pub mod text;
pub mod text_laws;
pub mod timeline;
pub mod timeline_laws;
pub mod updates;
pub mod value_laws;
pub mod windows;
