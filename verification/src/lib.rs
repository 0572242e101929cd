//! A verified core for a terminal browser of the ENISA EU Vulnerability
//! Database (EUVD).

pub mod api;
pub mod app;
pub mod clock;
pub mod dates;
pub mod edit;
pub mod key_laws;
pub mod keys;
pub mod laws;
pub mod layout;
pub mod layout_laws;
pub mod lines;
pub mod model_laws;
pub mod number;
pub mod pieces;
pub mod query_laws;
pub mod record_laws;
pub mod reply_laws;
pub mod score;
pub mod screen_laws;
pub mod search;
pub mod state;
pub mod steps;
pub mod style;
pub mod table;
pub mod text;
pub mod text_laws;
pub mod ui;
