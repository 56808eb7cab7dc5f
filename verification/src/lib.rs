//! Railway data handling: Darwin push-port forecasts, NROD schedule and
//! movement records, and the decisions made while building the OSM-derived
//! railway graph, each with a machine-checked contract.

pub mod text;
pub mod time;
pub mod errors;
pub mod xml;
pub mod forecasts;
pub mod schedule;
pub mod live;
pub mod make;
pub mod config;
pub mod updater_config;
pub mod tmpl;
pub mod laws;
