//! Settings of the database setup tool and of the timetable updater.

use vstd::prelude::*;

verus! {

/// Settings of the database setup tool.
#[derive(Clone, Debug)]
pub struct Config {
    pub database_url: String,
    pub username: String,
    pub password: String,
    pub require_tls: bool,
    pub n_threads: usize,
}

} // verus!
